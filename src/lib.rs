//! A verified model of WebUSB device sessions.
//!
//! The library holds the parts of WebUSB access that are decisions rather than
//! browser calls: the error taxonomy and its mapping from platform error names,
//! plain descriptor snapshots of paired devices, device filters, the open
//! session state machine with its transfer result mapping, and the step that
//! turns raw broadcast receptions into a lag-tolerant event stream.
//!
//! The host transport (the browser's `navigator.usb`) is driven by the caller:
//! each session operation takes the transport's outcome as a plain value and
//! returns what the caller observes.

pub mod control;
pub mod descriptor;
pub mod error;
pub mod events;
pub mod filter;
pub mod session;
pub mod transfer;

pub use control::{UsbControlRequest, UsbRecipient, UsbRequestType};
pub use descriptor::{
    DeviceIdentity, UsbAlternateInterface, UsbConfiguration, UsbDevice, UsbDirection, UsbEndpoint,
    UsbEndpointType, UsbInterface,
};
pub use error::{kind_from_name, Error, ErrorKind, Result};
pub use events::{next_step, Received, StreamStep, UsbEvent};
pub use filter::{UsbDeviceFilter, UsbDeviceRequestOptions};
pub use session::OpenUsbDevice;
pub use transfer::{
    check_status, isochronous_in_results, isochronous_out_layout, isochronous_out_results,
    status_result, UsbInTransferResult, UsbIsochronousInTransferPacket,
    UsbIsochronousOutTransferPacket, UsbOutTransferResult, UsbTransferStatus,
};
