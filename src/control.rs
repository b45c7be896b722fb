//! Control transfer setup.

use vstd::prelude::*;

verus! {

/// The recipient of a USB control transfer.
#[derive(Debug, Clone, Copy, PartialEq, Eq, Structural, PartialOrd, Ord, Hash)]
pub enum UsbRecipient {
    /// The request is intended for the USB device as a whole.
    Device,
    /// The request is intended for a specific interface on the USB device.
    Interface,
    /// The request is intended for a specific endpoint on the USB device.
    Endpoint,
    /// The request is intended for some other recipient.
    Other,
}

/// The type of USB control request.
#[derive(Debug, Clone, Copy, PartialEq, Eq, Structural, PartialOrd, Ord, Hash)]
pub enum UsbRequestType {
    /// A standard request defined by the USB specification.
    Standard,
    /// A class-specific request.
    Class,
    /// A vendor-specific request.
    Vendor,
}

/// USB control request.
#[derive(Debug, Clone, Copy, PartialEq, Eq, Structural)]
pub struct UsbControlRequest {
    /// Whether the request is standard, class-specific or vendor-specific.
    pub request_type: UsbRequestType,
    /// The target of the transfer on the device.
    pub recipient: UsbRecipient,
    /// Vendor-specific command.
    pub request: u8,
    /// Vendor-specific request parameters.
    pub value: u16,
    /// The interface number of the recipient.
    pub index: u16,
}

impl UsbControlRequest {
    /// Creates a new USB control request with the specified parameters.
    pub fn new(
        request_type: UsbRequestType,
        recipient: UsbRecipient,
        request: u8,
        value: u16,
        index: u16,
    ) -> (r: UsbControlRequest)
        ensures
            r == (UsbControlRequest { request_type, recipient, request, value, index }),
    {
        UsbControlRequest { request_type, recipient, request, value, index }
    }
}

} // verus!
