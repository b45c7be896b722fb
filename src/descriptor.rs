//! Descriptor snapshots: device, configurations, interfaces, alternate
//! settings and endpoints, as plain values.

use vstd::prelude::*;

verus! {

/// USB transfer direction.
#[derive(Debug, Clone, Copy, PartialEq, Eq, Structural, PartialOrd, Ord, Hash)]
pub enum UsbDirection {
    /// Data is transferred from device to host.
    In,
    /// Data is transferred from host to device.
    Out,
}

/// USB endpoint type.
#[derive(Debug, Clone, Copy, PartialEq, Eq, Structural, PartialOrd, Ord, Hash)]
pub enum UsbEndpointType {
    /// Reliable data transfer for large payloads.
    ///
    /// Data sent through a bulk endpoint is guaranteed to be delivered
    /// or generate an error but may be preempted by other data traffic.
    Bulk,
    /// Reliable data transfer for small payloads.
    ///
    /// Data sent through an interrupt endpoint is guaranteed to be
    /// delivered or generate an error and is also given dedicated bus time
    /// for transmission.
    Interrupt,
    /// Unreliable data transfer for payloads that must be delivered
    /// periodically.
    ///
    /// They are given dedicated bus time but if a deadline is missed the data is dropped.
    Isochronous,
}

/// A USB endpoint provided by the USB device.
#[derive(Debug, Clone, Copy, PartialEq, Eq, Structural)]
pub struct UsbEndpoint {
    /// The endpoint number, from 1 to 15, taken from the `bEndpointAddress`
    /// field of the endpoint descriptor.
    pub endpoint_number: u8,
    /// The direction in which this endpoint transfers data.
    pub direction: UsbDirection,
    /// The transfer type of the endpoint.
    pub endpoint_type: UsbEndpointType,
    /// The size of the packets that data sent through this endpoint is divided into.
    pub packet_size: u32,
}

/// An alternate setting of an interface.
#[derive(Debug, Clone)]
pub struct UsbAlternateInterface {
    /// The alternate setting number (`bAlternateSetting`).
    pub alternate_setting: u8,
    /// The class of this interface (`bInterfaceClass`).
    pub interface_class: u8,
    /// The subclass of this interface (`bInterfaceSubClass`).
    pub interface_subclass: u8,
    /// The protocol supported by this interface (`bInterfaceProtocol`).
    pub interface_protocol: u8,
    /// The name of the interface, if the device provides one.
    pub interface_name: Option<String>,
    /// The endpoints belonging to this alternate setting.
    pub endpoints: Vec<UsbEndpoint>,
}

/// A USB interface grouping one or more alternate settings.
#[derive(Debug, Clone)]
pub struct UsbInterface {
    /// The interface number.
    pub interface_number: u8,
    /// The currently selected alternate setting of this interface.
    pub alternate: UsbAlternateInterface,
    /// The alternate settings available for this interface.
    pub alternates: Vec<UsbAlternateInterface>,
    /// Whether this interface is claimed for exclusive access.
    pub claimed: bool,
}

/// A configuration belonging to a USB device.
#[derive(Debug, Clone)]
pub struct UsbConfiguration {
    /// The configuration value (`bConfigurationValue`).
    pub configuration_value: u8,
    /// The name provided by the device to describe this configuration.
    pub configuration_name: Option<String>,
    /// The interfaces available under this configuration.
    pub interfaces: Vec<UsbInterface>,
}

/// The identity of a device: two descriptors with equal identities describe
/// the same logical device.
#[derive(Debug, Clone, PartialEq, Eq, Hash)]
pub struct DeviceIdentity {
    /// Vendor identifier.
    pub vendor_id: u16,
    /// Product identifier.
    pub product_id: u16,
    /// Device class code.
    pub device_class: u8,
    /// Device subclass code.
    pub device_subclass: u8,
    /// Device protocol code.
    pub device_protocol: u8,
    /// Major version of the device.
    pub device_version_major: u8,
    /// Minor version of the device.
    pub device_version_minor: u8,
    /// Subminor version of the device.
    pub device_version_subminor: u8,
    /// Manufacturer name.
    pub manufacturer_name: Option<String>,
    /// Product name.
    pub product_name: Option<String>,
    /// Serial number.
    pub serial_number: Option<String>,
}

/// A snapshot of a paired USB device.
#[derive(Debug, Clone)]
pub struct UsbDevice {
    /// Manufacturer-provided vendor identifier.
    pub vendor_id: u16,
    /// Manufacturer-provided product identifier.
    pub product_id: u16,
    /// Device class code.
    pub device_class: u8,
    /// Device subclass code.
    pub device_subclass: u8,
    /// Device protocol code.
    pub device_protocol: u8,
    /// Major version of the device.
    pub device_version_major: u8,
    /// Minor version of the device.
    pub device_version_minor: u8,
    /// Subminor version of the device.
    pub device_version_subminor: u8,
    /// Major version of the USB protocol supported by the device.
    pub usb_version_major: u8,
    /// Minor version of the USB protocol supported by the device.
    pub usb_version_minor: u8,
    /// Subminor version of the USB protocol supported by the device.
    pub usb_version_subminor: u8,
    /// Manufacturer name, if provided.
    pub manufacturer_name: Option<String>,
    /// Product name, if provided.
    pub product_name: Option<String>,
    /// Serial number, if provided.
    pub serial_number: Option<String>,
    /// Whether the device is open.
    pub opened: bool,
    /// The active configuration, if any.
    pub configuration: Option<UsbConfiguration>,
    /// All configurations of the device.
    pub configurations: Vec<UsbConfiguration>,
}

/// The text of an optional string, as a sequence of characters.
pub open spec fn opt_text(s: Option<String>) -> Option<Seq<char>> {
    match s {
        Some(t) => Some(t@),
        None => None,
    }
}

/// Whether two descriptors describe the same logical device.
pub open spec fn same_identity(a: UsbDevice, b: UsbDevice) -> bool {
    &&& a.vendor_id == b.vendor_id
    &&& a.product_id == b.product_id
    &&& a.device_class == b.device_class
    &&& a.device_subclass == b.device_subclass
    &&& a.device_protocol == b.device_protocol
    &&& a.device_version_major == b.device_version_major
    &&& a.device_version_minor == b.device_version_minor
    &&& a.device_version_subminor == b.device_version_subminor
    &&& opt_text(a.manufacturer_name) == opt_text(b.manufacturer_name)
    &&& opt_text(a.product_name) == opt_text(b.product_name)
    &&& opt_text(a.serial_number) == opt_text(b.serial_number)
}

/// Compares two optional strings by their text.
fn same_opt_text(a: &Option<String>, b: &Option<String>) -> (r: bool)
    ensures
        r == (opt_text(*a) == opt_text(*b)),
{
    match (a, b) {
        (Some(x), Some(y)) => *x == *y,
        (None, None) => true,
        _ => false,
    }
}

/// Borrows the text of an optional string.
fn opt_as_str(s: &Option<String>) -> (r: Option<&str>)
    ensures
        r is Some <==> s is Some,
        r is Some ==> r->Some_0@ == s->Some_0@,
{
    match s {
        Some(t) => Some(t.as_str()),
        None => None,
    }
}

fn copy_opt_text(s: &Option<String>) -> (r: Option<String>)
    ensures
        opt_text(r) == opt_text(*s),
{
    match s {
        Some(t) => Some(t.clone()),
        None => None,
    }
}

impl UsbDevice {
    /// Manufacturer-provided vendor identifier.
    pub fn vendor_id(&self) -> (r: u16)
        ensures
            r == self.vendor_id,
    {
        self.vendor_id
    }

    /// Manufacturer-provided product identifier.
    pub fn product_id(&self) -> (r: u16)
        ensures
            r == self.product_id,
    {
        self.product_id
    }

    /// Device class code.
    pub fn device_class(&self) -> (r: u8)
        ensures
            r == self.device_class,
    {
        self.device_class
    }

    /// Device subclass code.
    pub fn device_subclass(&self) -> (r: u8)
        ensures
            r == self.device_subclass,
    {
        self.device_subclass
    }

    /// Device protocol code.
    pub fn device_protocol(&self) -> (r: u8)
        ensures
            r == self.device_protocol,
    {
        self.device_protocol
    }

    /// Major version of the device.
    pub fn device_version_major(&self) -> (r: u8)
        ensures
            r == self.device_version_major,
    {
        self.device_version_major
    }

    /// Minor version of the device.
    pub fn device_version_minor(&self) -> (r: u8)
        ensures
            r == self.device_version_minor,
    {
        self.device_version_minor
    }

    /// Subminor version of the device.
    pub fn device_version_subminor(&self) -> (r: u8)
        ensures
            r == self.device_version_subminor,
    {
        self.device_version_subminor
    }

    /// Major version of the USB protocol supported by the device.
    pub fn usb_version_major(&self) -> (r: u8)
        ensures
            r == self.usb_version_major,
    {
        self.usb_version_major
    }

    /// Minor version of the USB protocol supported by the device.
    pub fn usb_version_minor(&self) -> (r: u8)
        ensures
            r == self.usb_version_minor,
    {
        self.usb_version_minor
    }

    /// Subminor version of the USB protocol supported by the device.
    pub fn usb_version_subminor(&self) -> (r: u8)
        ensures
            r == self.usb_version_subminor,
    {
        self.usb_version_subminor
    }

    /// Optional manufacturer name.
    pub fn manufacturer_name(&self) -> (r: Option<&str>)
        ensures
            r is Some <==> self.manufacturer_name is Some,
            r is Some ==> r->Some_0@ == self.manufacturer_name->Some_0@,
    {
        opt_as_str(&self.manufacturer_name)
    }

    /// Optional product name.
    pub fn product_name(&self) -> (r: Option<&str>)
        ensures
            r is Some <==> self.product_name is Some,
            r is Some ==> r->Some_0@ == self.product_name->Some_0@,
    {
        opt_as_str(&self.product_name)
    }

    /// Optional serial number of the device.
    pub fn serial_number(&self) -> (r: Option<&str>)
        ensures
            r is Some <==> self.serial_number is Some,
            r is Some ==> r->Some_0@ == self.serial_number->Some_0@,
    {
        opt_as_str(&self.serial_number)
    }

    /// Whether the device is currently open.
    pub fn opened(&self) -> (r: bool)
        ensures
            r == self.opened,
    {
        self.opened
    }

    /// The active configuration, if any.
    pub fn configuration(&self) -> (r: Option<&UsbConfiguration>)
        ensures
            r is Some <==> self.configuration is Some,
            r is Some ==> *r->Some_0 == self.configuration->Some_0,
    {
        match &self.configuration {
            Some(c) => Some(c),
            None => None,
        }
    }

    /// All available configurations of this device.
    pub fn configurations(&self) -> (r: &[UsbConfiguration])
        ensures
            r@ == self.configurations@,
    {
        self.configurations.as_slice()
    }

    /// Whether `other` describes the same logical device.
    pub fn same_device(&self, other: &UsbDevice) -> (r: bool)
        ensures
            r == same_identity(*self, *other),
    {
        self.vendor_id == other.vendor_id && self.product_id == other.product_id
            && self.device_class == other.device_class
            && self.device_subclass == other.device_subclass
            && self.device_protocol == other.device_protocol
            && self.device_version_major == other.device_version_major
            && self.device_version_minor == other.device_version_minor
            && self.device_version_subminor == other.device_version_subminor
            && same_opt_text(&self.manufacturer_name, &other.manufacturer_name)
            && same_opt_text(&self.product_name, &other.product_name)
            && same_opt_text(&self.serial_number, &other.serial_number)
    }

    /// The identity of this device, suitable as a hash key.
    pub fn identity(&self) -> (r: DeviceIdentity)
        ensures
            r.vendor_id == self.vendor_id,
            r.product_id == self.product_id,
            r.device_class == self.device_class,
            r.device_subclass == self.device_subclass,
            r.device_protocol == self.device_protocol,
            r.device_version_major == self.device_version_major,
            r.device_version_minor == self.device_version_minor,
            r.device_version_subminor == self.device_version_subminor,
            opt_text(r.manufacturer_name) == opt_text(self.manufacturer_name),
            opt_text(r.product_name) == opt_text(self.product_name),
            opt_text(r.serial_number) == opt_text(self.serial_number),
    {
        DeviceIdentity {
            vendor_id: self.vendor_id,
            product_id: self.product_id,
            device_class: self.device_class,
            device_subclass: self.device_subclass,
            device_protocol: self.device_protocol,
            device_version_major: self.device_version_major,
            device_version_minor: self.device_version_minor,
            device_version_subminor: self.device_version_subminor,
            manufacturer_name: copy_opt_text(&self.manufacturer_name),
            product_name: copy_opt_text(&self.product_name),
            serial_number: copy_opt_text(&self.serial_number),
        }
    }
}

impl PartialEq for UsbDevice {
    fn eq(&self, other: &UsbDevice) -> (r: bool)
        ensures
            r == same_identity(*self, *other),
    {
        self.same_device(other)
    }
}

impl vstd::std_specs::cmp::PartialEqSpecImpl for UsbDevice {
    open spec fn obeys_eq_spec() -> bool {
        true
    }

    open spec fn eq_spec(&self, other: &UsbDevice) -> bool {
        same_identity(*self, *other)
    }
}

impl Eq for UsbDevice {}

} // verus!
