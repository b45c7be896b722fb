//! Device filters for pairing and enumeration.

use vstd::prelude::*;

use crate::descriptor::UsbDevice;
use crate::error::{Error, ErrorKind, Result};

verus! {

/// A filter that matches USB devices by various criteria.
///
/// Fields left as `None` match any value in that field.
#[derive(Debug, Clone, Default)]
pub struct UsbDeviceFilter {
    /// Optional USB vendor ID.
    pub vendor_id: Option<u16>,
    /// Optional USB product ID.
    pub product_id: Option<u16>,
    /// Optional USB device class code.
    pub class_code: Option<u8>,
    /// Optional USB device subclass code.
    pub subclass_code: Option<u8>,
    /// Optional USB device protocol code.
    pub protocol_code: Option<u8>,
    /// Optional USB device serial number.
    pub serial_number: Option<String>,
}

/// A set field matches only its own value; an unset field matches anything.
pub open spec fn field_matches<T>(field: Option<T>, value: T) -> bool {
    match field {
        Some(v) => v == value,
        None => true,
    }
}

/// Whether a device matches every field that the filter sets.
pub open spec fn filter_matches(f: UsbDeviceFilter, d: UsbDevice) -> bool {
    &&& field_matches(f.vendor_id, d.vendor_id)
    &&& field_matches(f.product_id, d.product_id)
    &&& field_matches(f.class_code, d.device_class)
    &&& field_matches(f.subclass_code, d.device_subclass)
    &&& field_matches(f.protocol_code, d.device_protocol)
    &&& match f.serial_number {
        Some(s) => d.serial_number is Some && d.serial_number->Some_0@ == s@,
        None => true,
    }
}

/// Whether a device matches at least one of the filters.
pub open spec fn any_filter_matches(filters: Seq<UsbDeviceFilter>, d: UsbDevice) -> bool {
    exists|i: int| 0 <= i < filters.len() && #[trigger] filter_matches(filters[i], d)
}

/// Whether a filter sets no field.
pub open spec fn is_empty_filter(f: UsbDeviceFilter) -> bool {
    &&& f.vendor_id is None
    &&& f.product_id is None
    &&& f.class_code is None
    &&& f.subclass_code is None
    &&& f.protocol_code is None
    &&& f.serial_number is None
}

fn id_matches(field: Option<u16>, value: u16) -> (r: bool)
    ensures
        r == field_matches(field, value),
{
    match field {
        Some(v) => v == value,
        None => true,
    }
}

fn code_matches(field: Option<u8>, value: u8) -> (r: bool)
    ensures
        r == field_matches(field, value),
{
    match field {
        Some(v) => v == value,
        None => true,
    }
}

impl UsbDeviceFilter {
    /// Creates a new, empty USB device filter.
    pub fn new() -> (r: UsbDeviceFilter)
        ensures
            is_empty_filter(r),
    {
        UsbDeviceFilter {
            vendor_id: None,
            product_id: None,
            class_code: None,
            subclass_code: None,
            protocol_code: None,
            serial_number: None,
        }
    }

    /// Filter by vendor id.
    pub fn with_vendor_id(self, vendor_id: u16) -> (r: UsbDeviceFilter)
        ensures
            r == (UsbDeviceFilter { vendor_id: Some(vendor_id), ..self }),
    {
        let mut f = self;
        f.vendor_id = Some(vendor_id);
        f
    }

    /// Filter by product id.
    pub fn with_product_id(self, product_id: u16) -> (r: UsbDeviceFilter)
        ensures
            r == (UsbDeviceFilter { product_id: Some(product_id), ..self }),
    {
        let mut f = self;
        f.product_id = Some(product_id);
        f
    }

    /// Filter by device class.
    pub fn with_class_code(self, class_code: u8) -> (r: UsbDeviceFilter)
        ensures
            r == (UsbDeviceFilter { class_code: Some(class_code), ..self }),
    {
        let mut f = self;
        f.class_code = Some(class_code);
        f
    }

    /// Filter by device subclass.
    pub fn with_subclass_code(self, subclass_code: u8) -> (r: UsbDeviceFilter)
        ensures
            r == (UsbDeviceFilter { subclass_code: Some(subclass_code), ..self }),
    {
        let mut f = self;
        f.subclass_code = Some(subclass_code);
        f
    }

    /// Filter by device protocol.
    pub fn with_protocol_code(self, protocol_code: u8) -> (r: UsbDeviceFilter)
        ensures
            r == (UsbDeviceFilter { protocol_code: Some(protocol_code), ..self }),
    {
        let mut f = self;
        f.protocol_code = Some(protocol_code);
        f
    }

    /// Filter by serial number.
    pub fn with_serial_number(self, serial_number: &str) -> (r: UsbDeviceFilter)
        ensures
            r.serial_number is Some,
            r.serial_number->Some_0@ == serial_number@,
            r == (UsbDeviceFilter { serial_number: r.serial_number, ..self }),
    {
        let mut f = self;
        f.serial_number = Some(serial_number.to_owned());
        f
    }

    /// Whether the device matches every field that this filter sets.
    pub fn matches(&self, device: &UsbDevice) -> (r: bool)
        ensures
            r == filter_matches(*self, *device),
    {
        let serial_ok = match &self.serial_number {
            Some(s) => match &device.serial_number {
                Some(t) => *s == *t,
                None => false,
            },
            None => true,
        };
        id_matches(self.vendor_id, device.vendor_id)
            && id_matches(self.product_id, device.product_id)
            && code_matches(self.class_code, device.device_class)
            && code_matches(self.subclass_code, device.device_subclass)
            && code_matches(self.protocol_code, device.device_protocol)
            && serial_ok
    }
}

/// Options of a pairing request: the filters of the devices that may be paired.
#[derive(Debug, Clone)]
pub struct UsbDeviceRequestOptions {
    /// A device may be paired if it matches at least one of these filters.
    pub filters: Vec<UsbDeviceFilter>,
}

impl UsbDeviceRequestOptions {
    /// Creates request options with the given device filters.
    pub fn new(filters: Vec<UsbDeviceFilter>) -> (r: UsbDeviceRequestOptions)
        ensures
            r.filters@ == filters@,
    {
        UsbDeviceRequestOptions { filters }
    }

    /// Whether the device matches at least one filter.
    pub fn matches(&self, device: &UsbDevice) -> (r: bool)
        ensures
            r == any_filter_matches(self.filters@, *device),
    {
        let mut i: usize = 0;
        while i < self.filters.len()
            invariant
                i <= self.filters@.len(),
                forall|j: int| 0 <= j < i ==> !#[trigger] filter_matches(self.filters@[j], *device),
            decreases self.filters@.len() - i,
        {
            if self.filters[i].matches(device) {
                return true;
            }
            i = i + 1;
        }
        false
    }

    /// Completes a pairing request with the device that the transport paired.
    ///
    /// A transport error passes on unchanged. A paired device that matches no
    /// filter is refused with `Disconnected`; a matching one is returned.
    pub fn paired(&self, outcome: Result<UsbDevice>) -> (r: Result<UsbDevice>)
        ensures
            outcome is Err ==> r is Err && r->Err_0@ == outcome->Err_0@,
            outcome is Ok && any_filter_matches(self.filters@, outcome->Ok_0) ==> r == outcome,
            outcome is Ok && !any_filter_matches(self.filters@, outcome->Ok_0) ==> r is Err
                && r->Err_0@.0 == ErrorKind::Disconnected,
    {
        match outcome {
            Ok(device) => {
                if self.matches(&device) {
                    Ok(device)
                } else {
                    Err(Error::new(ErrorKind::Disconnected, "paired device matches no filter"))
                }
            },
            Err(e) => Err(e),
        }
    }
}

} // verus!
