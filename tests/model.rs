use webusb_web::{
    check_status, isochronous_out_layout, kind_from_name, next_step, status_result, Error,
    ErrorKind, Received, StreamStep, UsbDevice, UsbDeviceFilter, UsbDeviceRequestOptions,
    UsbEvent, UsbTransferStatus,
};

fn device(vendor_id: u16, product_id: u16, serial: Option<&str>) -> UsbDevice {
    UsbDevice {
        vendor_id,
        product_id,
        device_class: 0xff,
        device_subclass: 1,
        device_protocol: 2,
        device_version_major: 1,
        device_version_minor: 0,
        device_version_subminor: 0,
        usb_version_major: 2,
        usb_version_minor: 1,
        usb_version_subminor: 0,
        manufacturer_name: None,
        product_name: Some("gadget".to_string()),
        serial_number: serial.map(|s| s.to_string()),
        opened: false,
        configuration: None,
        configurations: vec![],
    }
}

#[test]
fn platform_error_names_map_to_kinds() {
    assert_eq!(kind_from_name("NotFoundError"), ErrorKind::Disconnected);
    assert_eq!(kind_from_name("SecurityError"), ErrorKind::Security);
    assert_eq!(kind_from_name("InvalidAccessError"), ErrorKind::InvalidAccess);
    assert_eq!(kind_from_name("NetworkError"), ErrorKind::Transfer);
    assert_eq!(kind_from_name("AbortError"), ErrorKind::Other);
    assert_eq!(kind_from_name(""), ErrorKind::Other);
    assert_eq!(kind_from_name("notfounderror"), ErrorKind::Other);
}

#[test]
fn exception_keeps_its_message() {
    let e = Error::from_exception("SecurityError", "access denied");
    assert_eq!(e.kind(), ErrorKind::Security);
    assert_eq!(e.msg(), "access denied");
    let e = Error::from_exception("TypeError", "bad argument");
    assert_eq!(e.kind(), ErrorKind::Other);
    assert_eq!(e.msg(), "bad argument");
}

#[test]
fn non_exception_rejection_is_other() {
    let e = Error::from_value(Some("boom"));
    assert_eq!(e.kind(), ErrorKind::Other);
    assert_eq!(e.msg(), "boom");
    let e = Error::from_value(None);
    assert_eq!(e.kind(), ErrorKind::Other);
    assert_eq!(e.msg(), "unknown error");
}

#[test]
fn errors_compare_by_kind_and_message() {
    assert_eq!(Error::new(ErrorKind::Stall, "x"), Error::new(ErrorKind::Stall, "x"));
    assert_ne!(Error::new(ErrorKind::Stall, "x"), Error::new(ErrorKind::Babble, "x"));
    assert_ne!(Error::new(ErrorKind::Stall, "x"), Error::new(ErrorKind::Stall, "y"));
}

#[test]
fn status_maps_to_error_kind() {
    assert!(check_status(UsbTransferStatus::Completed).is_ok());
    assert_eq!(check_status(UsbTransferStatus::Stall).unwrap_err().kind(), ErrorKind::Stall);
    assert_eq!(check_status(UsbTransferStatus::Babble).unwrap_err().kind(), ErrorKind::Babble);
    assert_eq!(status_result(UsbTransferStatus::Completed, 42u32).unwrap(), 42);
}

#[test]
fn filter_builders_set_fields() {
    let f = UsbDeviceFilter::new()
        .with_vendor_id(0x06)
        .with_product_id(0x11)
        .with_class_code(0xff)
        .with_subclass_code(1)
        .with_protocol_code(2)
        .with_serial_number("0001");
    assert_eq!(f.vendor_id, Some(0x06));
    assert_eq!(f.product_id, Some(0x11));
    assert_eq!(f.class_code, Some(0xff));
    assert_eq!(f.subclass_code, Some(1));
    assert_eq!(f.protocol_code, Some(2));
    assert_eq!(f.serial_number.as_deref(), Some("0001"));
    let empty = UsbDeviceFilter::new();
    assert!(empty.vendor_id.is_none() && empty.serial_number.is_none());
}

#[test]
fn empty_filter_matches_any_device() {
    let f = UsbDeviceFilter::new();
    assert!(f.matches(&device(1, 2, None)));
    assert!(f.matches(&device(0xffff, 0, Some("x"))));
}

#[test]
fn filter_fields_are_anded() {
    let f = UsbDeviceFilter::new().with_vendor_id(0x06).with_product_id(0x11);
    assert!(f.matches(&device(0x06, 0x11, None)));
    assert!(!f.matches(&device(0x06, 0x12, None)));
    assert!(!f.matches(&device(0x07, 0x11, None)));
    let s = UsbDeviceFilter::new().with_serial_number("abc");
    assert!(s.matches(&device(1, 1, Some("abc"))));
    assert!(!s.matches(&device(1, 1, Some("abd"))));
    assert!(!s.matches(&device(1, 1, None)));
    let c = UsbDeviceFilter::new().with_class_code(0xfe);
    assert!(!c.matches(&device(1, 1, None)));
}

#[test]
fn filter_list_is_ored() {
    let opts = UsbDeviceRequestOptions::new(vec![
        UsbDeviceFilter::new().with_vendor_id(1),
        UsbDeviceFilter::new().with_vendor_id(0x06).with_product_id(0x11),
    ]);
    assert!(opts.matches(&device(0x06, 0x11, None)));
    assert!(opts.matches(&device(1, 99, None)));
    assert!(!opts.matches(&device(2, 0x11, None)));
    let none = UsbDeviceRequestOptions::new(vec![]);
    assert!(!none.matches(&device(1, 1, None)));
}

#[test]
fn pairing_returns_matching_device_and_enumeration_includes_it() {
    let filter = UsbDeviceFilter::new().with_vendor_id(0x06).with_product_id(0x11);
    let opts = UsbDeviceRequestOptions::new(vec![filter.clone()]);
    let offered = device(0x06, 0x11, Some("0001"));
    let dev = opts.paired(Ok(offered.clone())).unwrap();
    assert_eq!(dev.vendor_id(), 0x06);
    assert_eq!(dev.product_id(), 0x11);
    assert!(dev.same_device(&offered));
    let enumerated = vec![device(9, 9, None), offered];
    assert!(enumerated.iter().any(|d| d.vendor_id() == 0x06 && d.product_id() == 0x11));
    assert!(enumerated.contains(&dev));
}

#[test]
fn pairing_refuses_device_outside_filters() {
    let opts = UsbDeviceRequestOptions::new(vec![UsbDeviceFilter::new().with_vendor_id(0x06)]);
    let err = opts.paired(Ok(device(0x07, 0x11, None))).unwrap_err();
    assert_eq!(err.kind(), ErrorKind::Disconnected);
    let cancelled = opts.paired(Err(Error::new(ErrorKind::Security, "cancelled"))).unwrap_err();
    assert_eq!(cancelled, Error::new(ErrorKind::Security, "cancelled"));
}

#[test]
fn device_identity_ignores_open_state() {
    let a = device(1, 2, Some("s"));
    let mut b = device(1, 2, Some("s"));
    b.opened = true;
    assert!(a == b);
    assert_eq!(a.identity(), b.identity());
    let c = device(1, 2, Some("t"));
    assert!(a != c);
    assert_ne!(a.identity(), c.identity());
    let mut d = device(1, 2, Some("s"));
    d.device_version_minor = 9;
    assert!(a != d);
}

#[test]
fn device_getters_read_snapshot() {
    let d = device(0x1234, 0x5678, Some("sn"));
    assert_eq!(d.vendor_id(), 0x1234);
    assert_eq!(d.product_id(), 0x5678);
    assert_eq!(d.device_class(), 0xff);
    assert_eq!(d.device_subclass(), 1);
    assert_eq!(d.device_protocol(), 2);
    assert_eq!(d.device_version_major(), 1);
    assert_eq!(d.usb_version_major(), 2);
    assert_eq!(d.usb_version_minor(), 1);
    assert_eq!(d.manufacturer_name(), None);
    assert_eq!(d.product_name(), Some("gadget"));
    assert_eq!(d.serial_number(), Some("sn"));
    assert!(!d.opened());
    assert!(d.configuration().is_none());
    assert!(d.configurations().is_empty());
}

#[test]
fn isochronous_out_layout_concatenates_packets() {
    let packets = vec![vec![1u8, 2, 3], vec![], vec![4u8, 5]];
    let (data, lens) = isochronous_out_layout(&packets);
    assert_eq!(data, vec![1, 2, 3, 4, 5]);
    assert_eq!(lens, vec![3, 0, 2]);
    let (data, lens) = isochronous_out_layout(&[]);
    assert!(data.is_empty() && lens.is_empty());
}

#[test]
fn lag_is_swallowed_and_events_resume() {
    let dev = device(0x06, 0x11, None);
    let receptions = vec![
        Received::Event(UsbEvent::Connected(dev.clone())),
        Received::Lagged(1500),
        Received::Event(UsbEvent::Disconnected(dev.clone())),
        Received::Closed,
    ];
    let mut delivered = Vec::new();
    let mut ended = false;
    for r in receptions {
        match next_step(r) {
            StreamStep::Yield(e) => delivered.push(e),
            StreamStep::Retry => (),
            StreamStep::End => {
                ended = true;
                break;
            }
        }
    }
    assert!(ended);
    assert_eq!(delivered.len(), 2);
    assert!(matches!(&delivered[0], UsbEvent::Connected(d) if d.vendor_id() == 0x06));
    assert!(matches!(&delivered[1], UsbEvent::Disconnected(d) if d.product_id() == 0x11));
}

#[test]
fn lag_notice_never_ends_stream() {
    assert!(matches!(next_step(Received::Lagged(0)), StreamStep::Retry));
    assert!(matches!(next_step(Received::Lagged(u64::MAX)), StreamStep::Retry));
    assert!(matches!(next_step(Received::Closed), StreamStep::End));
}

#[test]
fn error_text_names_kind_and_message() {
    assert_eq!(Error::new(ErrorKind::Stall, "halted").to_text(), "Stall: halted");
    assert_eq!(Error::new(ErrorKind::AlreadyOpen, "").to_text(), "AlreadyOpen: ");
    assert_eq!(ErrorKind::InvalidAccess.name(), "InvalidAccess");
    assert_eq!(ErrorKind::Other.name(), "Other");
}
