use tokio::sync::broadcast;
use tokio::sync::broadcast::error::TryRecvError;
use webusb_web::{next_step, Received, StreamStep, UsbDevice, UsbEvent};

fn device(product_id: u16) -> UsbDevice {
    UsbDevice {
        vendor_id: 0x06,
        product_id,
        device_class: 0,
        device_subclass: 0,
        device_protocol: 0,
        device_version_major: 0,
        device_version_minor: 0,
        device_version_subminor: 0,
        usb_version_major: 2,
        usb_version_minor: 0,
        usb_version_subminor: 0,
        manufacturer_name: None,
        product_name: None,
        serial_number: None,
        opened: false,
        configuration: None,
        configurations: vec![],
    }
}

fn event_id(event: &UsbEvent) -> u16 {
    match event {
        UsbEvent::Connected(d) => d.product_id(),
        UsbEvent::Disconnected(d) => d.product_id() + 1000,
        _ => unreachable!(),
    }
}

/// Drains what the receiver holds now through the stream step; returns the
/// delivered event ids and whether the stream ended.
fn drain(rx: &mut broadcast::Receiver<UsbEvent>) -> (Vec<u16>, bool) {
    let mut ids = Vec::new();
    loop {
        let received = match rx.try_recv() {
            Ok(e) => Received::Event(e),
            Err(TryRecvError::Lagged(n)) => Received::Lagged(n),
            Err(TryRecvError::Closed) => Received::Closed,
            Err(TryRecvError::Empty) => return (ids, false),
        };
        match next_step(received) {
            StreamStep::Yield(e) => ids.push(event_id(&e)),
            StreamStep::Retry => (),
            StreamStep::End => return (ids, true),
        }
    }
}

#[test]
fn late_subscriber_sees_no_earlier_events() {
    let (tx, rx) = broadcast::channel(1024);
    for id in 0..5u16 {
        tx.send(UsbEvent::Connected(device(id))).unwrap();
    }
    let mut late = rx.resubscribe();
    tx.send(UsbEvent::Disconnected(device(7))).unwrap();
    tx.send(UsbEvent::Connected(device(8))).unwrap();
    let (ids, ended) = drain(&mut late);
    assert_eq!(ids, vec![1007, 8]);
    assert!(!ended);
}

#[test]
fn lagging_subscriber_resumes_with_live_events() {
    let (tx, mut rx) = broadcast::channel(4);
    for id in 0..10u16 {
        tx.send(UsbEvent::Connected(device(id))).unwrap();
    }
    let (ids, ended) = drain(&mut rx);
    assert!(!ended);
    assert_eq!(ids, vec![6, 7, 8, 9]);
    tx.send(UsbEvent::Disconnected(device(3))).unwrap();
    let (ids, ended) = drain(&mut rx);
    assert_eq!(ids, vec![1003]);
    assert!(!ended);
}

#[test]
fn stream_ends_only_when_channel_closes() {
    let (tx, mut rx) = broadcast::channel(8);
    tx.send(UsbEvent::Connected(device(1))).unwrap();
    drop(tx);
    let (ids, ended) = drain(&mut rx);
    assert_eq!(ids, vec![1]);
    assert!(ended);
}
