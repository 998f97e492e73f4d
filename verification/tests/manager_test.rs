use peripheral_manager::bus::BusRecv;
use peripheral_manager::enums::{ConnectionType, CoreEvent, Error};
use peripheral_manager::manager::{App, AppOptions, BleFilter, UsbFilter};
use peripheral_manager::peripheral::{
    BleCandidate, BleDeviceDetails, BleDeviceInfo, PeripheralIdentity, UsbDeviceInfo, PNP_ID_UUID,
    WRITE_READ_NOTIFY_UUID,
};

fn usb_descriptor(vendor_id: u16, report_length: u16) -> UsbDeviceInfo {
    UsbDeviceInfo {
        vendor_id,
        product_id: 0x0001,
        path: format!("usb-path-{}", vendor_id),
        input_report_byte_length: report_length,
    }
}

fn accepted_filter() -> UsbFilter {
    UsbFilter { vendor_id: Some(0x3373), product_id: None, input_report_byte_length: Some(65) }
}

fn ble_candidate(native_id: [u8; 6]) -> BleCandidate {
    BleCandidate {
        device: BleDeviceInfo { native_id, address: String::from("11:22:33:44:55:66") },
        characteristics: vec![WRITE_READ_NOTIFY_UUID, PNP_ID_UUID],
    }
}

fn ble_details() -> BleDeviceDetails {
    BleDeviceDetails {
        pnp: vec![0x02, 0x34, 0x12, 0x78, 0x56],
        firmware_revision: b"1.0.0".to_vec(),
        hardware_revision: b"1.0.0".to_vec(),
        software_revision: b"1.0.0".to_vec(),
        properties: None,
    }
}

#[test]
fn listener_registration_follows_broadcast_flag() {
    // Broadcasting off: registration fails with the dedicated error.
    let disabled = App::start(Some(AppOptions::new()));
    assert!(!disabled.is_support_broadcast());
    assert!(matches!(disabled.register_broadcast(), Err(Error::BroadcastDisabled)));

    // Broadcasting on — also the default configuration: registration
    // succeeds.
    let enabled = App::start(Some(AppOptions::new().set_broadcast(true, 16)));
    assert!(enabled.is_support_broadcast());
    assert!(enabled.register_broadcast().is_ok());

    let default_app = App::start(None);
    assert!(default_app.is_support_broadcast());
    assert!(default_app.register_broadcast().is_ok());
}

#[test]
fn usb_filter_scenario() {
    // Filter: vendor id 0x3373 and report length 65.
    let options = AppOptions::new().set_broadcast(true, 16).set_usb_filter(accepted_filter());
    let mut app = App::start(Some(options));
    let mut listener = app.register_broadcast().unwrap();

    let matching = usb_descriptor(0x3373, 65);
    let other = usb_descriptor(0x1234, 65);

    // The matching descriptor is accepted into the snapshot; the other is
    // excluded.
    let snapshot = vec![matching.clone(), other.clone()];
    let handles = app.peripherals(&snapshot);
    assert_eq!(handles.len(), 1);
    assert_eq!(handles[0].vendor_id(), 0x3373);
    assert_eq!(handles[0].conn_type(), ConnectionType::USB);

    // The same holds for add events: only the matching descriptor is
    // announced.
    app.on_usb_device_add(other);
    app.on_usb_device_add(matching);
    match app.next_event(&mut listener) {
        BusRecv::Event(CoreEvent::DeviceAdd(p)) => assert_eq!(p.vendor_id(), 0x3373),
        _ => panic!("exactly the accepted device is announced"),
    }
    assert!(matches!(app.next_event(&mut listener), BusRecv::Empty));
}

#[test]
fn add_event_reaches_prior_listeners_once_and_late_listeners_never() {
    let mut app = App::start(Some(AppOptions::new().set_broadcast(true, 16)));
    let mut first = app.register_broadcast().unwrap();
    let mut second = app.register_broadcast().unwrap();

    app.on_usb_device_add(usb_descriptor(0x3373, 65));

    for listener in [&mut first, &mut second] {
        match app.next_event(listener) {
            BusRecv::Event(CoreEvent::DeviceAdd(p)) => assert_eq!(p.vendor_id(), 0x3373),
            _ => panic!("a listener registered before the event receives it"),
        }
        assert!(matches!(app.next_event(listener), BusRecv::Empty));
    }

    let mut late = app.register_broadcast().unwrap();
    assert!(matches!(app.next_event(&mut late), BusRecv::Empty));
}

#[test]
fn usb_remove_event_carries_the_identity_of_the_add_event() {
    let options = AppOptions::new().set_broadcast(true, 16).set_usb_filter(accepted_filter());
    let mut app = App::start(Some(options));
    let mut listener = app.register_broadcast().unwrap();

    app.on_usb_device_add(usb_descriptor(0x3373, 65));
    let added_id = match app.next_event(&mut listener) {
        BusRecv::Event(CoreEvent::DeviceAdd(p)) => p.id(),
        _ => panic!("the accepted device is announced"),
    };
    assert_eq!(app.peripherals.len(), 1);

    // A filtered-out removal yields nothing.
    app.on_usb_device_remove(usb_descriptor(0x1234, 65));
    assert!(matches!(app.next_event(&mut listener), BusRecv::Empty));

    // The accepted removal is keyed by the registered identity — the very
    // identity the add event announced — and drops the registry entry.
    app.on_usb_device_remove(usb_descriptor(0x3373, 65));
    match app.next_event(&mut listener) {
        BusRecv::Event(CoreEvent::DeviceRemove(id)) => assert_eq!(*id, added_id),
        _ => panic!("the removal of an announced device is announced"),
    }
    assert_eq!(app.peripherals.len(), 0);
}

#[test]
fn usb_remove_of_a_never_announced_device_yields_nothing() {
    let options = AppOptions::new().set_broadcast(true, 16).set_usb_filter(accepted_filter());
    let mut app = App::start(Some(options));
    let mut listener = app.register_broadcast().unwrap();

    // The device passes the filter but was never announced: no identity
    // exists for it, so no remove event is published.
    app.on_usb_device_remove(usb_descriptor(0x3373, 65));
    assert!(matches!(app.next_event(&mut listener), BusRecv::Empty));
}

#[test]
fn ble_connect_announces_constructed_handle() {
    let mut app = App::start(Some(AppOptions::new().set_broadcast(true, 16)));
    let mut listener = app.register_broadcast().unwrap();

    let r = app.on_ble_device_connected(ble_candidate([1, 2, 3, 4, 5, 6]), ble_details());
    assert!(r.is_ok());
    assert_eq!(app.peripherals.len(), 1);

    match app.next_event(&mut listener) {
        BusRecv::Event(CoreEvent::DeviceAdd(p)) => {
            assert_eq!(p.id().value, 0x01020304050600000000000000000000u128);
            assert_eq!(p.vendor_id(), 0x1234);
            assert_eq!(p.product_id(), 0x5678);
            assert_eq!(p.conn_type(), ConnectionType::BLE);
        }
        _ => panic!("a validated, accepted candidate is announced"),
    }
}

#[test]
fn unsupported_ble_candidate_is_suppressed() {
    let mut app = App::start(Some(AppOptions::new().set_broadcast(true, 16)));
    let mut listener = app.register_broadcast().unwrap();

    // Only the device-identification characteristic: construction fails,
    // the pump logs the error, and no event is published.
    let mut candidate = ble_candidate([9, 9, 9, 9, 9, 9]);
    candidate.characteristics = vec![PNP_ID_UUID];
    let r = app.on_ble_device_connected(candidate, ble_details());
    assert!(matches!(r, Err(Error::NonSupport)));
    assert_eq!(app.peripherals.len(), 0);
    assert!(matches!(app.next_event(&mut listener), BusRecv::Empty));
}

#[test]
fn ble_filter_suppresses_connect_silently() {
    let options = AppOptions::new().set_broadcast(true, 16).set_ble_filter(BleFilter {
        address: Some(String::from("AA:AA:AA:AA:AA:AA")),
        required_characteristic: None,
    });
    let mut app = App::start(Some(options));
    let mut listener = app.register_broadcast().unwrap();

    let r = app.on_ble_device_connected(ble_candidate([1, 2, 3, 4, 5, 6]), ble_details());
    assert!(r.is_ok());
    assert_eq!(app.peripherals.len(), 0);
    assert!(matches!(app.next_event(&mut listener), BusRecv::Empty));
}

#[test]
fn ble_filter_can_require_a_characteristic() {
    let options = AppOptions::new().set_broadcast(true, 16).set_ble_filter(BleFilter {
        address: None,
        required_characteristic: Some(WRITE_READ_NOTIFY_UUID),
    });
    let mut app = App::start(Some(options));

    let mut without = ble_candidate([1, 1, 1, 1, 1, 1]);
    without.characteristics = vec![PNP_ID_UUID];
    assert!(app.on_ble_device_connected(without, ble_details()).is_ok());
    assert_eq!(app.peripherals.len(), 0);

    assert!(app.on_ble_device_connected(ble_candidate([2, 2, 2, 2, 2, 2]), ble_details()).is_ok());
    assert_eq!(app.peripherals.len(), 1);
}

#[test]
fn ble_disconnect_removes_by_derived_identity() {
    let mut app = App::start(Some(AppOptions::new().set_broadcast(true, 16)));
    let mut listener = app.register_broadcast().unwrap();

    let native: [u8; 6] = [1, 2, 3, 4, 5, 6];
    app.on_ble_device_connected(ble_candidate(native), ble_details()).unwrap();
    app.on_ble_device_connected(ble_candidate([7, 7, 7, 7, 7, 7]), ble_details()).unwrap();
    assert_eq!(app.peripherals.len(), 2);

    // Drain the two add events.
    assert!(matches!(app.next_event(&mut listener), BusRecv::Event(CoreEvent::DeviceAdd(_))));
    assert!(matches!(app.next_event(&mut listener), BusRecv::Event(CoreEvent::DeviceAdd(_))));

    app.on_ble_device_disconnected(&native);
    assert_eq!(app.peripherals.len(), 1);
    assert_eq!(app.peripherals[0].id().value, 0x07070707070700000000000000000000u128);

    match app.next_event(&mut listener) {
        BusRecv::Event(CoreEvent::DeviceRemove(id)) => {
            assert_eq!(id.value, 0x01020304050600000000000000000000u128);
        }
        _ => panic!("the disconnect is announced under the derived identity"),
    }
}

#[test]
fn events_without_broadcast_change_state_only() {
    let mut app = App::start(Some(AppOptions::new()));
    app.on_ble_device_connected(ble_candidate([1, 2, 3, 4, 5, 6]), ble_details()).unwrap();
    assert_eq!(app.peripherals.len(), 1);
    app.on_ble_device_disconnected(&[1, 2, 3, 4, 5, 6]);
    assert_eq!(app.peripherals.len(), 0);
}

#[test]
fn lookup_by_identity_finds_announced_devices_only() {
    let options = AppOptions::new().set_broadcast(true, 16).set_usb_filter(accepted_filter());
    let mut app = App::start(Some(options));
    let mut listener = app.register_broadcast().unwrap();

    // Unknown identity: nothing was ever announced.
    let unknown = PeripheralIdentity { value: 7 };
    assert!(matches!(app.peripheral(&unknown), Err(Error::DeviceNotFound)));

    // A filtered-out device is never registered, so it is never found.
    app.on_usb_device_add(usb_descriptor(0x1234, 65));
    assert_eq!(app.peripherals.len(), 0);

    // An announced USB device is found under the identity of its add
    // event, and an announced BLE device under its derived identity.
    app.on_usb_device_add(usb_descriptor(0x3373, 65));
    let usb_id = match app.next_event(&mut listener) {
        BusRecv::Event(CoreEvent::DeviceAdd(p)) => p.id(),
        _ => panic!("the accepted device is announced"),
    };
    let found = app.peripheral(&usb_id).unwrap();
    assert_eq!(found.id(), usb_id);
    assert_eq!(found.vendor_id(), 0x3373);

    app.on_ble_device_connected(ble_candidate([1, 2, 3, 4, 5, 6]), ble_details()).unwrap();
    let ble_id = PeripheralIdentity { value: 0x01020304050600000000000000000000u128 };
    let found = app.peripheral(&ble_id).unwrap();
    assert_eq!(found.id(), ble_id);
    assert_eq!(found.vendor_id(), 0x1234);

    // A removed device is no longer found.
    app.on_ble_device_disconnected(&[1, 2, 3, 4, 5, 6]);
    assert!(matches!(app.peripheral(&ble_id), Err(Error::DeviceNotFound)));
}

#[test]
fn it_works() {
    // The default configuration broadcasts, so a manager started without
    // options hands out a listener; the feed, drained the way a consumer
    // loop would, is empty before any device event.
    let app = App::start(None);
    let mut channl = app.register_broadcast().unwrap();

    loop {
        match app.next_event(&mut channl) {
            BusRecv::Event(v) => match v {
                CoreEvent::DeviceAdd(id) => {
                    println!("Add:{:?}", id.id());
                }
                CoreEvent::DeviceRemove(id) => {
                    println!("Remove:{}", id.value);
                }
            },
            BusRecv::Lagged(e) => println!("error: {:?}", e),
            BusRecv::Empty => break,
        }
    }
}

#[test]
fn options_builders_compose() {
    let options = AppOptions::new()
        .set_broadcast(true, 32)
        .set_usb_filter(accepted_filter())
        .set_ble_filter(BleFilter { address: None, required_characteristic: Some(PNP_ID_UUID) });
    assert!(options.is_broadcast);
    assert_eq!(options.broadcast_buf_len, 32);
    assert!(options.usb_filter.is_some());
    assert!(options.ble_filter.is_some());

    let default_options = AppOptions::default();
    assert!(default_options.is_broadcast);
    assert_eq!(default_options.broadcast_buf_len, 108);
    assert!(default_options.usb_filter.is_none());
    assert!(default_options.ble_filter.is_none());
}
