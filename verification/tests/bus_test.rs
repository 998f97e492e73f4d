use peripheral_manager::bus::{BusRecv, EventBus};

#[test]
fn listeners_before_event_receive_it_once_each() {
    let mut bus: EventBus<u64> = EventBus::new(8);
    let mut first = bus.subscribe();
    let mut second = bus.subscribe();
    bus.publish(42);

    // Both listeners subscribed before the event receive exactly it.
    match bus.recv(&mut first) {
        BusRecv::Event(e) => assert_eq!(*e, 42),
        _ => panic!("first listener must receive the event"),
    }
    match bus.recv(&mut second) {
        BusRecv::Event(e) => assert_eq!(*e, 42),
        _ => panic!("second listener must receive the event"),
    }
    // And only once: the next attempt finds nothing.
    assert!(matches!(bus.recv(&mut first), BusRecv::Empty));
    assert!(matches!(bus.recv(&mut second), BusRecv::Empty));

    // A listener subscribed strictly after the event never observes it.
    let mut late = bus.subscribe();
    assert!(matches!(bus.recv(&mut late), BusRecv::Empty));
}

#[test]
fn slow_listener_loses_oldest_events() {
    let mut bus: EventBus<u64> = EventBus::new(2);
    let mut listener = bus.subscribe();
    bus.publish(1);
    bus.publish(2);
    bus.publish(3);

    // Depth two: event 1 is gone, the listener learns how much it missed.
    match bus.recv(&mut listener) {
        BusRecv::Lagged(missed) => assert_eq!(missed, 1),
        _ => panic!("the listener fell behind and must see the lag"),
    }
    match bus.recv(&mut listener) {
        BusRecv::Event(e) => assert_eq!(*e, 2),
        _ => panic!("the oldest retained event comes next"),
    }
    match bus.recv(&mut listener) {
        BusRecv::Event(e) => assert_eq!(*e, 3),
        _ => panic!("the newest event comes last"),
    }
    assert!(matches!(bus.recv(&mut listener), BusRecv::Empty));
}

#[test]
fn zero_depth_bus_retains_nothing() {
    let mut bus: EventBus<u64> = EventBus::new(0);
    let mut listener = bus.subscribe();
    bus.publish(9);
    match bus.recv(&mut listener) {
        BusRecv::Lagged(missed) => assert_eq!(missed, 1),
        _ => panic!("a zero-depth bus drops every event"),
    }
    assert!(matches!(bus.recv(&mut listener), BusRecv::Empty));
}

#[test]
fn publish_keeps_order_for_each_listener() {
    let mut bus: EventBus<u64> = EventBus::new(16);
    let mut listener = bus.subscribe();
    for v in [10, 20, 30] {
        bus.publish(v);
    }
    let mut seen: Vec<u64> = Vec::new();
    loop {
        match bus.recv(&mut listener) {
            BusRecv::Event(e) => seen.push(*e),
            BusRecv::Lagged(_) => panic!("nothing was lost at this depth"),
            BusRecv::Empty => break,
        }
    }
    assert_eq!(seen, vec![10, 20, 30]);
}
