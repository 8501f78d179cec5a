use sensor_telemetry::bus::{EventBus, PublishError, ReceiveError};
use sensor_telemetry::queue::{DrainError, EventQueue};

#[test]
fn empty_drain_is_clean() {
    let mut bus: EventBus<u32> = EventBus::new(16);
    let mut window = EventQueue::new(&mut bus, 4);
    let drained = window.drain(&bus).expect("drain of an open bus must succeed");
    assert!(drained.is_empty());
    assert!(window.inner().is_empty());
}

#[test]
fn bounded_history_keeps_last_events() {
    // Capacity 3, five single-event publish+drain rounds: the history must
    // hold exactly the last three published values, in publish order.
    let mut bus: EventBus<u32> = EventBus::new(1024);
    let mut window = EventQueue::new(&mut bus, 3);
    for i in 0..5u32 {
        bus.publish(i).unwrap();
        let drained = window.drain(&bus).unwrap();
        assert_eq!(drained, vec![i]);
    }
    assert_eq!(window.inner().as_slice(), &[2, 3, 4]);
}

#[test]
fn bounded_history_single_bulk_drain() {
    let mut bus: EventBus<u32> = EventBus::new(1024);
    let mut window = EventQueue::new(&mut bus, 3);
    for i in 0..5u32 {
        bus.publish(i).unwrap();
    }
    let drained = window.drain(&bus).unwrap();
    assert_eq!(drained, vec![0, 1, 2, 3, 4]);
    assert_eq!(window.inner().as_slice(), &[2, 3, 4]);
}

#[test]
fn lag_reports_overflow_count() {
    // Seven events through a bus that retains four: the subscriber's first
    // receive reports exactly the three overwritten events, then delivery
    // resumes at the oldest available event.
    let mut bus: EventBus<u32> = EventBus::new(4);
    let mut sub = bus.subscribe();
    for i in 0..7u32 {
        bus.publish(i).unwrap();
    }
    assert_eq!(sub.try_receive(&bus), Err(ReceiveError::Lagged(3)));
    for i in 3..7u32 {
        assert_eq!(sub.try_receive(&bus), Ok(i));
    }
    assert_eq!(sub.try_receive(&bus), Err(ReceiveError::Empty));
}

#[test]
fn lagged_drain_skips_silently() {
    let mut bus: EventBus<u32> = EventBus::new(4);
    let mut window = EventQueue::new(&mut bus, 8);
    for i in 0..7u32 {
        bus.publish(i).unwrap();
    }
    let drained = window.drain(&bus).expect("lag must not fail a drain");
    assert_eq!(drained, vec![3, 4, 5, 6]);
    assert_eq!(window.inner().as_slice(), &[3, 4, 5, 6]);
}

#[test]
fn publish_without_subscribers_fails() {
    let mut bus: EventBus<u32> = EventBus::new(4);
    assert_eq!(bus.publish(1), Err(PublishError::NoSubscribers));
    let _sub = bus.subscribe();
    assert_eq!(bus.publish(2), Ok(()));
}

#[test]
fn publish_after_close_fails() {
    let mut bus: EventBus<u32> = EventBus::new(4);
    let _sub = bus.subscribe();
    bus.close();
    assert_eq!(bus.publish(1), Err(PublishError::Closed));
}

#[test]
fn closed_bus_drains_remainder_then_reports() {
    let mut bus: EventBus<u32> = EventBus::new(8);
    let mut sub = bus.subscribe();
    bus.publish(10).unwrap();
    bus.publish(11).unwrap();
    bus.close();
    assert_eq!(sub.try_receive(&bus), Ok(10));
    assert_eq!(sub.try_receive(&bus), Ok(11));
    assert_eq!(sub.try_receive(&bus), Err(ReceiveError::Closed));
}

#[test]
fn drain_surfaces_closure_after_catching_up() {
    let mut bus: EventBus<u32> = EventBus::new(8);
    let mut window = EventQueue::new(&mut bus, 8);
    bus.publish(10).unwrap();
    bus.publish(11).unwrap();
    bus.close();
    assert_eq!(window.drain(&bus), Err(DrainError::ChannelClosed));
    // The frame can still complete from what was retained.
    assert_eq!(window.inner().as_slice(), &[10, 11]);
}

#[test]
fn process_discards_but_retains() {
    let mut bus: EventBus<u32> = EventBus::new(8);
    let mut window = EventQueue::new(&mut bus, 2);
    for i in 0..4u32 {
        bus.publish(i).unwrap();
    }
    window.process(&bus).unwrap();
    assert_eq!(window.inner().as_slice(), &[2, 3]);
}

#[test]
fn subscribers_are_independent() {
    let mut bus: EventBus<u32> = EventBus::new(8);
    let mut first = bus.subscribe();
    bus.publish(1).unwrap();
    let mut second = bus.subscribe();
    bus.publish(2).unwrap();
    // The first subscriber sees both events, the late one only the second.
    assert_eq!(first.try_receive(&bus), Ok(1));
    assert_eq!(first.try_receive(&bus), Ok(2));
    assert_eq!(second.try_receive(&bus), Ok(2));
    assert_eq!(second.try_receive(&bus), Err(ReceiveError::Empty));
    assert_eq!(first.try_receive(&bus), Err(ReceiveError::Empty));
}

#[test]
fn has_pending_tracks_cursor() {
    let mut bus: EventBus<u32> = EventBus::new(8);
    let mut sub = bus.subscribe();
    assert!(!sub.has_pending(&bus));
    bus.publish(5).unwrap();
    assert!(sub.has_pending(&bus));
    assert_eq!(sub.try_receive(&bus), Ok(5));
    assert!(!sub.has_pending(&bus));
}
