use sensor_telemetry::bus::PublishError;
use sensor_telemetry::events::{channel_color, AddressReadEvent};
use sensor_telemetry::geometry::{ADDRESS_COUNT, SENSOR_HEIGHT, SOURCE_WIDTH};
use sensor_telemetry::memory::NO_DATA;
use sensor_telemetry::state::SimState;

fn blank_sim() -> SimState {
    SimState::from_pixels(&vec![(0, 0, 0); SOURCE_WIDTH * SENSOR_HEIGHT])
}

#[test]
fn exit_flag_latches() {
    let mut sim = blank_sim();
    assert!(!sim.is_exited());
    sim.request_exit();
    assert!(sim.is_exited());
    // Repeated observations and further traffic never see it revert.
    assert!(sim.is_exited());
    let _ = sim.push_request_addr(1);
    assert!(sim.is_exited());
}

#[test]
fn channel_id_violation_detected() {
    // An event carrying channel id 4 is a producer contract violation: it
    // must be caught before any color mapping is applied.
    let event = AddressReadEvent { channel_id: 4, addr: 12 };
    assert_eq!(channel_color(event.channel_id), None);
    assert_eq!(channel_color(255), None);
}

#[test]
fn channel_colors_fixed_mapping() {
    assert_eq!(channel_color(0), Some((255, 0, 0)));
    assert_eq!(channel_color(1), Some((0, 255, 0)));
    assert_eq!(channel_color(2), Some((0, 0, 255)));
    assert_eq!(channel_color(3), Some((255, 0, 255)));
}

#[test]
fn publish_without_render_state_is_lossy() {
    let mut sim = blank_sim();
    assert_eq!(sim.push_pixel_read(1, 2, 10, 20, 30), Err(PublishError::NoSubscribers));
    assert_eq!(sim.push_addr_read(0, 5), Err(PublishError::NoSubscribers));
    assert_eq!(sim.push_request_addr(5), Err(PublishError::NoSubscribers));
}

#[test]
fn frame_drains_all_streams() {
    let mut sim = blank_sim();
    let mut render = sim.create_render_state();

    sim.push_pixel_read(3, -4, 10, 20, 30).unwrap();
    sim.push_addr_read(2, 77).unwrap();
    sim.push_addr_read(3, 78).unwrap();
    sim.push_request_addr(99).unwrap();

    let pixels = render.drain_pixels(&sim).unwrap();
    assert_eq!(pixels.len(), 1);
    assert_eq!((pixels[0].x, pixels[0].y, pixels[0].color), (3, -4, (10, 20, 30)));

    let reads = render.drain_reads(&sim).unwrap();
    assert_eq!(reads.len(), 2);
    assert_eq!((reads[0].channel_id, reads[0].addr), (2, 77));
    assert_eq!((reads[1].channel_id, reads[1].addr), (3, 78));

    let requests = render.drain_requests(&sim).unwrap();
    assert_eq!(requests.len(), 1);
    assert_eq!(requests[0].addr, 99);

    // Histories retain what was drained, for decayed visualization.
    assert_eq!(render.drawn_pixels.inner().len(), 1);
    assert_eq!(render.read_addrs.inner().len(), 2);
    assert_eq!(render.request_addrs.inner().len(), 1);

    // A second drain of a quiet frame observes nothing new.
    assert!(render.drain_pixels(&sim).unwrap().is_empty());
    assert_eq!(render.drawn_pixels.inner().len(), 1);
}

#[test]
fn events_before_subscription_are_missed() {
    let mut sim = blank_sim();
    let mut early = sim.create_render_state();
    sim.push_request_addr(1).unwrap();
    let mut late = sim.create_render_state();
    sim.push_request_addr(2).unwrap();

    let early_seen = early.drain_requests(&sim).unwrap();
    let late_seen = late.drain_requests(&sim).unwrap();
    assert_eq!(early_seen.iter().map(|e| e.addr).collect::<Vec<_>>(), vec![1, 2]);
    assert_eq!(late_seen.iter().map(|e| e.addr).collect::<Vec<_>>(), vec![2]);
}

#[test]
fn read_value_answers_model_and_sentinel() {
    let mut pixels = vec![(0, 0, 0); SOURCE_WIDTH * SENSOR_HEIGHT];
    pixels[0] = (42, 0, 0);
    pixels[1] = (0, 43, 0);
    let sim = SimState::from_pixels(&pixels);
    assert_eq!(sim.read_value(0), (42u16 << 8) | 43);
    assert_eq!(sim.read_value(ADDRESS_COUNT as u32), NO_DATA);
    assert_eq!(sim.read_value(u32::MAX), NO_DATA);
}
