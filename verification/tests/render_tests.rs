use status_device::render::DisplayRenderer;
use status_device::state::Status;

#[test]
fn tick_renders_once_then_stays_quiet_until_a_change() {
    let mut r = DisplayRenderer::new();
    // First observed change draws a frame.
    let first = r.tick("192.168.1.50", 1, Status::Free);
    assert!(first.is_some());
    // Ticks 2..k with no intervening change draw nothing.
    for _ in 0..5 {
        assert!(r.tick("192.168.1.50", 1, Status::Free).is_none());
    }
    // A change at the next tick draws again.
    assert!(r.tick("192.168.1.50", 1, Status::DoNotDisturb).is_some());
}

#[test]
fn fresh_renderer_suppresses_the_initial_values() {
    // The initial full render showed zero requests and Free, so a first
    // tick observing exactly that draws nothing.
    let mut r = DisplayRenderer::new();
    assert!(r.tick("10.0.0.2", 0, Status::Free).is_none());
}

#[test]
fn frame_holds_the_four_lines() {
    let mut r = DisplayRenderer::new();
    let frame = r.tick("192.168.1.50", 42, Status::DoNotDisturb).expect("a change");
    assert_eq!(frame.connection, "WiFi Connected");
    assert_eq!(frame.address, "IP: 192.168.1.50");
    assert_eq!(frame.status, "Status: Do Not Disturb");
    assert_eq!(frame.requests, "Requests: 42");
}

#[test]
fn frame_shows_free_status() {
    let mut r = DisplayRenderer::new();
    let frame = r.tick("10.0.0.2", 1, Status::Free).expect("a change");
    assert_eq!(frame.status, "Status: Free");
}

#[test]
fn counter_change_alone_triggers_a_render() {
    let mut r = DisplayRenderer::new();
    let _ = r.tick("10.0.0.2", 3, Status::Free);
    assert!(r.tick("10.0.0.2", 4, Status::Free).is_some());
}
