use status_device::state::DeviceState;
use status_device::state::Status;

#[test]
fn fresh_state_is_zero_and_free() {
    let d = DeviceState::new();
    assert_eq!(d.request_count(), 0);
    assert_eq!(d.get_status(), Status::Free);
}

#[test]
fn one_increment_counts_one() {
    let mut d = DeviceState::new();
    let r = d.increment_request_count();
    assert_eq!(r, 1);
    assert_eq!(d.request_count(), 1);
}

#[test]
fn hundred_increments_count_hundred() {
    let mut d = DeviceState::new();
    for _ in 0..100 {
        d.increment_request_count();
    }
    assert_eq!(d.request_count(), 100);
}

#[test]
fn ten_thousand_increments_count_ten_thousand() {
    let mut d = DeviceState::new();
    for _ in 0..10000 {
        d.increment_request_count();
    }
    assert_eq!(d.request_count(), 10000);
}

#[test]
fn increment_leaves_status_alone() {
    let mut d = DeviceState::new();
    d.set_status(Status::DoNotDisturb);
    d.increment_request_count();
    assert_eq!(d.get_status(), Status::DoNotDisturb);
}

#[test]
fn set_then_get_returns_what_was_set() {
    let mut d = DeviceState::new();
    d.set_status(Status::DoNotDisturb);
    assert_eq!(d.get_status(), Status::DoNotDisturb);
    d.set_status(Status::Free);
    assert_eq!(d.get_status(), Status::Free);
}

#[test]
fn set_status_leaves_counter_alone() {
    let mut d = DeviceState::new();
    d.increment_request_count();
    d.set_status(Status::DoNotDisturb);
    assert_eq!(d.request_count(), 1);
}

#[test]
fn counter_wraps_at_the_32_bit_bound() {
    let mut d = DeviceState::new();
    d.request_count = u32::MAX;
    let r = d.increment_request_count();
    assert_eq!(r, 0);
}
