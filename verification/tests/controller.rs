use photon_count_adjuster::controller::{apply_notice, query, Unsupported};
use photon_count_adjuster::monitor::{BrightnessReading, RawBrightness};

fn raw(ok: bool, minimum: u32, current: u32, maximum: u32) -> RawBrightness {
    RawBrightness { ok, minimum, current, maximum }
}

#[test]
fn query_success_returns_reading() {
    let r = query(raw(true, 10, 40, 90));
    assert_eq!(r, Ok(BrightnessReading { minimum: 10, current: 40, maximum: 90 }));
}

#[test]
fn query_success_reading_is_ordered() {
    let r = query(raw(true, 0, 100, 100)).unwrap();
    assert!(r.minimum <= r.current && r.current <= r.maximum);
}

#[test]
fn query_failure_sentinel_is_unsupported() {
    assert_eq!(query(raw(false, 0, 50, 100)), Err(Unsupported));
}

#[test]
fn query_inconsistent_triple_is_unsupported() {
    assert_eq!(query(raw(true, 50, 40, 100)), Err(Unsupported));
    assert_eq!(query(raw(true, 0, 120, 100)), Err(Unsupported));
}

#[test]
fn apply_failure_earns_notice() {
    assert!(apply_notice(false));
}

#[test]
fn apply_success_earns_no_notice() {
    assert!(!apply_notice(true));
}
