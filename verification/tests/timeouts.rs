use sysrepo::TimeSpan;

#[test]
fn fifteen_hundred_millis_cross_as_fifteen_hundred() {
    let t = TimeSpan::from_millis(1500);
    assert_eq!(t.to_engine_millis(), 1500);
}

#[test]
fn zero_crosses_as_engine_default_sentinel() {
    let t = TimeSpan::zero();
    assert_eq!(t.to_engine_millis(), 0);
}

#[test]
fn sub_millisecond_fractions_truncate() {
    let t = TimeSpan::new(1, 999_999);
    assert_eq!(t.to_engine_millis(), 1000);
    let t = TimeSpan::new(0, 1_000_000);
    assert_eq!(t.to_engine_millis(), 1);
    let t = TimeSpan::new(0, 999_999);
    assert_eq!(t.to_engine_millis(), 0);
}

#[test]
fn overlong_timeout_truncates_into_the_field() {
    // 4_294_967 s + 296 ms is exactly 2^32 ms, which wraps to zero in the
    // engine's 32-bit field.
    let t = TimeSpan::new(4_294_967, 296_000_000);
    assert_eq!(t.to_engine_millis(), 0);
    let t = TimeSpan::new(4_294_967, 297_000_000);
    assert_eq!(t.to_engine_millis(), 1);
}

#[test]
fn absent_timeout_means_do_not_wait() {
    assert_eq!(sysrepo::optional_timeout_to_engine(&None), (0, false));
}

#[test]
fn present_timeout_means_wait() {
    let t = TimeSpan::from_millis(1500);
    assert_eq!(sysrepo::optional_timeout_to_engine(&Some(t)), (1500, true));
    // Even a present zero timeout waits, deferring to the engine's default.
    assert_eq!(
        sysrepo::optional_timeout_to_engine(&Some(TimeSpan::zero())),
        (0, true)
    );
}
