use stratum_v1::timestamp::Timestamp;

#[test]
fn stamp_is_zero_when_off() {
    assert_eq!(Timestamp::stamp(false, Some(1_600_000_000)), 0);
    assert_eq!(Timestamp::stamp(true, None), 0);
    assert_eq!(Timestamp::stamp(true, Some(1_600_000_000)), 1_600_000_000);
    assert_eq!(Timestamp::stamp(true, Some(0x1_0000_0005)), 5);
}

#[test]
fn disabled_flag_gives_zero() {
    let t = Timestamp::new();
    assert!(t.get() > 0);
    t.enable(false);
    assert_eq!(t.get(), 0);
    t.enable(true);
    assert!(t.get() > 0);
}
