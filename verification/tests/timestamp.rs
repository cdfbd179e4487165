use monzo::timestamp::Timestamp;

#[test]
fn epoch_renders_with_z_suffix() {
    let epoch = Timestamp::from_unix(0, 0).unwrap();
    assert_eq!(epoch.to_rfc3339(), "1970-01-01T00:00:00Z");
}

#[test]
fn start_of_2023_renders_in_rfc3339() {
    let instant = Timestamp::from_unix(1_672_531_200, 0).unwrap();
    assert_eq!(instant.to_rfc3339(), "2023-01-01T00:00:00Z");
}

#[test]
fn instant_before_the_epoch_renders() {
    let instant = Timestamp::from_unix(-1, 0).unwrap();
    assert_eq!(instant.to_rfc3339(), "1969-12-31T23:59:59Z");
}

#[test]
fn fraction_takes_as_many_digits_as_it_needs() {
    let millis = Timestamp::from_unix(1_431_648_000, 453_000_000).unwrap();
    assert_eq!(millis.to_rfc3339(), "2015-05-15T00:00:00.453Z");
    let micros = Timestamp::from_unix(1_431_648_000, 453_829_000).unwrap();
    assert_eq!(micros.to_rfc3339(), "2015-05-15T00:00:00.453829Z");
    let nanos = Timestamp::from_unix(1_431_648_000, 453_829_001).unwrap();
    assert_eq!(nanos.to_rfc3339(), "2015-05-15T00:00:00.453829001Z");
}

#[test]
fn timestamp_keeps_its_numbers() {
    let instant = Timestamp::from_unix(1_672_531_200, 250_000_000).unwrap();
    assert_eq!(instant.seconds(), 1_672_531_200);
    assert_eq!(instant.nanos(), 250_000_000);
}

#[test]
fn nanos_beyond_two_seconds_are_refused() {
    assert_eq!(Timestamp::from_unix(0, 2_000_000_000), None);
}

#[test]
fn leap_second_only_at_the_end_of_a_minute() {
    assert!(Timestamp::from_unix(59, 1_500_000_000).is_some());
    assert_eq!(Timestamp::from_unix(58, 1_500_000_000), None);
}

#[test]
fn seconds_beyond_the_calendar_are_refused() {
    assert_eq!(Timestamp::from_unix(i64::MAX, 0), None);
    assert_eq!(Timestamp::from_unix(i64::MIN, 0), None);
}

#[test]
fn equal_numbers_make_equal_timestamps() {
    let a = Timestamp::from_unix(1_672_531_200, 0).unwrap();
    let b = Timestamp::from_unix(1_672_531_200, 0).unwrap();
    let c = Timestamp::from_unix(1_672_531_201, 0).unwrap();
    assert_eq!(a, b);
    assert_ne!(a, c);
}
