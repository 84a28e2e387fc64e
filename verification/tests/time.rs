use tarsius::time::{Timestamp, MAX_SECONDS, MIN_SECONDS};

#[test]
fn formats_as_rfc3339_in_utc() {
    let t = Timestamp::new(1_705_314_600, 0).unwrap();
    assert_eq!(t.to_rfc3339(), "2024-01-15T10:30:00+00:00");
    assert_eq!(Timestamp::new(0, 0).unwrap().to_rfc3339(), "1970-01-01T00:00:00+00:00");
    assert_eq!(Timestamp::new(-1, 0).unwrap().to_rfc3339(), "1969-12-31T23:59:59+00:00");
}

#[test]
fn formats_fractions_in_groups_of_three_digits() {
    assert_eq!(
        Timestamp::new(1_705_314_600, 250_000_000).unwrap().to_rfc3339(),
        "2024-01-15T10:30:00.250+00:00"
    );
    assert_eq!(
        Timestamp::new(1_705_314_600, 1_000).unwrap().to_rfc3339(),
        "2024-01-15T10:30:00.000001+00:00"
    );
    assert_eq!(
        Timestamp::new(1_705_314_600, 1).unwrap().to_rfc3339(),
        "2024-01-15T10:30:00.000000001+00:00"
    );
}

#[test]
fn parses_and_normalizes_to_utc() {
    let t = Timestamp::parse_from_rfc3339("2024-01-15T10:30:00Z").unwrap();
    assert_eq!(t.unix_seconds(), 1_705_314_600);
    assert_eq!(t.subsec_nanos(), 0);
    let shifted = Timestamp::parse_from_rfc3339("2024-01-15T12:30:00.5+02:00").unwrap();
    assert_eq!(shifted.unix_seconds(), 1_705_314_600);
    assert_eq!(shifted.subsec_nanos(), 500_000_000);
    assert_eq!(shifted.to_rfc3339(), "2024-01-15T10:30:00.500+00:00");
    let west = Timestamp::parse_from_rfc3339("1996-12-19T16:39:57-08:00").unwrap();
    assert_eq!(west.to_rfc3339(), "1996-12-20T00:39:57+00:00");
}

#[test]
fn parse_failures_carry_the_parser_message() {
    assert_eq!(
        Timestamp::parse_from_rfc3339("2024-01-15X10:30:00Z"),
        Err("input contains invalid characters".to_string())
    );
    assert_eq!(Timestamp::parse_from_rfc3339(""), Err("premature end of input".to_string()));
    assert_eq!(
        Timestamp::parse_from_rfc3339("not a date"),
        Err("premature end of input".to_string())
    );
    assert_eq!(
        Timestamp::parse_from_rfc3339("2024-13-01T00:00:00Z"),
        Err("input is out of range".to_string())
    );
    assert_eq!(
        Timestamp::parse_from_rfc3339("2024-01-15T10:30:00Z trailing"),
        Err("trailing input".to_string())
    );
    assert!(Timestamp::parse_from_rfc3339("2024-01-15T10:30:00").is_err());
}

#[test]
fn text_round_trips() {
    for (secs, nanos) in [(0, 0), (1_705_314_600, 123_456_789), (-86_400, 999_999_999), (951_782_400, 1_000_000)] {
        let t = Timestamp::new(secs, nanos).unwrap();
        assert_eq!(Timestamp::parse_from_rfc3339(&t.to_rfc3339()), Ok(t));
    }
}

#[test]
fn leap_seconds_are_kept() {
    let leap = Timestamp::parse_from_rfc3339("2016-12-31T23:59:60Z").unwrap();
    assert_eq!(leap.unix_seconds(), 1_483_228_799);
    assert_eq!(leap.subsec_nanos(), 1_000_000_000);
    assert_eq!(leap.to_rfc3339(), "2016-12-31T23:59:60+00:00");
    assert_eq!(Timestamp::new(1_483_228_799, 1_000_000_000), Some(leap));
    assert_eq!(Timestamp::new(1_483_228_798, 1_000_000_000), None);
    assert_eq!(Timestamp::new(-1, 1_500_000_000).map(|t| t.subsec_nanos()), Some(1_500_000_000));
    assert_eq!(Timestamp::new(-2, 1_500_000_000), None);
    assert_eq!(Timestamp::new(59, 1_999_999_999).map(|t| t.unix_seconds()), Some(59));
    assert_eq!(Timestamp::new(59, 2_000_000_000), None);
}

#[test]
fn representable_range_is_that_of_the_calendar() {
    assert!(Timestamp::new(MIN_SECONDS, 0).is_some());
    assert!(Timestamp::new(MIN_SECONDS - 1, 0).is_none());
    assert!(Timestamp::new(MAX_SECONDS, 999_999_999).is_some());
    assert!(Timestamp::new(MAX_SECONDS, 1_999_999_999).is_some());
    assert!(Timestamp::new(MAX_SECONDS + 1, 0).is_none());
    assert!(Timestamp::new(i64::MAX, 0).is_none());
    assert!(Timestamp::new(i64::MIN, 0).is_none());
    assert_eq!(chrono::DateTime::<chrono::Utc>::MIN_UTC.timestamp(), MIN_SECONDS);
    assert_eq!(chrono::DateTime::<chrono::Utc>::MAX_UTC.timestamp(), MAX_SECONDS);
    assert!(chrono::DateTime::from_timestamp(MIN_SECONDS, 0).is_some());
    assert!(chrono::DateTime::from_timestamp(MIN_SECONDS - 1, 0).is_none());
    assert!(chrono::DateTime::from_timestamp(MAX_SECONDS, 1_999_999_999).is_some());
    assert!(chrono::DateTime::from_timestamp(MAX_SECONDS + 1, 0).is_none());
}

#[test]
fn extreme_instants_format_without_failing() {
    assert_eq!(
        Timestamp::new(MIN_SECONDS, 0).unwrap().to_rfc3339(),
        "-262143-01-01T00:00:00+00:00"
    );
    assert_eq!(
        Timestamp::new(MAX_SECONDS, 0).unwrap().to_rfc3339(),
        "+262142-12-31T23:59:59+00:00"
    );
}

#[test]
fn now_is_after_the_year_2020_and_ordered() {
    let first = Timestamp::now();
    let second = Timestamp::now();
    assert!(first.unix_seconds() > 1_577_836_800);
    assert!(first.subsec_nanos() < 1_000_000_000);
    assert!(
        (second.unix_seconds(), second.subsec_nanos()) >= (first.unix_seconds(), first.subsec_nanos())
    );
    assert_eq!(Timestamp::new(first.unix_seconds(), first.subsec_nanos()), Some(first));
}
