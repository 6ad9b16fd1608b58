use rtc::{calendar_to_raw, raw_to_calendar, RtcError, RtcTime};

fn tm(year: u32, month: u8, day: u8, hour: u8, minute: u8, second: u8) -> RtcTime {
    RtcTime { year, month, day, hour, minute, second }
}

#[test]
fn epoch_shows_at_utc_plus_eight() {
    assert_eq!(raw_to_calendar(0), tm(1970, 1, 1, 8, 0, 0));
}

#[test]
fn timestamp_to_calendar() {
    assert_eq!(raw_to_calendar(1_700_000_000_123_456_789), tm(2023, 11, 15, 6, 13, 20));
}

#[test]
fn calendar_to_timestamp() {
    assert_eq!(calendar_to_raw(&tm(2001, 1, 1, 0, 0, 0)), Ok(978_307_200_000_000_000));
    assert_eq!(calendar_to_raw(&tm(2024, 2, 29, 0, 0, 0)), Ok(1_709_164_800_000_000_000));
    assert_eq!(calendar_to_raw(&tm(1970, 1, 1, 0, 0, 0)), Ok(0));
}

#[test]
fn calendar_rejects_impossible_fields() {
    assert_eq!(calendar_to_raw(&tm(2023, 2, 29, 0, 0, 0)), Err(RtcError::InvalidDateTime));
    assert_eq!(calendar_to_raw(&tm(2024, 13, 1, 0, 0, 0)), Err(RtcError::InvalidDateTime));
    assert_eq!(calendar_to_raw(&tm(2024, 0, 1, 0, 0, 0)), Err(RtcError::InvalidDateTime));
    assert_eq!(calendar_to_raw(&tm(2024, 4, 31, 0, 0, 0)), Err(RtcError::InvalidDateTime));
    assert_eq!(calendar_to_raw(&tm(2024, 1, 0, 0, 0, 0)), Err(RtcError::InvalidDateTime));
    assert_eq!(calendar_to_raw(&tm(2024, 1, 1, 24, 0, 0)), Err(RtcError::InvalidDateTime));
    assert_eq!(calendar_to_raw(&tm(2024, 1, 1, 0, 60, 0)), Err(RtcError::InvalidDateTime));
    assert_eq!(calendar_to_raw(&tm(2024, 1, 1, 0, 0, 60)), Err(RtcError::InvalidDateTime));
    assert_eq!(calendar_to_raw(&tm(0, 1, 1, 0, 0, 0)), Err(RtcError::InvalidDateTime));
    assert_eq!(calendar_to_raw(&tm(10000, 1, 1, 0, 0, 0)), Err(RtcError::InvalidDateTime));
}

#[test]
fn calendar_outside_u64_range() {
    assert_eq!(calendar_to_raw(&tm(1969, 12, 31, 23, 59, 59)), Err(RtcError::TimestampOutOfRange));
    assert_eq!(calendar_to_raw(&tm(2600, 1, 1, 0, 0, 0)), Err(RtcError::TimestampOutOfRange));
}

#[test]
fn round_trip_keeps_seconds_and_adds_offset() {
    let t: u64 = 1_700_000_000_123_456_789;
    let back = calendar_to_raw(&raw_to_calendar(t)).unwrap();
    assert_eq!(back, (1_700_000_000 + 28_800) * 1_000_000_000);
}

#[test]
fn round_trip_of_whole_second() {
    let t: u64 = 978_307_200_000_000_000;
    assert_eq!(calendar_to_raw(&raw_to_calendar(t)), Ok(t + 28_800_000_000_000));
}

#[test]
fn rtc_time_new_sets_fields() {
    assert_eq!(RtcTime::new(2099, 12, 31, 23, 59, 58), tm(2099, 12, 31, 23, 59, 58));
}
