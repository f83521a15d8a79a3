use epic_data::datetime::{
    offset_seconds, parse_custom_timestamp, parse_i32_text, ScaledTimeValue, TimeError,
    TimeSpanScale, TimestampTextError, UtcTimestamp, MAX_TIMESTAMP, MIN_TIMESTAMP,
};

fn scaled(value: i64, scale: TimeSpanScale) -> ScaledTimeValue {
    ScaledTimeValue { value, scale }
}

fn secs_of(v: ScaledTimeValue) -> Result<i64, TimeError> {
    v.decode().map(|t| t.epoch_seconds())
}

#[test]
fn minmax_sentinels_decode_to_bounds() {
    assert_eq!(secs_of(scaled(-1, TimeSpanScale::Minmax)), Ok(MIN_TIMESTAMP));
    assert_eq!(secs_of(scaled(1, TimeSpanScale::Minmax)), Ok(MAX_TIMESTAMP));
    assert_eq!(secs_of(scaled(0, TimeSpanScale::Minmax)), Err(TimeError::InvalidScaledValue));
    assert_eq!(secs_of(scaled(2, TimeSpanScale::Minmax)), Err(TimeError::InvalidScaledValue));
}

#[test]
fn scales_multiply_or_truncate() {
    assert_eq!(secs_of(scaled(7, TimeSpanScale::Seconds)), Ok(7));
    assert_eq!(secs_of(scaled(2, TimeSpanScale::Minutes)), Ok(120));
    assert_eq!(secs_of(scaled(3, TimeSpanScale::Hours)), Ok(10800));
    assert_eq!(secs_of(scaled(-2, TimeSpanScale::Days)), Ok(-172800));
    assert_eq!(secs_of(scaled(1999, TimeSpanScale::Milliseconds)), Ok(1));
    assert_eq!(secs_of(scaled(-1999, TimeSpanScale::Milliseconds)), Ok(-1));
    assert_eq!(secs_of(scaled(25_000_000, TimeSpanScale::Ticks)), Ok(2));
    assert_eq!(secs_of(scaled(-25_000_000, TimeSpanScale::Ticks)), Ok(-2));
}

#[test]
fn out_of_range_seconds_are_refused() {
    assert_eq!(secs_of(scaled(MAX_TIMESTAMP + 1, TimeSpanScale::Seconds)), Err(TimeError::OutOfRangeInstant));
    assert_eq!(secs_of(scaled(MIN_TIMESTAMP - 1, TimeSpanScale::Seconds)), Err(TimeError::OutOfRangeInstant));
    assert_eq!(secs_of(scaled(i64::MAX, TimeSpanScale::Days)), Err(TimeError::OutOfRangeInstant));
    assert_eq!(secs_of(scaled(i64::MIN, TimeSpanScale::Minutes)), Err(TimeError::OutOfRangeInstant));
}

#[test]
fn timestamp_bounds_follow_chrono() {
    assert!(UtcTimestamp::from_epoch_seconds(MIN_TIMESTAMP).is_some());
    assert!(UtcTimestamp::from_epoch_seconds(MAX_TIMESTAMP).is_some());
    assert!(UtcTimestamp::from_epoch_seconds(MIN_TIMESTAMP - 1).is_none());
    assert!(UtcTimestamp::from_epoch_seconds(MAX_TIMESTAMP + 1).is_none());
    assert_eq!(UtcTimestamp::from_epoch_seconds(1431648000).unwrap().epoch_seconds(), 1431648000);
}

#[test]
fn encode_picks_most_compact_scale() {
    let enc = |s: i64| ScaledTimeValue::encode(&UtcTimestamp::from_epoch_seconds(s).unwrap());
    assert_eq!(enc(MIN_TIMESTAMP), scaled(-1, TimeSpanScale::Minmax));
    assert_eq!(enc(MAX_TIMESTAMP), scaled(1, TimeSpanScale::Minmax));
    assert_eq!(enc(0), scaled(0, TimeSpanScale::Days));
    assert_eq!(enc(172800), scaled(2, TimeSpanScale::Days));
    assert_eq!(enc(7200), scaled(2, TimeSpanScale::Hours));
    assert_eq!(enc(-180), scaled(-3, TimeSpanScale::Minutes));
    assert_eq!(enc(61), scaled(61, TimeSpanScale::Seconds));
    assert_eq!(enc(-61), scaled(-61, TimeSpanScale::Seconds));
}

#[test]
fn time_round_trip_on_samples() {
    for s in [0, 1, -1, 59, 60, 3599, 3600, 86399, 86400, 1431648000, -1431648001,
              MIN_TIMESTAMP, MIN_TIMESTAMP + 1, MAX_TIMESTAMP, MAX_TIMESTAMP - 1] {
        let t = UtcTimestamp::from_epoch_seconds(s).unwrap();
        assert_eq!(secs_of(ScaledTimeValue::encode(&t)), Ok(s));
    }
}

#[test]
fn timestamp_text_is_read_as_utc() {
    let t = parse_custom_timestamp("2015-05-15T00:00:00+00:00").unwrap();
    assert_eq!(t.epoch_seconds(), 1431648000);
    let shifted = parse_custom_timestamp("2015-05-15T00:00:00+05:30").unwrap();
    assert_eq!(shifted.epoch_seconds(), 1431648000);
    assert_eq!(parse_custom_timestamp("1969-12-31T23:59:59+23:59").unwrap().epoch_seconds(), -1);
}

#[test]
fn timestamp_text_errors() {
    assert_eq!(parse_custom_timestamp("2015-05-15T00:00:00").err(), Some(TimestampTextError::MissingOffset));
    assert_eq!(parse_custom_timestamp("yesterday+00:00").err(), Some(TimestampTextError::InvalidDate));
    assert_eq!(parse_custom_timestamp("2015-05-15T00:00:00+xx").err(), Some(TimestampTextError::InvalidOffset));
    assert_eq!(parse_custom_timestamp("2015-05-15T00:00:00+24:00").err(), Some(TimestampTextError::InvalidOffset));
    assert_eq!(parse_custom_timestamp("2015-05-15T00:00:00+").err(), Some(TimestampTextError::InvalidOffset));
}

#[test]
fn timestamp_renders_as_rfc3339() {
    let t = UtcTimestamp::from_epoch_seconds(1431648000).unwrap();
    assert_eq!(t.to_rfc3339(), "2015-05-15T00:00:00+00:00");
    let back = parse_custom_timestamp(&t.to_rfc3339()).unwrap();
    assert_eq!(back.epoch_seconds(), 1431648000);
}

#[test]
fn integers_parse_like_rust() {
    assert_eq!(parse_i32_text("42"), Some(42));
    assert_eq!(parse_i32_text("-7"), Some(-7));
    assert_eq!(parse_i32_text("+5"), Some(5));
    assert_eq!(parse_i32_text("0012"), Some(12));
    assert_eq!(parse_i32_text("2147483647"), Some(i32::MAX));
    assert_eq!(parse_i32_text("-2147483648"), Some(i32::MIN));
    assert_eq!(parse_i32_text("2147483648"), None);
    assert_eq!(parse_i32_text("99999999999999999999"), None);
    assert_eq!(parse_i32_text(""), None);
    assert_eq!(parse_i32_text("-"), None);
    assert_eq!(parse_i32_text("1a"), None);
    for s in ["0", "-0", "+0", "123", "-2147483647", "007", " 1", "1 ", "--1", "+-1", "٣"] {
        assert_eq!(parse_i32_text(s), s.parse::<i32>().ok(), "{}", s);
    }
}

#[test]
fn offsets_sum_hours_then_minutes() {
    assert_eq!(offset_seconds("05:30"), Some(19800));
    assert_eq!(offset_seconds("00:00"), Some(0));
    assert_eq!(offset_seconds("1:2:3"), Some(3900));
    assert_eq!(offset_seconds("-01:30"), Some(-1800));
    assert_eq!(offset_seconds("7"), Some(25200));
    assert_eq!(offset_seconds(""), None);
    assert_eq!(offset_seconds("05:"), None);
    assert_eq!(offset_seconds("1000000:00"), None);
}
