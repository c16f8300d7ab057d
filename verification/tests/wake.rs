use email_cli::clock::{instant_from_epoch, LocalDay, UtcInstant};
use email_cli::wake::{
    local_wake_day, local_wake_plan, parse_i64, parse_wake_spec, parse_wake_time,
    relative_wake_time, snooze_until, wake_time_at, WakeError, WakeSpec, WakeTime,
};

#[test]
fn parse_i64_follows_rust_integer_syntax() {
    assert_eq!(parse_i64("42"), Some(42));
    assert_eq!(parse_i64("+7"), Some(7));
    assert_eq!(parse_i64("-0"), Some(0));
    assert_eq!(parse_i64("-9223372036854775808"), Some(i64::MIN));
    assert_eq!(parse_i64("9223372036854775807"), Some(i64::MAX));
    assert_eq!(parse_i64("9223372036854775808"), None);
    assert_eq!(parse_i64(""), None);
    assert_eq!(parse_i64("-"), None);
    assert_eq!(parse_i64(" 1"), None);
    assert_eq!(parse_i64("1_000"), None);
}

#[test]
fn parse_wake_spec_names() {
    assert_eq!(parse_wake_spec("tonight"), WakeSpec::Tonight);
    assert_eq!(parse_wake_spec("tomorrow"), WakeSpec::Tomorrow);
    assert_eq!(parse_wake_spec("next-week"), WakeSpec::NextWeek);
    assert_eq!(parse_wake_spec("nextweek"), WakeSpec::NextWeek);
}

#[test]
fn parse_wake_spec_relative() {
    assert_eq!(parse_wake_spec("4h"), WakeSpec::Hours(4));
    assert_eq!(parse_wake_spec("-2d"), WakeSpec::Days(-2));
    assert_eq!(parse_wake_spec("+1w"), WakeSpec::Weeks(1));
    assert_eq!(parse_wake_spec("0h"), WakeSpec::Hours(0));
}

#[test]
fn parse_wake_spec_falls_back_to_timestamp() {
    assert_eq!(parse_wake_spec("4hh"), WakeSpec::Timestamp);
    assert_eq!(parse_wake_spec("h"), WakeSpec::Timestamp);
    assert_eq!(parse_wake_spec("4m"), WakeSpec::Timestamp);
    assert_eq!(parse_wake_spec("2024-01-02T03:04:05Z"), WakeSpec::Timestamp);
}

#[test]
fn local_wake_plan_days_and_hours() {
    assert_eq!(local_wake_plan(WakeSpec::Tonight, 3), (0, 19));
    assert_eq!(local_wake_plan(WakeSpec::Tomorrow, 3), (1, 9));
    assert_eq!(local_wake_plan(WakeSpec::NextWeek, 0), (7, 9));
    assert_eq!(local_wake_plan(WakeSpec::NextWeek, 6), (1, 9));
}

#[test]
fn local_wake_day_next_week_is_a_monday() {
    // 1970-01-01 was a Thursday.
    let thursday = LocalDay { ce_day: 719_163, weekday: 3 };
    let monday = local_wake_day(thursday, WakeSpec::NextWeek).unwrap();
    assert_eq!(monday, LocalDay { ce_day: 719_167, weekday: 0 });
    let tomorrow = local_wake_day(thursday, WakeSpec::Tomorrow).unwrap();
    assert_eq!(tomorrow, LocalDay { ce_day: 719_164, weekday: 4 });
    assert_eq!(local_wake_day(thursday, WakeSpec::Tonight), Ok(thursday));
}

#[test]
fn local_wake_day_from_a_monday_skips_a_week() {
    let monday = LocalDay { ce_day: 719_167, weekday: 0 };
    assert_eq!(
        local_wake_day(monday, WakeSpec::NextWeek),
        Ok(LocalDay { ce_day: 719_174, weekday: 0 })
    );
}

#[test]
fn relative_wake_time_adds_the_offset() {
    let now = UtcInstant { secs: 1_000, nanos: 5 };
    assert_eq!(
        relative_wake_time(now, WakeSpec::Hours(2)),
        Ok(UtcInstant { secs: 8_200, nanos: 5 })
    );
    assert_eq!(
        relative_wake_time(now, WakeSpec::Days(-1)),
        Ok(UtcInstant { secs: 1_000 - 86_400, nanos: 5 })
    );
    assert_eq!(
        relative_wake_time(now, WakeSpec::Weeks(1)),
        Ok(UtcInstant { secs: 1_000 + 604_800, nanos: 5 })
    );
}

#[test]
fn relative_wake_time_refuses_huge_offsets() {
    let now = UtcInstant { secs: 0, nanos: 0 };
    assert_eq!(relative_wake_time(now, WakeSpec::Hours(i64::MAX)), Err(WakeError::OutOfRange));
    assert_eq!(
        relative_wake_time(now, WakeSpec::Weeks(100_000_000_000)),
        Err(WakeError::OutOfRange)
    );
}

#[test]
fn parse_wake_time_reads_timestamps() {
    assert_eq!(
        parse_wake_time("2024-01-02T03:04:05Z"),
        Ok(UtcInstant { secs: 1_704_164_645, nanos: 0 })
    );
    assert_eq!(
        parse_wake_time("2024-01-02T05:04:05+02:00"),
        Ok(UtcInstant { secs: 1_704_164_645, nanos: 0 })
    );
}

#[test]
fn parse_wake_time_refuses_garbage() {
    assert_eq!(parse_wake_time("garbage"), Err(WakeError::Unrecognized));
    assert_eq!(parse_wake_time(""), Err(WakeError::Unrecognized));
}

#[test]
fn parse_wake_time_relative_is_from_now() {
    let before = std::time::SystemTime::now()
        .duration_since(std::time::UNIX_EPOCH)
        .unwrap()
        .as_secs() as i64;
    let t = parse_wake_time(" 2H ").unwrap();
    let after = std::time::SystemTime::now()
        .duration_since(std::time::UNIX_EPOCH)
        .unwrap()
        .as_secs() as i64;
    assert!(before + 7_200 <= t.secs && t.secs <= after + 7_200);
}

#[test]
fn parse_wake_time_out_of_range() {
    assert_eq!(parse_wake_time("99999999999999h"), Err(WakeError::OutOfRange));
}

#[test]
fn parse_wake_time_named_phrases_resolve() {
    assert!(parse_wake_time("tomorrow").is_ok());
    assert!(parse_wake_time("NEXT-WEEK").is_ok());
}

#[test]
fn parse_wake_time_reads_timestamps_without_offset_as_utc() {
    assert_eq!(
        parse_wake_time("2024-01-02T03:04:05"),
        Ok(UtcInstant { secs: 1_704_164_645, nanos: 0 })
    );
    assert_eq!(
        parse_wake_time("2024-01-02T03:04:05.5"),
        Ok(UtcInstant { secs: 1_704_164_645, nanos: 500_000_000 })
    );
}

#[test]
fn wake_time_at_resolves_every_phrase() {
    let now = UtcInstant { secs: 1_000, nanos: 5 };
    let thursday = LocalDay { ce_day: 719_163, weekday: 3 };
    assert_eq!(
        wake_time_at(" 4H ", now, thursday),
        Ok(WakeTime::At(UtcInstant { secs: 1_000 + 4 * 3_600, nanos: 5 }))
    );
    assert_eq!(
        wake_time_at("2d", now, thursday),
        Ok(WakeTime::At(UtcInstant { secs: 1_000 + 2 * 86_400, nanos: 5 }))
    );
    assert_eq!(wake_time_at(" TONIGHT ", now, thursday), Ok(WakeTime::LocalHour(thursday, 19)));
    assert_eq!(
        wake_time_at("tomorrow", now, thursday),
        Ok(WakeTime::LocalHour(LocalDay { ce_day: 719_164, weekday: 4 }, 9))
    );
    assert_eq!(
        wake_time_at("nextweek", now, thursday),
        Ok(WakeTime::LocalHour(LocalDay { ce_day: 719_167, weekday: 0 }, 9))
    );
    assert_eq!(
        wake_time_at("2024-01-02T03:04:05Z", now, thursday),
        Ok(WakeTime::At(UtcInstant { secs: 1_704_164_645, nanos: 0 }))
    );
    assert_eq!(wake_time_at("soon", now, thursday), Err(WakeError::Unrecognized));
}

#[test]
fn wake_time_at_refuses_beyond_the_range_of_dates() {
    let last_day = LocalDay { ce_day: 95_745_399, weekday: 0 };
    let now = UtcInstant { secs: 8_210_266_876_799 - 10, nanos: 0 };
    assert_eq!(wake_time_at("tomorrow", now, last_day), Err(WakeError::OutOfRange));
    assert_eq!(wake_time_at("tonight", now, last_day), Ok(WakeTime::LocalHour(last_day, 19)));
    assert_eq!(wake_time_at("1h", now, last_day), Err(WakeError::OutOfRange));
    assert_eq!(
        wake_time_at("1h", UtcInstant { secs: 8_210_266_876_799 - 3_600, nanos: 0 }, last_day),
        Ok(WakeTime::At(UtcInstant { secs: 8_210_266_876_799, nanos: 0 }))
    );
}

#[test]
fn snooze_until_formats_rfc3339() {
    assert_eq!(
        snooze_until("2024-01-02T03:04:05Z"),
        Ok("2024-01-02T03:04:05+00:00".to_string())
    );
    assert_eq!(snooze_until("later"), Err(WakeError::Unrecognized));
    assert!(snooze_until("3h").is_ok());
}

#[test]
fn range_of_dates_edges() {
    let first = -8_334_601_228_800i64;
    assert_eq!(
        relative_wake_time(UtcInstant { secs: first + 3_600, nanos: 0 }, WakeSpec::Hours(-1)),
        Ok(UtcInstant { secs: first, nanos: 0 })
    );
    assert_eq!(
        relative_wake_time(UtcInstant { secs: first + 3_600, nanos: 0 }, WakeSpec::Hours(-2)),
        Err(WakeError::OutOfRange)
    );
    assert_eq!(
        relative_wake_time(UtcInstant { secs: first - 1, nanos: 0 }, WakeSpec::Hours(5)),
        Err(WakeError::OutOfRange)
    );
    assert_eq!(
        local_wake_day(LocalDay { ce_day: 95_745_398, weekday: 6 }, WakeSpec::Tomorrow),
        Ok(LocalDay { ce_day: 95_745_399, weekday: 0 })
    );
    assert_eq!(
        local_wake_day(LocalDay { ce_day: -95_746_130, weekday: 2 }, WakeSpec::Tomorrow),
        Err(WakeError::OutOfRange)
    );
    assert_eq!(
        local_wake_day(LocalDay { ce_day: -95_746_129, weekday: 3 }, WakeSpec::Tomorrow),
        Ok(LocalDay { ce_day: -95_746_128, weekday: 4 })
    );
}

#[test]
fn snooze_until_keeps_a_leap_second() {
    assert_eq!(
        parse_wake_time("2016-12-31T23:59:60Z"),
        Ok(UtcInstant { secs: 1_483_228_799, nanos: 1_000_000_000 })
    );
    assert_eq!(
        snooze_until("2016-12-31T23:59:60Z"),
        Ok("2016-12-31T23:59:60+00:00".to_string())
    );
}

#[test]
fn instant_from_epoch_fits_i64_seconds() {
    assert_eq!(instant_from_epoch(5, 7), Some(UtcInstant { secs: 5, nanos: 7 }));
    assert_eq!(
        instant_from_epoch(9_223_372_036_854_775_807, 0),
        Some(UtcInstant { secs: i64::MAX, nanos: 0 })
    );
    assert_eq!(instant_from_epoch(9_223_372_036_854_775_808, 0), None);
}

#[test]
fn tonight_is_within_a_day_of_now() {
    let now = std::time::SystemTime::now()
        .duration_since(std::time::UNIX_EPOCH)
        .unwrap()
        .as_secs() as i64;
    let t = parse_wake_time("tonight").unwrap();
    assert_eq!(t.nanos, 0);
    assert!((t.secs - now).abs() < 2 * 86_400);
}
