use trading_system::time::{
    decimal_string, local_date_to_timestamp_ms, local_str_to_time, micros_of, millis_of, nanos_of, now_micros,
    now_millis, now_nanos, now_secs, time_to_local_str, try_time_to_local_str, utc_str_to_time,
};

#[test]
fn utc_reading() {
    assert_eq!(utc_str_to_time("2023-10-30 00:00:00.000", None), Some(1698624000000));
    assert_eq!(utc_str_to_time("1970-01-01 00:00:01.500", None), Some(1500));
    assert_eq!(utc_str_to_time("20231030", Some("%Y%m%d %H")), None);
    assert_eq!(utc_str_to_time("not a date", None), None);
}

#[test]
fn local_reading_is_utc_minus_eight_hours() {
    assert_eq!(local_str_to_time("2023-10-30 00:00:00.000", None), Some(1698595200000));
    assert_eq!(local_str_to_time("1970-01-01 08:00:00.000", None), Some(0));
    assert_eq!(local_str_to_time("garbage", None), None);
}

#[test]
fn local_date_to_timestamp() {
    assert_eq!(local_date_to_timestamp_ms(20231030), Some(1698595200000));
    assert_eq!(local_date_to_timestamp_ms(19700101), Some(-28800000));
    assert_eq!(local_date_to_timestamp_ms(20231332), None);
    assert_eq!(local_date_to_timestamp_ms(-5), None);
}

#[test]
fn decimal_strings() {
    assert_eq!(decimal_string(0), "0");
    assert_eq!(decimal_string(20231030), "20231030");
    assert_eq!(decimal_string(-7), "-7");
    assert_eq!(decimal_string(i32::MIN), "-2147483648");
    assert_eq!(decimal_string(i32::MAX), "2147483647");
}

#[test]
fn formatting_local_time() {
    assert_eq!(time_to_local_str(0, None), "1970-01-01 08:00:00.000");
    assert_eq!(time_to_local_str(1698595200000, Some("%Y%m%d")), "20231030");
    assert_eq!(try_time_to_local_str(0, Some("%H:%M")), Some("08:00".to_string()));
}

#[test]
fn formatting_refuses_bad_format() {
    assert_eq!(try_time_to_local_str(0, Some("%Q")), None);
}

#[test]
fn duration_conversions() {
    assert_eq!(nanos_of(1, 5), 1_000_000_005);
    assert_eq!(micros_of(1, 5_999), 1_000_005);
    assert_eq!(millis_of(2, 999_999_999), 2_999);
    assert_eq!(nanos_of(u64::MAX, 0), 18446744072709551616u64);
    assert_eq!(micros_of(u64::MAX, 0), 18446744073708551616u64);
}

#[test]
fn clock_readings_are_consistent() {
    let secs = now_secs().unwrap();
    let millis = now_millis().unwrap();
    let micros = now_micros().unwrap();
    let nanos = now_nanos().unwrap();
    assert!(millis / 1_000 >= secs);
    assert!(micros / 1_000 >= millis);
    assert!(nanos / 1_000 >= micros);
}

#[test]
fn duration_units_agree_on_values() {
    for (secs, nanos) in [(0u64, 0u32), (1, 999_999_999), (1_698_624_000, 123_456_789)] {
        assert_eq!(millis_of(secs, nanos), nanos_of(secs, nanos) / 1_000_000);
        assert_eq!(micros_of(secs, nanos), nanos_of(secs, nanos) / 1_000);
    }
}

#[test]
fn local_and_utc_readings_differ_by_offset() {
    let text = "2024-02-29 12:34:56.789";
    assert_eq!(local_str_to_time(text, None).unwrap(), utc_str_to_time(text, None).unwrap() - 8 * 3_600_000);
}

#[test]
fn local_text_reads_back_as_the_timestamp() {
    for tm in [0u64, 1, 999, 1_698_624_000_123, 253_402_271_999_999] {
        let text = try_time_to_local_str(tm, None).expect("in range");
        assert_eq!(local_str_to_time(&text, None), Some(tm as i64));
        assert_eq!(time_to_local_str(tm, None), text);
    }
    assert_eq!(time_to_local_str(253_402_271_999_999, None), "9999-12-31 23:59:59.999");
}
