use quebar::sampler::{format_battery, sampler_cycle};
use quebar::textfmt::{dec_string, format_date, format_time, two_digit_string};

#[test]
fn dec_string_single_digit() {
    assert_eq!(dec_string(0), "0");
    assert_eq!(dec_string(7), "7");
}

#[test]
fn dec_string_multi_digit() {
    assert_eq!(dec_string(87), "87");
    assert_eq!(dec_string(100), "100");
    assert_eq!(dec_string(4294967295), "4294967295");
}

#[test]
fn two_digit_pads() {
    assert_eq!(two_digit_string(7), "07");
    assert_eq!(two_digit_string(0), "00");
    assert_eq!(two_digit_string(42), "42");
}

#[test]
fn time_string_pads_both_fields() {
    assert_eq!(format_time(5, 3), "05:03");
    assert_eq!(format_time(23, 59), "23:59");
    assert_eq!(format_time(0, 0), "00:00");
}

#[test]
fn date_string_is_mm_dd_yyyy() {
    assert_eq!(format_date(10, 7, 2026), "10/07/2026");
    assert_eq!(format_date(1, 2, 33), "01/02/0033");
    assert_eq!(format_date(12, 31, 0), "12/31/0000");
}

#[test]
fn battery_string_has_percent_sign() {
    assert_eq!(format_battery(87), "87%");
    assert_eq!(format_battery(0), "0%");
    assert_eq!(format_battery(100), "100%");
}

#[test]
fn sampler_skips_missing_battery() {
    assert_eq!(sampler_cycle(None), None);
}

#[test]
fn sampler_formats_reading() {
    assert_eq!(sampler_cycle(Some(55)), Some("55%".to_string()));
}
