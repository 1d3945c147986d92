use minui::clock::validate::{Field, adjust, days_in_month, display_hour, field_at, is_leap_year, move_cursor, option_count, validate};

#[test]
fn leap_year_2024_feb_has_29_days() {
    assert!(is_leap_year(2024));
    assert_eq!(days_in_month(2024, 2), 29);
}

#[test]
fn non_leap_year_2023_feb_has_28_days() {
    assert!(!is_leap_year(2023));
    assert_eq!(days_in_month(2023, 2), 28);
}

#[test]
fn century_year_1900_not_leap_2000_leap() {
    assert!(!is_leap_year(1900), "整百非 400 倍数不是闰年");
    assert!(is_leap_year(2000), "400 倍数是闰年");
}

#[test]
fn month_wraps_above_12() {
    assert_eq!(validate((2024, 13, 1, 0, 0, 0)).1, 1);
}

#[test]
fn month_wraps_below_1() {
    assert_eq!(validate((2024, 0, 1, 0, 0, 0)).1, 12);
}

#[test]
fn day_wraps_by_leap_feb() {
    assert_eq!(validate((2024, 2, 30, 0, 0, 0)).2, 1);
}

#[test]
fn day_wraps_by_non_leap_feb() {
    assert_eq!(validate((2023, 2, 29, 0, 0, 0)).2, 1);
}

#[test]
fn day_wraps_by_30_day_month() {
    assert_eq!(validate((2024, 4, 31, 0, 0, 0)).2, 1);
}

#[test]
fn day_wraps_by_31_day_month() {
    assert_eq!(validate((2024, 1, 32, 0, 0, 0)).2, 1);
}

#[test]
fn day_wraps_below_1() {
    assert_eq!(validate((2024, 1, 0, 0, 0, 0)).2, 31);
}

#[test]
fn hour_wraps_above_23() {
    assert_eq!(validate((2024, 1, 1, 24, 0, 0)).3, 0);
}

#[test]
fn hour_wraps_below_0() {
    assert_eq!(validate((2024, 1, 1, -1, 0, 0)).3, 23);
}

#[test]
fn minute_wraps_above_59() {
    assert_eq!(validate((2024, 1, 1, 0, 60, 0)).4, 0);
}

#[test]
fn second_wraps_below_0() {
    assert_eq!(validate((2024, 1, 1, 0, 0, -1)).5, 59);
}

#[test]
fn year_clamps_above_2100() {
    assert_eq!(validate((2101, 1, 1, 0, 0, 0)).0, 2100);
}

#[test]
fn year_clamps_below_1970() {
    assert_eq!(validate((1969, 1, 1, 0, 0, 0)).0, 1970);
}

#[test]
fn adjust_year_plus_one() {
    assert_eq!(adjust(Field::Year, 1, (2024, 1, 1, 0, 0, 0)).0, 2025);
}

#[test]
fn adjust_hour_minus_one() {
    assert_eq!(adjust(Field::Hour, -1, (2024, 1, 1, 9, 0, 0)).3, 8);
}

#[test]
fn adjust_ampm_toggles_am_to_pm() {
    assert_eq!(adjust(Field::Ampm, 1, (2024, 1, 1, 9, 0, 0)).3, 21);
}

#[test]
fn adjust_ampm_toggles_pm_to_am() {
    assert_eq!(adjust(Field::Ampm, -1, (2024, 1, 1, 21, 0, 0)).3, 9);
}

#[test]
fn cursor_wraps_from_last_to_first_24h() {
    assert_eq!(move_cursor(5, 1, true), 0);
}

#[test]
fn cursor_wraps_from_first_to_last_24h() {
    assert_eq!(move_cursor(0, -1, true), 5);
}

#[test]
fn cursor_wraps_from_last_to_first_12h() {
    assert_eq!(move_cursor(6, 1, false), 0);
}

#[test]
fn cursor_wraps_ampm_removed_in_24h() {
    assert_eq!(option_count(true), 6);
    assert_eq!(option_count(false), 7);
}

#[test]
fn field_at_maps_indices() {
    assert_eq!(field_at(0), Field::Year);
    assert_eq!(field_at(3), Field::Hour);
    assert_eq!(field_at(6), Field::Ampm);
}

#[test]
fn display_hour_zero_becomes_twelve() {
    assert_eq!(display_hour(0), 12);
}

#[test]
fn display_hour_13_becomes_1() {
    assert_eq!(display_hour(13), 1);
}

#[test]
fn display_hour_9_stays_9() {
    assert_eq!(display_hour(9), 9);
}

#[test]
fn display_hour_23_becomes_11() {
    assert_eq!(display_hour(23), 11);
}

#[test]
fn display_hour_12_stays_12() {
    assert_eq!(display_hour(12), 12);
}

#[test]
fn field_past_the_last_falls_back_to_year() {
    assert_eq!(field_at(7), Field::Year);
    assert_eq!(field_at(u32::MAX), Field::Year);
}
