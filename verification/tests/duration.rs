use ios::duration::convert_seconds;

#[test]
fn zero_seconds_has_its_own_text() {
    assert_eq!(convert_seconds(0, 1), "0 seconds");
    assert_eq!(convert_seconds(0, 0), "0 seconds");
    assert_eq!(convert_seconds(0, 5), "0 seconds");
}

#[test]
fn single_units_are_singular() {
    assert_eq!(convert_seconds(1, 1), "1 second");
    assert_eq!(convert_seconds(60, 1), "1 minute");
    assert_eq!(convert_seconds(3_600, 1), "1 hour");
    assert_eq!(convert_seconds(86_400, 1), "1 day");
    assert_eq!(convert_seconds(2_592_000, 1), "1 month");
    assert_eq!(convert_seconds(31_536_000, 1), "1 year");
}

#[test]
fn several_of_a_unit_are_plural() {
    assert_eq!(convert_seconds(2, 1), "2 seconds");
    assert_eq!(convert_seconds(59, 1), "59 seconds");
    assert_eq!(convert_seconds(120, 1), "2 minutes");
    assert_eq!(convert_seconds(7_200, 1), "2 hours");
    assert_eq!(convert_seconds(172_800, 1), "2 days");
    assert_eq!(convert_seconds(63_072_000, 1), "2 years");
}

#[test]
fn index_cuts_to_the_largest_units() {
    assert_eq!(convert_seconds(7_500, 1), "2 hours");
    assert_eq!(convert_seconds(7_500, 2), "2 hours and 5 minutes");
    assert_eq!(convert_seconds(7_500, 3), "2 hours and 5 minutes");
    assert_eq!(convert_seconds(7_500, 0), "");
    assert_eq!(convert_seconds(61, 2), "1 minute and 1 second");
    assert_eq!(convert_seconds(61, 9), "1 minute and 1 second");
}

#[test]
fn minutes_and_seconds_stand_only_among_the_first_two() {
    assert_eq!(convert_seconds(90_061, 5), "1 day and 1 hour");
    assert_eq!(convert_seconds(86_461, 5), "1 day and 1 minute");
    assert_eq!(convert_seconds(86_401, 5), "1 day and 1 second");
    assert_eq!(convert_seconds(3_661, 5), "1 hour and 1 minute");
    assert_eq!(
        convert_seconds(31_536_000 + 2_592_000 + 86_400 + 3_600 + 61, 9),
        "1 year and 1 month and 1 day and 1 hour"
    );
}

#[test]
fn a_negative_span_has_no_words() {
    assert_eq!(convert_seconds(-1, 1), "");
    assert_eq!(convert_seconds(-86_400, 2), "");
    assert_eq!(convert_seconds(i64::MIN, 1), "");
}

#[test]
fn the_longest_span_is_counted_in_years() {
    assert_eq!(convert_seconds(i64::MAX, 1), "292471208677 years");
}
