use lingo_export::cell::{get_cell_string, is_serial_date, clock_string, Cell, CellError};
use lingo_export::text::{decimal_string, two_digit_string, count_string, digits_string};

fn number(whole: i64, fractional: bool, rounded: &str, plain: &str) -> Cell {
    Cell::Number {
        whole,
        fractional,
        rounded: String::from(rounded),
        plain: String::from(plain),
    }
}

#[test]
fn text_passes_unchanged() {
    assert_eq!(get_cell_string(&Cell::Text(String::from(" Hello {name} "))), " Hello {name} ");
    assert_eq!(get_cell_string(&Cell::Text(String::new())), "");
}

#[test]
fn empty_cell_is_empty_text() {
    assert_eq!(get_cell_string(&Cell::Empty), "");
}

#[test]
fn booleans_are_lower_case_words() {
    assert_eq!(get_cell_string(&Cell::Bool(true)), "true");
    assert_eq!(get_cell_string(&Cell::Bool(false)), "false");
}

#[test]
fn integers_are_decimal() {
    assert_eq!(get_cell_string(&Cell::Int(0)), "0");
    assert_eq!(get_cell_string(&Cell::Int(7)), "7");
    assert_eq!(get_cell_string(&Cell::Int(1234567)), "1234567");
    assert_eq!(get_cell_string(&Cell::Int(-42)), "-42");
    assert_eq!(get_cell_string(&Cell::Int(i64::MAX)), "9223372036854775807");
    assert_eq!(get_cell_string(&Cell::Int(i64::MIN)), "-9223372036854775808");
}

#[test]
fn decimal_matches_std_formatting() {
    for n in [0i64, 1, 9, 10, 11, 99, 100, 101, 1000, 65535, -1, -9, -10, -100, 4611686018427387904] {
        assert_eq!(decimal_string(n), n.to_string());
    }
    for n in [0u64, 5, 10, 18446744073709551615] {
        assert_eq!(digits_string(n), n.to_string());
    }
    assert_eq!(count_string(120), "120");
}

#[test]
fn two_digit_pads_single_digits_only() {
    assert_eq!(two_digit_string(0), "00");
    assert_eq!(two_digit_string(5), "05");
    assert_eq!(two_digit_string(9), "09");
    assert_eq!(two_digit_string(10), "10");
    assert_eq!(two_digit_string(123), "123");
    assert_eq!(two_digit_string(-5), "-5");
    assert_eq!(two_digit_string(-12), "-12");
    for n in [-100i64, -10, -9, -1, 0, 1, 9, 10, 99, 100] {
        assert_eq!(two_digit_string(n), format!("{:02}", n));
    }
}

#[test]
fn numbers_in_the_date_range_become_dates() {
    assert_eq!(get_cell_string(&number(45000, false, "45000", "45000")), "2023-03-15");
    assert_eq!(get_cell_string(&number(45000, true, "45001", "45000.75")), "2023-03-15");
    assert_eq!(get_cell_string(&number(30001, false, "30001", "30001")), "1982-02-19");
    assert_eq!(get_cell_string(&number(69999, true, "70000", "69999.9")), "2091-08-24");
}

#[test]
fn date_range_bounds_are_exclusive() {
    assert_eq!(get_cell_string(&number(30000, false, "30000", "30000")), "30000");
    assert_eq!(get_cell_string(&number(30000, true, "30000", "30000.5")), "1982-02-18");
    assert_eq!(get_cell_string(&number(70000, false, "70000", "70000")), "70000");
    assert_eq!(get_cell_string(&number(70000, true, "70000", "70000.25")), "70000.25");
    assert!(!is_serial_date(30000, false));
    assert!(is_serial_date(30000, true));
    assert!(is_serial_date(69999, true));
    assert!(!is_serial_date(70000, false));
    assert!(!is_serial_date(-45000, false));
}

#[test]
fn numbers_outside_the_date_range() {
    assert_eq!(get_cell_string(&number(5, false, "5", "5")), "5");
    assert_eq!(get_cell_string(&number(1, true, "2", "1.5")), "1.5");
    assert_eq!(get_cell_string(&number(-3, false, "-3", "-3")), "-3");
    assert_eq!(get_cell_string(&number(0, true, "NaN", "NaN")), "NaN");
}

#[test]
fn date_times_count_from_the_epoch() {
    assert_eq!(
        get_cell_string(&Cell::DateTime { days: 45000, seconds: 3661 }),
        "2023-03-15 01:01:01"
    );
    assert_eq!(get_cell_string(&Cell::DateTime { days: 0, seconds: 0 }), "1899-12-30 00:00:00");
    assert_eq!(get_cell_string(&Cell::DateTime { days: 1, seconds: 43200 }), "1899-12-31 12:00:00");
    assert_eq!(
        get_cell_string(&Cell::DateTime { days: -1, seconds: -1 }),
        "1899-12-28 23:59:59"
    );
}

#[test]
fn date_time_limits_are_accepted() {
    let far = Cell::DateTime { days: 95_000_000, seconds: 86_400 };
    assert!(far.is_wf());
    assert!(!get_cell_string(&far).is_empty());
    let back = Cell::DateTime { days: -95_000_000, seconds: -86_400 };
    assert!(back.is_wf());
    assert!(!get_cell_string(&back).is_empty());
    assert!(!Cell::DateTime { days: 95_000_001, seconds: 0 }.is_wf());
    assert!(!Cell::DateTime { days: 0, seconds: 86_401 }.is_wf());
    assert!(Cell::Int(i64::MAX).is_wf());
}

#[test]
fn durations_are_clock_text() {
    assert_eq!(get_cell_string(&Cell::Duration { seconds: 3661 }), "01:01:01");
    assert_eq!(get_cell_string(&Cell::Duration { seconds: 0 }), "00:00:00");
    assert_eq!(get_cell_string(&Cell::Duration { seconds: 59 }), "00:00:59");
    assert_eq!(get_cell_string(&Cell::Duration { seconds: 43200 }), "12:00:00");
    assert_eq!(clock_string(86399), "23:59:59");
}

#[test]
fn durations_do_not_wrap_at_a_day() {
    assert_eq!(clock_string(90000), "25:00:00");
    assert_eq!(clock_string(360000), "100:00:00");
}

#[test]
fn negative_durations_keep_their_sign() {
    assert_eq!(clock_string(-5), "00:00:-5");
    assert_eq!(clock_string(-3661), "-1:-1:-1");
}

#[test]
fn preformatted_text_passes_unchanged() {
    assert_eq!(
        get_cell_string(&Cell::DateTimeIso(String::from("2024-01-02T03:04:05"))),
        "2024-01-02T03:04:05"
    );
    assert_eq!(get_cell_string(&Cell::DurationIso(String::from("PT1H"))), "PT1H");
}

#[test]
fn errors_become_diagnostic_text() {
    assert_eq!(get_cell_string(&Cell::Error(CellError::Div0)), "Error: Div0");
    assert_eq!(get_cell_string(&Cell::Error(CellError::NA)), "Error: NA");
    assert_eq!(get_cell_string(&Cell::Error(CellError::Name)), "Error: Name");
    assert_eq!(get_cell_string(&Cell::Error(CellError::Null)), "Error: Null");
    assert_eq!(get_cell_string(&Cell::Error(CellError::Num)), "Error: Num");
    assert_eq!(get_cell_string(&Cell::Error(CellError::Ref)), "Error: Ref");
    assert_eq!(get_cell_string(&Cell::Error(CellError::Value)), "Error: Value");
    assert_eq!(get_cell_string(&Cell::Error(CellError::GettingData)), "Error: GettingData");
}
