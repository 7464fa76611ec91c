use playground::util::marker::format_end;
use playground::util::marker::format_start;
use playground::util::numeral::push_decimal;
use playground::util::numeral::push_signed_decimal;

#[test]
fn start_line_is_name_and_marker() {
    assert_eq!(format_start("borrow_rules"), "borrow_rules [start]");
    assert_eq!(format_start("x"), "x [start]");
}

#[test]
fn start_line_of_empty_name_is_the_marker() {
    assert_eq!(format_start(""), " [start]");
}

#[test]
fn end_line_is_name_marker_and_millis() {
    assert_eq!(format_end("borrow_rules", 50), "borrow_rules [end]: took 50 ms...");
    assert_eq!(format_end("x", 0), "x [end]: took 0 ms...");
    assert_eq!(format_end("x", 7), "x [end]: took 7 ms...");
    assert_eq!(format_end("x", 10), "x [end]: took 10 ms...");
    assert_eq!(format_end("x", 1234567890), "x [end]: took 1234567890 ms...");
}

#[test]
fn end_line_holds_the_largest_count() {
    assert_eq!(
        format_end("x", u128::MAX),
        "x [end]: took 340282366920938463463374607431768211455 ms..."
    );
}

#[test]
fn lines_keep_names_that_are_not_ascii() {
    assert_eq!(format_start("prüfung"), "prüfung [start]");
    assert_eq!(format_end("prüfung", 3), "prüfung [end]: took 3 ms...");
}

#[test]
fn decimal_is_appended_behind_what_is_there() {
    let mut text = String::from("n=");
    push_decimal(&mut text, 0);
    assert_eq!(text, "n=0");
    push_decimal(&mut text, 9);
    assert_eq!(text, "n=09");
    push_decimal(&mut text, 100);
    assert_eq!(text, "n=09100");
    push_decimal(&mut text, 907);
    assert_eq!(text, "n=09100907");
}

#[test]
fn decimal_agrees_with_the_standard_formatting() {
    for n in [0u128, 1, 9, 10, 11, 99, 100, 101, 999, 1000, 65535, 4294967296, u64::MAX as u128] {
        let mut text = String::new();
        push_decimal(&mut text, n);
        assert_eq!(text, format!("{}", n));
    }
}

#[test]
fn lines_of_different_names_differ() {
    assert_ne!(format_start("a"), format_start("b"));
    assert_ne!(format_end("a", 1), format_end("b", 1));
    assert_ne!(format_end("a", 1), format_end("a", 2));
    assert_ne!(format_start("a"), format_end("a", 0));
}

#[test]
fn signed_decimal_writes_the_sign_of_negative_numbers() {
    let mut text = String::new();
    push_signed_decimal(&mut text, -1);
    assert_eq!(text, "-1");
    push_signed_decimal(&mut text, 0);
    assert_eq!(text, "-10");
    push_signed_decimal(&mut text, 25);
    assert_eq!(text, "-1025");
}

#[test]
fn signed_decimal_holds_the_ends_of_the_range() {
    let mut low = String::new();
    push_signed_decimal(&mut low, i64::MIN);
    assert_eq!(low, "-9223372036854775808");
    let mut high = String::new();
    push_signed_decimal(&mut high, i64::MAX);
    assert_eq!(high, "9223372036854775807");
}

#[test]
fn lines_begin_with_the_name() {
    for name in ["a", "borrowing", "_", "x1"] {
        assert!(format_start(name).starts_with(name));
        assert!(format_end(name, 12).starts_with(name));
    }
}

#[test]
fn elapsed_time_reads_back_from_the_closing_line() {
    for millis in [0u128, 1, 9, 10, 50, 99, 100, 12345, u64::MAX as u128, u128::MAX] {
        let line = format_end("case", millis);
        let numeral = &line["case [end]: took ".len()..line.len() - " ms...".len()];
        assert!(numeral.chars().all(|c| c.is_ascii_digit()));
        assert_eq!(numeral.parse::<u128>().unwrap(), millis);
    }
}
