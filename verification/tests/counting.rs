use playlist_suggest::input::parse_count;

#[test]
fn count_is_read_from_a_line() {
    assert_eq!(parse_count("5\n"), Some(5));
    assert_eq!(parse_count("  12  "), Some(12));
    assert_eq!(parse_count("0"), Some(0));
    assert_eq!(parse_count("007"), Some(7));
    assert_eq!(parse_count("+3"), Some(3));
    assert_eq!(parse_count("-3\r\n"), Some(-3));
    assert_eq!(parse_count("-0"), Some(0));
}

#[test]
fn count_at_the_limits_of_32_bits() {
    assert_eq!(parse_count("2147483647"), Some(i32::MAX));
    assert_eq!(parse_count("-2147483648"), Some(i32::MIN));
    assert_eq!(parse_count("2147483648"), None);
    assert_eq!(parse_count("-2147483649"), None);
    assert_eq!(parse_count("+2147483648"), None);
    assert_eq!(parse_count("99999999999999999999999999"), None);
    assert_eq!(parse_count("00000000000000000000000001"), Some(1));
}

#[test]
fn what_is_no_number_is_no_count() {
    for line in ["", "\n", "   ", "five", "5 songs", "1.5", "1e3", "--1", "+-1", "-", "+", "1 2", "0x10", "1_000", "\u{665}"] {
        assert_eq!(parse_count(line), None, "for {:?}", line);
    }
}

#[test]
fn count_agrees_with_the_standard_parser() {
    let lines = [
        "5", " 5", "5 ", "\t42\n", "-17", "+17", "+", "-", "", "abc", "12a", "a12", "2147483647",
        "2147483648", "-2147483648", "-2147483649", "000", "-000", "+000", "1-", "٣", " - 1",
        "21474836470", "4294967296", "\u{3000}8\u{a0}",
    ];
    for line in lines {
        assert_eq!(parse_count(line), line.trim().parse::<i32>().ok(), "for {:?}", line);
    }
}
