use mago_linter::format_string::{
    check_format_numbers, parse_format_string, parse_number, parse_position, skip_format_spec,
};

#[test]
fn number_stops_at_the_given_length() {
    let mut i: usize = 0;
    let n = parse_number(b"123", &mut i, 2);

    assert_eq!(n, 12);
    assert_eq!(i, 2);
}

#[test]
fn number_reads_the_whole_run() {
    let mut i: usize = 1;
    let n = parse_number(b"x4096y", &mut i, 6);

    assert_eq!(n, 4096);
    assert_eq!(i, 5);
}

#[test]
fn position_needs_a_dollar_inside_the_length() {
    let mut i: usize = 0;
    assert_eq!(parse_position(b"2$s", &mut i, 1), None);
    assert_eq!(i, 0);

    let mut j: usize = 0;
    assert_eq!(parse_position(b"2$s", &mut j, 3), Some(2));
    assert_eq!(j, 2);
}

#[test]
fn spec_skipping_stops_at_the_given_length() {
    let mut i: usize = 0;
    skip_format_spec(b"-10.5fX", &mut i, 3);
    assert_eq!(i, 3);

    let mut j: usize = 0;
    skip_format_spec(b"-10.5fX", &mut j, 7);
    assert_eq!(j, 6);
}

#[test]
fn numbers_that_fit_are_accepted() {
    assert!(check_format_numbers(b""));
    assert!(check_format_numbers(b"%5$s and %-10.3f"));
    assert!(check_format_numbers(b"%18446744073709551615s"));
}

#[test]
fn numbers_past_usize_are_refused() {
    assert!(!check_format_numbers(b"%99999999999999999999$s"));
    assert!(!check_format_numbers(b"%99999999999999999999s"));
    assert!(!check_format_numbers(b"%.99999999999999999999f"));
    assert!(!check_format_numbers(b"ok %s then %'x99999999999999999999d"));
}

#[test]
fn checked_strings_can_be_parsed() {
    let format = b"%1$s %2$s %s";
    assert!(check_format_numbers(format));
    let info = parse_format_string(format);
    assert_eq!(info.placeholder_count, 3);
    assert_eq!(info.required_args, 2);
}
