use mago_linter::format_string::parse_format_string;

#[test]
fn parse_empty_string() {
    let info = parse_format_string(b"");

    assert_eq!(info.placeholder_count, 0);
    assert_eq!(info.required_args, 0);
}

#[test]
fn parse_no_placeholders() {
    let info = parse_format_string(b"Hello world");

    assert_eq!(info.placeholder_count, 0);
    assert_eq!(info.required_args, 0);
}

#[test]
fn parse_all_escaped_percents() {
    let info = parse_format_string(b"100%%%% complete%%");

    assert_eq!(info.placeholder_count, 0);
    assert_eq!(info.required_args, 0);
}

#[test]
fn parse_trailing_percent() {
    let info = parse_format_string(b"Hello %");

    assert_eq!(info.placeholder_count, 0);
    assert_eq!(info.required_args, 0);
}

#[test]
fn parse_trailing_percent_after_valid() {
    let info = parse_format_string(b"Hello %s %");

    assert_eq!(info.placeholder_count, 1);
    assert_eq!(info.required_args, 1);
}

#[test]
fn parse_sequential_placeholders() {
    let info = parse_format_string(b"Hello %s, you have %d messages");

    assert_eq!(info.placeholder_count, 2);
    assert_eq!(info.required_args, 2);
}

#[test]
fn parse_positional_placeholders() {
    let info = parse_format_string(b"Hello %2$s, you have %1$d messages");

    assert_eq!(info.placeholder_count, 2);
    assert_eq!(info.required_args, 2);
}

#[test]
fn parse_positional_reuse() {
    let info = parse_format_string(b"%1$s %1$s %1$s");

    assert_eq!(info.placeholder_count, 3);
    assert_eq!(info.required_args, 1);
}

#[test]
fn parse_positional_nonsequential() {
    let info = parse_format_string(b"%5$d %1$s");

    assert_eq!(info.placeholder_count, 2);
    assert_eq!(info.required_args, 5);
}

#[test]
fn parse_positional_nonsequential_checked() {
    let info = parse_format_string(b"%1$s %5$d");

    assert_eq!(info.placeholder_count, 2);
    assert_eq!(info.required_args, 5);
}

#[test]
fn parse_all_specifiers() {
    let info = parse_format_string(b"%s %d %u %f %F %e %E %x %X %o %b %c");

    assert_eq!(info.placeholder_count, 12);
    assert_eq!(info.required_args, 12);
}

#[test]
fn parse_flags_and_width() {
    let info = parse_format_string(b"%-10s %+d %0d %'x5s");

    assert_eq!(info.placeholder_count, 4);
    assert_eq!(info.required_args, 4);
}

#[test]
fn parse_precision() {
    let info = parse_format_string(b"%.2f %5.2f %.0d");

    assert_eq!(info.placeholder_count, 3);
    assert_eq!(info.required_args, 3);
}

#[test]
fn parse_positional_with_width_and_precision() {
    let info = parse_format_string(b"%1$10s %2$05d %1$.2f");

    assert_eq!(info.placeholder_count, 3);
    assert_eq!(info.required_args, 2);
}

#[test]
fn parse_ignored_padding_character_specifier() {
    let info = parse_format_string(b"%'*10s %' 05d");

    assert_eq!(info.placeholder_count, 2);
    assert_eq!(info.required_args, 2);
}

#[test]
fn parse_format_flag_minus() {
    let info = parse_format_string(b"%-s %-10d");

    assert_eq!(info.placeholder_count, 2);
    assert_eq!(info.required_args, 2);
}

#[test]
fn parse_format_flag_plus() {
    let info = parse_format_string(b"%+d %+f");

    assert_eq!(info.placeholder_count, 2);
    assert_eq!(info.required_args, 2);
}

#[test]
fn parse_format_flag_space() {
    let info = parse_format_string(b"% d % f");

    assert_eq!(info.placeholder_count, 2);
    assert_eq!(info.required_args, 2);
}

#[test]
fn parse_adjacent_percents() {
    let info = parse_format_string(b"%%%%");

    assert_eq!(info.placeholder_count, 0);
    assert_eq!(info.required_args, 0);
}
