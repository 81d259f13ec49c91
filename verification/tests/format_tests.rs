use lsl::app::App;
use lsl::numfmt::u64_to_string;
use lsl::numfmt::u64_to_string_padded;
use lsl::numfmt::usize_to_string;
use lsl::timefmt::format_calendar;
use lsl::timefmt::format_timestamp;

#[test]
fn decimal_rendering_of_small_and_large_values() {
    assert_eq!(u64_to_string(0), "0");
    assert_eq!(u64_to_string(7), "7");
    assert_eq!(u64_to_string(907), "907");
    assert_eq!(u64_to_string(18446744073709551615), "18446744073709551615");
    assert_eq!(usize_to_string(12345), "12345");
}

#[test]
fn zero_padding_extends_short_values_only() {
    assert_eq!(u64_to_string_padded(7, 2), "07");
    assert_eq!(u64_to_string_padded(123, 2), "123");
    assert_eq!(u64_to_string_padded(0, 4), "0000");
    assert_eq!(u64_to_string_padded(42, 4), "0042");
}

#[test]
fn calendar_fields_render_zero_padded() {
    assert_eq!(format_calendar(2024, 5, 7, 9, 30), "2024/05/07 09:30");
    assert_eq!(format_calendar(12345, 1, 2, 3, 4), "12345/01/02 03:04");
}

#[test]
fn negative_years_carry_their_sign() {
    assert_eq!(format_calendar(-44, 3, 15, 12, 5), "-0044/03/15 12:05");
}

#[test]
fn timestamps_render_in_utc() {
    assert_eq!(format_timestamp(0), "1970/01/01 00:00");
    assert_eq!(format_timestamp(1431648000), "2015/05/15 00:00");
    assert_eq!(format_timestamp(86399), "1970/01/01 23:59");
}

#[test]
fn the_browser_formats_timestamps_the_same_way() {
    let app = App::new(20, 5);
    assert_eq!(app.format_utc_to_string(0), "1970/01/01 00:00");
    assert_eq!(app.format_utc_to_string(1431648000), "2015/05/15 00:00");
}

#[test]
fn base_conversion_recombines_octal_digits_decimally() {
    let app = App::new(20, 5);
    assert_eq!(app.shinsu(493, 8), 755);
    assert_eq!(app.shinsu(0, 8), 0);
    assert_eq!(app.shinsu(0o100644, 8), 100644);
    assert_eq!(app.shinsu(255, 2), 11111111);
}

#[test]
fn permission_strings_render_rwx_triples() {
    let app = App::new(20, 5);
    assert_eq!(app.generate_permission_strings(100644), "rw-r--r--");
    assert_eq!(app.generate_permission_strings(100755), "rwxr-xr-x");
    assert_eq!(app.generate_permission_strings(40755), "rwxr-xr-x");
    assert_eq!(app.generate_permission_strings(100000), "rw-------------");
}

#[test]
fn long_form_permissions_carry_position_headers() {
    let app = App::new(20, 5);
    let expected = [
        "所有者 > ",
        "読書  ",
        " │ ",
        "グループ > ",
        "読    ",
        " │ ",
        "その他 > ",
        "読    ",
        " │ ",
    ]
        .concat();
    assert_eq!(app.generate_permission_strings_in_japanese(100644), expected);
}

#[test]
fn long_form_permissions_stop_at_the_first_invalid_character() {
    let app = App::new(20, 5);
    assert_eq!(app.generate_permission_strings_in_japanese(0), "所有者 > ");
}
