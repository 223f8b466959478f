use wisp_installer::progress::{
    byte_progress_line, copied_summary, decimal_string, megabytes, progress_line,
};

#[test]
fn one_third_has_two_decimals() {
    assert_eq!(progress_line(1, 3), "\rProgress: 33.33%");
}

#[test]
fn zero_total_is_indeterminable() {
    assert_eq!(progress_line(0, 0), "\rProgress: Indeterminable");
    assert_eq!(progress_line(5, 0), "\rProgress: Indeterminable");
    assert_eq!(byte_progress_line(7, 0), "\rProgress: Indeterminable");
}

#[test]
fn whole_and_fractional_percentages() {
    assert_eq!(progress_line(3, 3), "\rProgress: 100.00%");
    assert_eq!(progress_line(0, 7), "\rProgress: 0.00%");
    assert_eq!(progress_line(1, 8), "\rProgress: 12.50%");
    assert_eq!(progress_line(2, 3), "\rProgress: 66.67%");
    assert_eq!(progress_line(1, 200), "\rProgress: 0.50%");
}

#[test]
fn largest_counts_do_not_overflow() {
    assert_eq!(progress_line(usize::MAX, usize::MAX), "\rProgress: 100.00%");
    assert_eq!(byte_progress_line(u64::MAX / 2, u64::MAX), "\rProgress: 50.00%");
}

#[test]
fn byte_progress_matches_step_progress() {
    assert_eq!(byte_progress_line(512, 2048), "\rProgress: 25.00%");
}

#[test]
fn decimal_rendering() {
    assert_eq!(decimal_string(0), "0");
    assert_eq!(decimal_string(9), "9");
    assert_eq!(decimal_string(10), "10");
    assert_eq!(decimal_string(1234567890), "1234567890");
    assert_eq!(decimal_string(u64::MAX), "18446744073709551615");
}

#[test]
fn megabytes_round_down() {
    assert_eq!(megabytes(0), 0);
    assert_eq!(megabytes(1048575), 0);
    assert_eq!(megabytes(3 * 1048576 + 17), 3);
    assert_eq!(copied_summary(5 * 1048576), "Copied 5 MB");
}
