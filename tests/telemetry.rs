use pump_temp::telemetry::{
    get_cpu_temp, normalize, raw_reading, sample_from_text, temp_report, REPORT_LEN,
};

#[test]
fn normalize_typical_reading() {
    assert_eq!(normalize(85900), 85);
}

#[test]
fn normalize_zero() {
    assert_eq!(normalize(0), 0);
}

#[test]
fn normalize_large_reading_stays_in_byte() {
    assert_eq!(normalize(254745), 255);
}

#[test]
fn normalize_truncates_to_low_byte() {
    // 255744 / 999 == 256, whose low byte is 0.
    assert_eq!(normalize(255744), 0);
    assert_eq!(normalize(256743), 1);
    assert_eq!(normalize(u32::MAX), ((u32::MAX / 999) % 256) as u8);
}

#[test]
fn normalize_just_below_divisor() {
    assert_eq!(normalize(998), 0);
    assert_eq!(normalize(999), 1);
}

#[test]
fn sample_from_text_trims_newline() {
    assert_eq!(sample_from_text("85900\n"), 85);
    assert_eq!(sample_from_text("  42000 \t\n"), 42);
}

#[test]
fn sample_from_text_accepts_plus_sign() {
    assert_eq!(sample_from_text("+999"), 1);
}

#[test]
fn sample_from_text_non_numeric_is_zero() {
    assert_eq!(sample_from_text("abc"), 0);
    assert_eq!(sample_from_text(""), 0);
    assert_eq!(sample_from_text("-5000"), 0);
    assert_eq!(sample_from_text("12a"), 0);
    assert_eq!(sample_from_text("4294967296"), 0);
}

#[test]
fn get_cpu_temp_unreadable_is_zero() {
    assert_eq!(get_cpu_temp(None), 0);
}

#[test]
fn get_cpu_temp_non_numeric_is_zero() {
    assert_eq!(get_cpu_temp(Some("not a number\n")), 0);
}

#[test]
fn get_cpu_temp_reads_value() {
    assert_eq!(get_cpu_temp(Some("85900\n")), 85);
}

#[test]
fn report_for_sample_42() {
    let r = temp_report(42);
    assert_eq!(REPORT_LEN, 10);
    assert_eq!(r, [0, 42, 0, 0, 0, 0, 0, 0, 0, 0]);
}

#[test]
fn report_for_zero_and_max() {
    assert_eq!(temp_report(0), [0u8; 10]);
    assert_eq!(temp_report(255), [0, 255, 0, 0, 0, 0, 0, 0, 0, 0]);
}

#[test]
fn raw_reading_parses_trimmed_text() {
    assert_eq!(raw_reading("85900\n"), Some(85900));
    assert_eq!(raw_reading(" 0 "), Some(0));
    assert_eq!(raw_reading("4294967295"), Some(u32::MAX));
    assert_eq!(raw_reading("4294967296"), None);
    assert_eq!(raw_reading("1 2"), None);
}
