use chromedriver_update::error::DriverError;
use chromedriver_update::version::{extract_version, get_version_from_output};

#[test]
fn extracts_browser_version_from_output() {
    let r = extract_version("Google Chrome 120.0.6099.109 \n");
    assert_eq!(r, Ok("120.0.6099.109".to_string()));
}

#[test]
fn extracts_driver_version_ignoring_trailing_text() {
    let text = "ChromeDriver 120.0.6099.109 (3419140ab665596f21b385ce136419fde0924272-refs/branch-heads/6099@{#1483})";
    assert_eq!(extract_version(text), Ok("120.0.6099.109".to_string()));
}

#[test]
fn extracts_first_of_several_versions() {
    assert_eq!(extract_version("a 1.2.3.4 b 5.6.7.8"), Ok("1.2.3.4".to_string()));
}

#[test]
fn extracts_longest_last_group() {
    assert_eq!(extract_version("v1.2.3.45.6"), Ok("1.2.3.45".to_string()));
}

#[test]
fn skips_a_three_part_number() {
    assert_eq!(extract_version("1.2.3 then 10.20.30.40"), Ok("10.20.30.40".to_string()));
}

#[test]
fn extracts_version_that_fills_the_text() {
    assert_eq!(extract_version("0.0.0.0"), Ok("0.0.0.0".to_string()));
}

#[test]
fn text_without_version_is_not_parsable() {
    assert_eq!(extract_version("Google Chrome 120.0.6099"), Err(DriverError::VersionNotParsable));
    assert_eq!(extract_version(""), Err(DriverError::VersionNotParsable));
    assert_eq!(extract_version("1..2.3.4"), Err(DriverError::VersionNotParsable));
}

#[test]
fn version_from_output_bytes() {
    let out = b"Google Chrome 121.0.6167.85\n".to_vec();
    assert_eq!(get_version_from_output(&out), Ok("121.0.6167.85".to_string()));
}

#[test]
fn version_from_output_with_invalid_utf8() {
    let mut out = vec![0xffu8, 0xfe];
    out.extend_from_slice(b" 1.22.333.4444");
    assert_eq!(get_version_from_output(&out), Ok("1.22.333.4444".to_string()));
}

#[test]
fn output_without_version_is_not_parsable() {
    let out = b"command not understood".to_vec();
    assert_eq!(get_version_from_output(&out), Err(DriverError::VersionNotParsable));
}

#[test]
fn extracts_version_with_unicode_decimal_digits() {
    assert_eq!(extract_version("\u{663}.1.1.1"), Ok("\u{663}.1.1.1".to_string()));
    assert_eq!(
        extract_version("x \u{ff11}\u{ff12}.0.\u{966}.7 y"),
        Ok("\u{ff11}\u{ff12}.0.\u{966}.7".to_string())
    );
}

#[test]
fn unicode_digits_from_output_bytes() {
    let out = "Chrome \u{663}.1.1.1".as_bytes().to_vec();
    assert_eq!(get_version_from_output(&out), Ok("\u{663}.1.1.1".to_string()));
}
