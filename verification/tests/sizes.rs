use bu::size_format::{format_size, u64_to_string};

#[test]
fn test_format_size_bytes() {
    assert_eq!(format_size(500), "500 B");
}

#[test]
fn test_format_size_kb() {
    assert_eq!(format_size(2048), "2.0 KB");
}

#[test]
fn test_format_size_mb() {
    assert_eq!(format_size(5 * 1024 * 1024), "5.0 MB");
}

#[test]
fn test_format_size_gb() {
    assert_eq!(format_size(2 * 1024 * 1024 * 1024), "2.0 GB");
}

#[test]
fn test_format_size_boundaries() {
    assert_eq!(format_size(0), "0 B");
    assert_eq!(format_size(1023), "1023 B");
    assert_eq!(format_size(1024), "1.0 KB");
    assert_eq!(format_size(1536), "1.5 KB");
}

#[test]
fn test_u64_to_string_matches_decimal() {
    assert_eq!(u64_to_string(0), "0");
    assert_eq!(u64_to_string(7), "7");
    assert_eq!(u64_to_string(1024), "1024");
    assert_eq!(u64_to_string(18446744073709551615), "18446744073709551615");
}
