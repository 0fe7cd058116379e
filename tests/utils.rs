use learning_rust::utils::{format_rupiah, truncate_string, validate_price};

#[test]
fn test_format_rupiah() {
    assert_eq!(format_rupiah(1000000), "Rp 1.000.000");
    assert_eq!(format_rupiah(1500), "Rp 1.500");
    assert_eq!(format_rupiah(0), "Rp 0");
}

#[test]
fn test_validate_price() {
    assert!(validate_price(100));
    assert!(validate_price(0));
    assert!(!validate_price(-10));
}

#[test]
fn test_truncate_string() {
    assert_eq!(truncate_string("Hello", 10), "Hello");
    assert_eq!(truncate_string("Hello World", 5), "Hello...");
}

#[test]
fn truncate_keeps_text_of_exact_length() {
    assert_eq!(truncate_string("Hello", 5), "Hello");
    assert_eq!(truncate_string("", 0), "");
    assert_eq!(truncate_string("abc", 0), "...");
}

#[test]
fn truncate_counts_bytes_and_cuts_on_boundaries() {
    // "é" takes two bytes: a cut after it falls on a boundary.
    assert_eq!(truncate_string("éé", 2), "é...");
}

#[test]
fn rupiah_groups_thousands() {
    assert_eq!(format_rupiah(999), "Rp 999");
    assert_eq!(format_rupiah(1000), "Rp 1.000");
    assert_eq!(format_rupiah(1005), "Rp 1.005");
    assert_eq!(format_rupiah(1234567), "Rp 1.234.567");
}
