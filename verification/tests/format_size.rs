use size_units::format_size;
use size_units::{classify, render, FileSize};

#[test]
fn zero_bytes() {
    assert_eq!(format_size(0), "0 bytes");
}

#[test]
fn top_of_byte_band() {
    assert_eq!(format_size(999), "999 bytes");
}

#[test]
fn bottom_of_kb_band() {
    assert_eq!(format_size(1000), "1.00 KB");
}

#[test]
fn top_of_kb_band() {
    assert_eq!(format_size(999_999), "1000.00 KB");
}

#[test]
fn bottom_of_mb_band() {
    assert_eq!(format_size(1_000_000), "1.00 MB");
}

#[test]
fn top_of_mb_band() {
    assert_eq!(format_size(999_999_999), "1000.00 MB");
}

#[test]
fn bottom_of_gb_band() {
    assert_eq!(format_size(1_000_000_000), "1.00 GB");
}

#[test]
fn mid_gb_value() {
    assert_eq!(format_size(6_888_837_399), "6.89 GB");
}

#[test]
fn largest_size() {
    assert_eq!(format_size(u64::MAX), "18446744073.71 GB");
}

#[test]
fn rounds_half_up() {
    // 1005 bytes is exactly 1.005 KB; the half is rounded up.
    assert_eq!(format_size(1005), "1.01 KB");
    // 1004 bytes rounds down.
    assert_eq!(format_size(1004), "1.00 KB");
}

#[test]
fn classify_picks_the_band() {
    assert_eq!(classify(999), FileSize::Bytes(999));
    assert_eq!(classify(1000), FileSize::Kilobytes(100));
    assert_eq!(classify(999_999), FileSize::Kilobytes(100_000));
    assert_eq!(classify(1_000_000), FileSize::Megabytes(100));
    assert_eq!(classify(6_888_837_399), FileSize::Gigabytes(689));
}

#[test]
fn render_formats_each_band() {
    assert_eq!(render(FileSize::Bytes(17)), "17 bytes");
    assert_eq!(render(FileSize::Kilobytes(123)), "1.23 KB");
    assert_eq!(render(FileSize::Megabytes(100_000)), "1000.00 MB");
    assert_eq!(render(FileSize::Gigabytes(7)), "0.07 GB");
}
