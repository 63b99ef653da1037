use size_units::{parse_unit, ConvertError, Sizes, UnitType};

#[test]
fn five_kilobytes() {
    let s = Sizes::convert(5, "kb").unwrap();
    assert_eq!(s.bytes, 5000);
    // 5 kilobytes exactly.
    assert_eq!(s.kilobytes_micro, 5_000_000);
    // 0.005 megabytes exactly.
    assert_eq!(s.megabytes_micro, 5_000);
    // 0.000005 gigabytes exactly.
    assert_eq!(s.gigabytes_micro, 5);
}

#[test]
fn megabytes_scale() {
    let s = Sizes::convert(123, "mb").unwrap();
    assert_eq!(s.bytes, 123_000_000);
    assert_eq!(s.kilobytes_micro, 123_000_000_000);
    assert_eq!(s.megabytes_micro, 123_000_000);
    assert_eq!(s.gigabytes_micro, 123_000);
}

#[test]
fn gigabytes_scale() {
    let s = Sizes::convert(2, "gb").unwrap();
    assert_eq!(s.bytes, 2_000_000_000);
    assert_eq!(s.kilobytes_micro, 2_000_000_000_000);
    assert_eq!(s.megabytes_micro, 2_000_000_000);
    assert_eq!(s.gigabytes_micro, 2_000_000);
}

#[test]
fn round_trip_on_matching_field() {
    assert_eq!(Sizes::convert(41, "kb").unwrap().kilobytes_micro, 41_000_000);
    assert_eq!(Sizes::convert(41, "mb").unwrap().megabytes_micro, 41_000_000);
    assert_eq!(Sizes::convert(41, "gb").unwrap().gigabytes_micro, 41_000_000);
}

#[test]
fn case_insensitive_tokens() {
    let lower = Sizes::convert(7, "kb");
    assert_eq!(Sizes::convert(7, "KB"), lower);
    assert_eq!(Sizes::convert(7, "Kb"), lower);
    assert_eq!(Sizes::convert(7, "kB"), lower);
    assert_eq!(Sizes::convert(9, "GB"), Sizes::convert(9, "gb"));
    assert_eq!(Sizes::convert(9, "mB"), Sizes::convert(9, "mb"));
}

#[test]
fn invalid_units_are_rejected() {
    assert_eq!(Sizes::convert(1, "tb"), Err(ConvertError::InvalidUnit));
    assert_eq!(Sizes::convert(1, ""), Err(ConvertError::InvalidUnit));
    assert_eq!(Sizes::convert(1, "kbb"), Err(ConvertError::InvalidUnit));
    assert_eq!(Sizes::convert(1, "k"), Err(ConvertError::InvalidUnit));
    assert_eq!(Sizes::convert(0, "bk"), Err(ConvertError::InvalidUnit));
}

#[test]
fn overflow_is_rejected() {
    assert_eq!(Sizes::convert(u64::MAX, "kb"), Err(ConvertError::Overflow));
    assert_eq!(Sizes::convert(u64::MAX, "gb"), Err(ConvertError::Overflow));
    assert_eq!(Sizes::convert(18_446_744_074, "gb"), Err(ConvertError::Overflow));
}

#[test]
fn largest_quantities_that_fit() {
    let s = Sizes::convert(18_446_744_073, "gb").unwrap();
    assert_eq!(s.bytes, 18_446_744_073_000_000_000);
    let s = Sizes::convert(18_446_744_073_709_551, "kb").unwrap();
    assert_eq!(s.bytes, 18_446_744_073_709_551_000);
}

#[test]
fn zero_quantity() {
    let s = Sizes::convert(0, "mb").unwrap();
    assert_eq!(s.bytes, 0);
    assert_eq!(s.kilobytes_micro, 0);
    assert_eq!(s.megabytes_micro, 0);
    assert_eq!(s.gigabytes_micro, 0);
}

#[test]
fn parse_unit_tokens() {
    assert_eq!(parse_unit("kb"), Some(UnitType::Kilobytes));
    assert_eq!(parse_unit("MB"), Some(UnitType::Megabytes));
    assert_eq!(parse_unit("gB"), Some(UnitType::Gigabytes));
    assert_eq!(parse_unit("tb"), None);
    assert_eq!(parse_unit(""), None);
    assert_eq!(parse_unit("b"), None);
}

#[test]
fn describe_renders_all_scales() {
    let s = Sizes::convert(5, "kb").unwrap();
    assert_eq!(
        s.describe(),
        "5000 bytes, 5.00 kilobytes, 0.01 megabytes, 0.00 gigabytes"
    );
    let s = Sizes::convert(3, "gb").unwrap();
    assert_eq!(
        s.describe(),
        "3000000000 bytes, 3000000.00 kilobytes, 3000.00 megabytes, 3.00 gigabytes"
    );
}
