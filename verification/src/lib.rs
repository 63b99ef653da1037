//! Storage-size arithmetic over decimal (power-of-1000) scales.
//!
//! `Sizes::convert` expands an integer quantity of kilobytes, megabytes or
//! gigabytes into an exact four-scale breakdown, and `format_size` renders a
//! raw byte count as a human-readable string by magnitude thresholds.
//! All arithmetic is exact: fractional magnitudes are carried as fixed-point
//! integers, and rendering rounds half up to two decimal places.

mod breakdown;
mod decimal;
mod filesize;

pub use breakdown::ConvertError;
pub use breakdown::Sizes;
pub use breakdown::UnitType;
pub use breakdown::ascii_case_eq;
pub use breakdown::lemma_convert_case_insensitive;
pub use breakdown::lemma_round_trip;
pub use breakdown::lemma_scale_invariant;
pub use breakdown::micro_hundredths;
pub use breakdown::parse_unit;
pub use breakdown::spec_parse_unit;
pub use breakdown::spec_unit_factor;

pub use filesize::FileSize;
pub use filesize::classify;
pub use filesize::format_size;
pub use filesize::half_up_hundredths;
pub use filesize::render;
pub use filesize::spec_classify;
pub use filesize::spec_format_size;
pub use filesize::spec_render;

pub use decimal::dec_string;
pub use decimal::digit_char;
pub use decimal::fixed2_string;
pub use decimal::spec_dec;
pub use decimal::spec_fixed2;
