//! Rendering of a raw byte count as one human-readable string.
//!
//! The byte count selects a display band by magnitude thresholds
//! (bytes, KB, MB, GB, decimal scaling); fractional magnitudes are
//! rounded half up to hundredths and printed with two decimal places.

use vstd::prelude::*;

use crate::decimal::dec_string;
use crate::decimal::fixed2_string;
use crate::decimal::spec_dec;
use crate::decimal::spec_fixed2;

verus! {

/// A byte count classified into its display band. Fractional bands carry
/// the magnitude in hundredths of the band's unit, rounded half up.
#[derive(Clone, Copy, Debug, PartialEq, Eq, Structural)]
pub enum FileSize {
    Bytes(u64),
    Kilobytes(u64),
    Megabytes(u64),
    Gigabytes(u64),
}

/// `n` scaled to hundredths of a unit of `d` bytes, rounded half up.
pub open spec fn half_up_hundredths(n: nat, d: nat) -> nat
    recommends
        d > 0,
{
    (n * 100 + d / 2) / d
}

/// The display band for a byte count: 0..=999 bytes, then KB up to but not
/// including one MB, then MB up to but not including one GB, then GB.
pub open spec fn spec_classify(n: u64) -> FileSize {
    if n <= 999 {
        FileSize::Bytes(n)
    } else if n <= 999_999 {
        FileSize::Kilobytes(half_up_hundredths(n as nat, 1000) as u64)
    } else if n <= 999_999_999 {
        FileSize::Megabytes(half_up_hundredths(n as nat, 1_000_000) as u64)
    } else {
        FileSize::Gigabytes(half_up_hundredths(n as nat, 1_000_000_000) as u64)
    }
}

/// The rendered form of a classified size: an exact integer for the byte
/// band, two decimal places for the fractional bands.
pub open spec fn spec_render(fs: FileSize) -> Seq<char> {
    match fs {
        FileSize::Bytes(b) => spec_dec(b as nat) + " bytes"@,
        FileSize::Kilobytes(h) => spec_fixed2(h as nat) + " KB"@,
        FileSize::Megabytes(h) => spec_fixed2(h as nat) + " MB"@,
        FileSize::Gigabytes(h) => spec_fixed2(h as nat) + " GB"@,
    }
}

/// What `format_size` returns for a byte count.
pub open spec fn spec_format_size(n: u64) -> Seq<char> {
    spec_render(spec_classify(n))
}

/// Selects the display band for `size`.
pub fn classify(size: u64) -> (r: FileSize)
    ensures
        r == spec_classify(size),
{
    if size <= 999 {
        FileSize::Bytes(size)
    } else if size <= 999_999 {
        let h: u128 = ((size as u128) * 100 + 500) / 1000;
        FileSize::Kilobytes(h as u64)
    } else if size <= 999_999_999 {
        let h: u128 = ((size as u128) * 100 + 500_000) / 1_000_000;
        FileSize::Megabytes(h as u64)
    } else {
        let h: u128 = ((size as u128) * 100 + 500_000_000) / 1_000_000_000;
        FileSize::Gigabytes(h as u64)
    }
}

/// Renders a classified size as its display string.
pub fn render(fs: FileSize) -> (r: String)
    ensures
        r@ == spec_render(fs),
{
    match fs {
        FileSize::Bytes(b) => {
            let mut s = dec_string(b as u128);
            s.append(" bytes");
            s
        },
        FileSize::Kilobytes(h) => {
            let mut s = fixed2_string(h as u128);
            s.append(" KB");
            s
        },
        FileSize::Megabytes(h) => {
            let mut s = fixed2_string(h as u128);
            s.append(" MB");
            s
        },
        FileSize::Gigabytes(h) => {
            let mut s = fixed2_string(h as u128);
            s.append(" GB");
            s
        },
    }
}

/// Renders a raw byte count as one human-readable string.
pub fn format_size(size: u64) -> (r: String)
    ensures
        r@ == spec_format_size(size),
{
    render(classify(size))
}

} // verus!
