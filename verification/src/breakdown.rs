//! Expansion of an integer quantity of kilobytes, megabytes or gigabytes
//! into an exact breakdown across the byte, KB, MB and GB scales.
//!
//! Scaling is decimal (factors of 1000, not 1024). The byte count is an
//! exact integer; the three fractional scales are carried as fixed-point
//! integers in millionths of a unit, which loses nothing because every
//! byte count produced here is a multiple of 1000.

use vstd::prelude::*;

use crate::decimal::dec_string;
use crate::decimal::fixed2_string;
use crate::decimal::spec_dec;
use crate::decimal::spec_fixed2;

verus! {

/// The unit in which a quantity is expressed.
#[derive(Clone, Copy, Debug, PartialEq, Eq, Structural)]
pub enum UnitType {
    Kilobytes,
    Megabytes,
    Gigabytes,
}

/// Why a conversion was rejected.
#[derive(Clone, Copy, Debug, PartialEq, Eq, Structural)]
pub enum ConvertError {
    /// The unit token is not one of "kb", "mb", "gb" (any ASCII case).
    InvalidUnit,
    /// The quantity in bytes does not fit in 64 bits.
    Overflow,
}

/// Bytes per unit, decimal scaling.
pub open spec fn spec_unit_factor(u: UnitType) -> nat {
    match u {
        UnitType::Kilobytes => 1000,
        UnitType::Megabytes => 1_000_000,
        UnitType::Gigabytes => 1_000_000_000,
    }
}

/// The unit named by a token: "kb", "mb" or "gb" in any ASCII case;
/// every other token names no unit.
pub open spec fn spec_parse_unit(s: Seq<char>) -> Option<UnitType> {
    if s.len() == 2 && (s[1] == 'b' || s[1] == 'B') {
        if s[0] == 'k' || s[0] == 'K' {
            Some(UnitType::Kilobytes)
        } else if s[0] == 'm' || s[0] == 'M' {
            Some(UnitType::Megabytes)
        } else if s[0] == 'g' || s[0] == 'G' {
            Some(UnitType::Gigabytes)
        } else {
            None
        }
    } else {
        None
    }
}

/// Parses a unit token, matching "kb", "mb", "gb" without regard to case.
pub fn parse_unit(unit_type: &str) -> (r: Option<UnitType>)
    ensures
        r == spec_parse_unit(unit_type@),
{
    let len: usize = unit_type.unicode_len();
    if len != 2 {
        return None;
    }
    let c0 = unit_type.get_char(0);
    let c1 = unit_type.get_char(1);
    if !(c1 == 'b' || c1 == 'B') {
        return None;
    }
    if c0 == 'k' || c0 == 'K' {
        Some(UnitType::Kilobytes)
    } else if c0 == 'm' || c0 == 'M' {
        Some(UnitType::Megabytes)
    } else if c0 == 'g' || c0 == 'G' {
        Some(UnitType::Gigabytes)
    } else {
        None
    }
}

/// A micro-unit value scaled to hundredths of a unit, rounded half up.
pub open spec fn micro_hundredths(m: nat) -> nat {
    (m + 5000) / 10000
}

/// Scales a micro-unit value to hundredths of a unit, rounding half up.
fn micro_to_hundredths(m: u128) -> (r: u128)
    ensures
        r == micro_hundredths(m as nat),
{
    let q: u128 = m / 10000;
    let rem: u128 = m % 10000;
    if rem >= 5000 {
        q + 1
    } else {
        q
    }
}

/// A quantity expanded across the four decimal scales.
///
/// `bytes` is the exact byte count. The other three fields are exact
/// fixed-point values in millionths of their unit: `kilobytes_micro` is
/// the quantity in kilobytes times 1,000,000, and so on. `bytes` is
/// always a multiple of 1000, so all three are whole numbers.
#[derive(Clone, Copy, Debug, PartialEq, Eq, Structural)]
pub struct Sizes {
    pub bytes: u64,
    pub kilobytes_micro: u128,
    pub megabytes_micro: u128,
    pub gigabytes_micro: u128,
}

impl Sizes {
    /// The fixed scale ratios tie every field to the byte count.
    pub open spec fn wf(self) -> bool {
        &&& self.bytes % 1000 == 0
        &&& self.kilobytes_micro == self.bytes * 1000
        &&& self.megabytes_micro == self.bytes
        &&& self.gigabytes_micro * 1000 == self.bytes
    }

    /// What `convert` returns: the breakdown of `units` of the unit named
    /// by `unit_type`, or the error that rejects the request.
    pub open spec fn spec_convert(units: u64, unit_type: Seq<char>) -> Result<Sizes, ConvertError> {
        match spec_parse_unit(unit_type) {
            None => Err(ConvertError::InvalidUnit),
            Some(u) => {
                let b = (units as nat) * spec_unit_factor(u);
                if b <= u64::MAX {
                    Ok(
                        Sizes {
                            bytes: b as u64,
                            kilobytes_micro: (b * 1000) as u128,
                            megabytes_micro: b as u128,
                            gigabytes_micro: (b / 1000) as u128,
                        },
                    )
                } else {
                    Err(ConvertError::Overflow)
                }
            },
        }
    }

    /// Expands `units` of the unit named by `unit_type` across all four
    /// scales. Rejects a token other than "kb", "mb", "gb" (any ASCII
    /// case) as `InvalidUnit`, and a quantity whose byte count exceeds
    /// `u64::MAX` as `Overflow`; succeeds on every other input.
    pub fn convert(units: u64, unit_type: &str) -> (r: Result<Sizes, ConvertError>)
        ensures
            r == Self::spec_convert(units, unit_type@),
            r is Ok ==> r->Ok_0.wf(),
    {
        let u = match parse_unit(unit_type) {
            None => {
                return Err(ConvertError::InvalidUnit);
            },
            Some(u) => u,
        };
        match u {
            UnitType::Kilobytes => {
                match units.checked_mul(1000) {
                    None => Err(ConvertError::Overflow),
                    Some(b) => Ok(Self::from_bytes(b)),
                }
            },
            UnitType::Megabytes => {
                match units.checked_mul(1_000_000) {
                    None => Err(ConvertError::Overflow),
                    Some(b) => Ok(Self::from_bytes(b)),
                }
            },
            UnitType::Gigabytes => {
                match units.checked_mul(1_000_000_000) {
                    None => Err(ConvertError::Overflow),
                    Some(b) => Ok(Self::from_bytes(b)),
                }
            },
        }
    }

    /// What `describe` returns: every scale on one line, the byte count
    /// exact and each fractional scale rounded half up to two decimal
    /// places.
    pub open spec fn spec_describe(self) -> Seq<char> {
        spec_dec(self.bytes as nat) + " bytes, "@ + spec_fixed2(
            micro_hundredths(self.kilobytes_micro as nat),
        ) + " kilobytes, "@ + spec_fixed2(micro_hundredths(self.megabytes_micro as nat))
            + " megabytes, "@ + spec_fixed2(micro_hundredths(self.gigabytes_micro as nat))
            + " gigabytes"@
    }

    /// Renders the whole breakdown as one descriptive line.
    pub fn describe(&self) -> (r: String)
        ensures
            r@ == self.spec_describe(),
    {
        let mut s = dec_string(self.bytes as u128);
        s.append(" bytes, ");
        s.append(fixed2_string(micro_to_hundredths(self.kilobytes_micro)).as_str());
        s.append(" kilobytes, ");
        s.append(fixed2_string(micro_to_hundredths(self.megabytes_micro)).as_str());
        s.append(" megabytes, ");
        s.append(fixed2_string(micro_to_hundredths(self.gigabytes_micro)).as_str());
        s.append(" gigabytes");
        proof {
            assert(s@ =~= self.spec_describe());
        }
        s
    }

    /// Builds the breakdown of a byte count that is a whole number of
    /// kilobytes.
    fn from_bytes(bytes: u64) -> (r: Sizes)
        requires
            bytes % 1000 == 0,
        ensures
            r.wf(),
            r.bytes == bytes,
            r.kilobytes_micro == (bytes as nat) * 1000,
            r.megabytes_micro == bytes,
            r.gigabytes_micro == bytes / 1000,
    {
        Sizes {
            bytes,
            kilobytes_micro: (bytes as u128) * 1000,
            megabytes_micro: bytes as u128,
            gigabytes_micro: (bytes / 1000) as u128,
        }
    }
}

/// Two characters that are equal up to ASCII letter case.
pub open spec fn ascii_case_eq(a: char, b: char) -> bool {
    a == b || (('A' as int) <= a as int <= ('Z' as int) && b as int == a as int + 32) || (('A'
        as int) <= b as int <= ('Z' as int) && a as int == b as int + 32)
}

/// Round-trip identity: converting a quantity and reading back the field
/// for the unit it was given in yields the quantity exactly — the matching
/// micro-unit field is the quantity times one million, a whole number of
/// units with nothing lost.
pub proof fn lemma_round_trip(units: u64, unit_type: Seq<char>)
    requires
        Sizes::spec_convert(units, unit_type) is Ok,
    ensures
        ({
            let s = Sizes::spec_convert(units, unit_type)->Ok_0;
            match spec_parse_unit(unit_type) {
                Some(UnitType::Kilobytes) => s.kilobytes_micro == (units as nat) * 1_000_000
                    && s.kilobytes_micro / 1_000_000 == units && s.kilobytes_micro % 1_000_000
                    == 0,
                Some(UnitType::Megabytes) => s.megabytes_micro == (units as nat) * 1_000_000
                    && s.megabytes_micro / 1_000_000 == units && s.megabytes_micro % 1_000_000
                    == 0,
                Some(UnitType::Gigabytes) => s.gigabytes_micro == (units as nat) * 1_000_000
                    && s.gigabytes_micro / 1_000_000 == units && s.gigabytes_micro % 1_000_000
                    == 0,
                None => false,
            }
        }),
{
}

/// Scale invariant: each fractional field, taken back to bytes at its
/// scale, is exactly the byte count — kilobytes times 1000 bytes,
/// megabytes times 1,000,000 bytes, gigabytes times 1,000,000,000 bytes —
/// and each scale is exactly 1000 times the next.
pub proof fn lemma_scale_invariant(s: Sizes)
    requires
        s.wf(),
    ensures
        s.kilobytes_micro == (s.bytes as nat) * 1000,
        s.megabytes_micro == s.bytes,
        s.gigabytes_micro * 1000 == s.bytes,
        s.kilobytes_micro == s.megabytes_micro * 1000,
        s.megabytes_micro == s.gigabytes_micro * 1000,
{
}

/// Unit matching is case-insensitive: two unit tokens equal up to ASCII
/// letter case convert a quantity to identical results — the same
/// breakdown, or the same error.
pub proof fn lemma_convert_case_insensitive(units: u64, s1: Seq<char>, s2: Seq<char>)
    requires
        s1.len() == s2.len(),
        forall|i: int| 0 <= i < s1.len() ==> ascii_case_eq(s1[i], s2[i]),
    ensures
        Sizes::spec_convert(units, s1) == Sizes::spec_convert(units, s2),
{
    if s1.len() == 2 {
        assert(ascii_case_eq(s1[0], s2[0]));
        assert(ascii_case_eq(s1[1], s2[1]));
        assert((s1[1] == 'b' || s1[1] == 'B') <==> (s2[1] == 'b' || s2[1] == 'B'));
        assert((s1[0] == 'k' || s1[0] == 'K') <==> (s2[0] == 'k' || s2[0] == 'K'));
        assert((s1[0] == 'm' || s1[0] == 'M') <==> (s2[0] == 'm' || s2[0] == 'M'));
        assert((s1[0] == 'g' || s1[0] == 'G') <==> (s2[0] == 'g' || s2[0] == 'G'));
        assert(spec_parse_unit(s1) == spec_parse_unit(s2));
    }
}

} // verus!
