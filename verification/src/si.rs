//! SI-suffix tier selection for axis tick labels.
//!
//! A label value is classed by the magnitude of the double it shows: the
//! suffixed tiers T, G, M, K cover values of at least a thousand, plain
//! two-decimal rendering covers `[1, 1000)`, the tiers m, µ, n, p cover
//! small magnitudes down to `1e-12`, exact zero renders as `"0"`, and
//! anything smaller falls back to scientific notation. The tiers are
//! tested from the largest down, so T has no upper bound.

use crate::ieee::{f64_abs_bits, f64_ge, f64_ge_bits, is_zero_bits, mag_of};
use vstd::prelude::*;

verus! {

/// Bit pattern of the double `1e12`.
pub const SI_1E12: u64 = 0x426d1a94a2000000;

/// Bit pattern of the double `1e9`.
pub const SI_1E9: u64 = 0x41cdcd6500000000;

/// Bit pattern of the double `1e6`.
pub const SI_1E6: u64 = 0x412e848000000000;

/// Bit pattern of the double `1e3`.
pub const SI_1E3: u64 = 0x408f400000000000;

/// Bit pattern of the double `1.0`.
pub const SI_1E0: u64 = 0x3ff0000000000000;

/// Bit pattern of the double `1e-3`.
pub const SI_1EM3: u64 = 0x3f50624dd2f1a9fc;

/// Bit pattern of the double `1e-6`.
pub const SI_1EM6: u64 = 0x3eb0c6f7a0b5ed8d;

/// Bit pattern of the double `1e-9`.
pub const SI_1EM9: u64 = 0x3e112e0be826d695;

/// Bit pattern of the double `1e-12`.
pub const SI_1EM12: u64 = 0x3d719799812dea11;

/// The rendering class of one label value.
#[derive(Debug, Clone, Copy, PartialEq, Eq, Structural)]
pub enum SiTier {
    /// Magnitude at least `1e12`: scaled by `1e-12`, suffix `T`.
    Tera,
    /// Magnitude in `[1e9, 1e12)`: suffix `G`.
    Giga,
    /// Magnitude in `[1e6, 1e9)`: suffix `M`.
    Mega,
    /// Magnitude in `[1e3, 1e6)`: suffix `K`.
    Kilo,
    /// Magnitude in `[1, 1e3)`: two decimals, no suffix.
    Unit,
    /// Magnitude in `[1e-3, 1)`: scaled by `1e3`, suffix `m`.
    Milli,
    /// Magnitude in `[1e-6, 1e-3)`: suffix `µ`.
    Micro,
    /// Magnitude in `[1e-9, 1e-6)`: suffix `n`.
    Nano,
    /// Magnitude in `[1e-12, 1e-9)`: suffix `p`.
    Pico,
    /// Exactly zero: rendered as the literal `"0"`.
    Zero,
    /// Anything else (sub-`1e-12` magnitudes, NaN): scientific notation.
    Scientific,
}

/// The tier of a value, tested from the largest magnitude down. A NaN
/// fails every magnitude test and the zero test, so it falls through to
/// the scientific class.
pub open spec fn spec_si_tier(v: u64) -> SiTier {
    let m = mag_of(v);
    if f64_ge_bits(m, SI_1E12) {
        SiTier::Tera
    } else if f64_ge_bits(m, SI_1E9) {
        SiTier::Giga
    } else if f64_ge_bits(m, SI_1E6) {
        SiTier::Mega
    } else if f64_ge_bits(m, SI_1E3) {
        SiTier::Kilo
    } else if f64_ge_bits(m, SI_1E0) {
        SiTier::Unit
    } else if f64_ge_bits(m, SI_1EM3) {
        SiTier::Milli
    } else if f64_ge_bits(m, SI_1EM6) {
        SiTier::Micro
    } else if f64_ge_bits(m, SI_1EM9) {
        SiTier::Nano
    } else if f64_ge_bits(m, SI_1EM12) {
        SiTier::Pico
    } else if is_zero_bits(v) {
        SiTier::Zero
    } else {
        SiTier::Scientific
    }
}

/// Classes a label value, given as a double's bit pattern.
pub fn si_tier(v: u64) -> (r: SiTier)
    ensures
        r == spec_si_tier(v),
{
    let m = f64_abs_bits(v);
    if f64_ge(m, SI_1E12) {
        SiTier::Tera
    } else if f64_ge(m, SI_1E9) {
        SiTier::Giga
    } else if f64_ge(m, SI_1E6) {
        SiTier::Mega
    } else if f64_ge(m, SI_1E3) {
        SiTier::Kilo
    } else if f64_ge(m, SI_1E0) {
        SiTier::Unit
    } else if f64_ge(m, SI_1EM3) {
        SiTier::Milli
    } else if f64_ge(m, SI_1EM6) {
        SiTier::Micro
    } else if f64_ge(m, SI_1EM9) {
        SiTier::Nano
    } else if f64_ge(m, SI_1EM12) {
        SiTier::Pico
    } else if m == 0u64 {
        SiTier::Zero
    } else {
        SiTier::Scientific
    }
}

/// The suffix character a tier appends, if any.
pub fn si_suffix(t: SiTier) -> (r: Option<char>)
    ensures
        r == match t {
            SiTier::Tera => Some('T'),
            SiTier::Giga => Some('G'),
            SiTier::Mega => Some('M'),
            SiTier::Kilo => Some('K'),
            SiTier::Milli => Some('m'),
            SiTier::Micro => Some('µ'),
            SiTier::Nano => Some('n'),
            SiTier::Pico => Some('p'),
            _ => None::<char>,
        },
{
    match t {
        SiTier::Tera => Some('T'),
        SiTier::Giga => Some('G'),
        SiTier::Mega => Some('M'),
        SiTier::Kilo => Some('K'),
        SiTier::Milli => Some('m'),
        SiTier::Micro => Some('µ'),
        SiTier::Nano => Some('n'),
        SiTier::Pico => Some('p'),
        _ => None,
    }
}

/// The power of ten a tier scales by before rendering two decimals: the
/// shown number is the value times `10^-exponent`.
pub fn si_scale_exponent(t: SiTier) -> (r: i32)
    ensures
        r == match t {
            SiTier::Tera => 12,
            SiTier::Giga => 9,
            SiTier::Mega => 6,
            SiTier::Kilo => 3,
            SiTier::Milli => -3,
            SiTier::Micro => -6,
            SiTier::Nano => -9,
            SiTier::Pico => -12,
            _ => 0,
        },
{
    match t {
        SiTier::Tera => 12,
        SiTier::Giga => 9,
        SiTier::Mega => 6,
        SiTier::Kilo => 3,
        SiTier::Milli => -3,
        SiTier::Micro => -6,
        SiTier::Nano => -9,
        SiTier::Pico => -12,
        _ => 0,
    }
}

} // verus!
