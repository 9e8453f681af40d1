//! A model of IEEE-754 double-precision values by their 64-bit patterns.
//!
//! The library never computes with machine floating point. Every numeric
//! cell travels as the 64-bit pattern of a double, and the operations the
//! plotting pipeline needs on such values — ordering, absolute value,
//! truncation to an integer, and encoding a small integer — are defined
//! here over the bit fields (sign, biased exponent, fraction) and proved
//! against those definitions.

use vstd::arithmetic::power2::{
    lemma2_to64, lemma2_to64_rest, lemma_pow2_adds, lemma_pow2_pos, lemma_pow2_strictly_increases,
    pow2,
};
use vstd::arithmetic::mul::lemma_mul_strict_inequality;
use vstd::bits::lemma_u64_shl_is_mul;
use vstd::prelude::*;

verus! {

/// Bit pattern of the double `0.0`.
pub const F64_ZERO: u64 = 0x0;

/// Sign field of a double's bit pattern: 0 for positive, 1 for negative.
pub open spec fn sign_of(b: u64) -> u64 {
    b >> 63u64
}

/// Biased exponent field (11 bits).
pub open spec fn exp_of(b: u64) -> u64 {
    (b >> 52u64) & 0x7ffu64
}

/// Fraction field (52 bits).
pub open spec fn frac_of(b: u64) -> u64 {
    b & 0xf_ffff_ffff_ffffu64
}

/// Magnitude bits: the pattern with the sign cleared, i.e. the bits of the
/// absolute value.
pub open spec fn mag_of(b: u64) -> u64 {
    b & 0x7fff_ffff_ffff_ffffu64
}

/// The pattern encodes a NaN: exponent all ones, fraction non-zero.
pub open spec fn is_nan_bits(b: u64) -> bool {
    exp_of(b) == 0x7ffu64 && frac_of(b) != 0u64
}

/// The pattern encodes a zero (either `0.0` or `-0.0`).
pub open spec fn is_zero_bits(b: u64) -> bool {
    mag_of(b) == 0u64
}

/// IEEE equality of two doubles given by their patterns: NaN equals
/// nothing, the two zeros are equal, and otherwise equal patterns only.
pub open spec fn f64_eq_bits(a: u64, b: u64) -> bool {
    &&& !is_nan_bits(a)
    &&& !is_nan_bits(b)
    &&& (a == b || (is_zero_bits(a) && is_zero_bits(b)))
}

/// IEEE `<` of two doubles given by their patterns. Comparisons involving
/// a NaN are false; the two zeros are not below one another; otherwise a
/// negative is below a positive, positives order by magnitude, and
/// negatives order by reversed magnitude.
pub open spec fn f64_lt_bits(a: u64, b: u64) -> bool {
    &&& !is_nan_bits(a)
    &&& !is_nan_bits(b)
    &&& !(is_zero_bits(a) && is_zero_bits(b))
    &&& (if sign_of(a) != sign_of(b) {
        sign_of(a) == 1u64
    } else if sign_of(a) == 0u64 {
        mag_of(a) < mag_of(b)
    } else {
        mag_of(b) < mag_of(a)
    })
}

/// IEEE `<=`.
pub open spec fn f64_le_bits(a: u64, b: u64) -> bool {
    f64_lt_bits(a, b) || f64_eq_bits(a, b)
}

/// IEEE `>`.
pub open spec fn f64_gt_bits(a: u64, b: u64) -> bool {
    f64_lt_bits(b, a)
}

/// IEEE `>=`.
pub open spec fn f64_ge_bits(a: u64, b: u64) -> bool {
    f64_le_bits(b, a)
}

/// Whether the pattern encodes a NaN.
pub fn f64_is_nan(b: u64) -> (r: bool)
    ensures
        r == is_nan_bits(b),
{
    ((b >> 52u64) & 0x7ffu64) == 0x7ffu64 && (b & 0xf_ffff_ffff_ffffu64) != 0u64
}

/// The bits of the absolute value: the sign bit cleared.
pub fn f64_abs_bits(b: u64) -> (r: u64)
    ensures
        r == mag_of(b),
{
    b & 0x7fff_ffff_ffff_ffffu64
}

/// IEEE `<` on two patterns.
pub fn f64_lt(a: u64, b: u64) -> (r: bool)
    ensures
        r == f64_lt_bits(a, b),
{
    if f64_is_nan(a) || f64_is_nan(b) {
        false
    } else if (a & 0x7fff_ffff_ffff_ffffu64) == 0u64 && (b & 0x7fff_ffff_ffff_ffffu64) == 0u64 {
        false
    } else {
        let sa = a >> 63u64;
        let sb = b >> 63u64;
        if sa != sb {
            sa == 1u64
        } else if sa == 0u64 {
            (a & 0x7fff_ffff_ffff_ffffu64) < (b & 0x7fff_ffff_ffff_ffffu64)
        } else {
            (b & 0x7fff_ffff_ffff_ffffu64) < (a & 0x7fff_ffff_ffff_ffffu64)
        }
    }
}

/// IEEE `==` on two patterns.
pub fn f64_eq(a: u64, b: u64) -> (r: bool)
    ensures
        r == f64_eq_bits(a, b),
{
    if f64_is_nan(a) || f64_is_nan(b) {
        false
    } else {
        a == b || ((a & 0x7fff_ffff_ffff_ffffu64) == 0u64 && (b & 0x7fff_ffff_ffff_ffffu64)
            == 0u64)
    }
}

/// IEEE `<=` on two patterns.
pub fn f64_le(a: u64, b: u64) -> (r: bool)
    ensures
        r == f64_le_bits(a, b),
{
    f64_lt(a, b) || f64_eq(a, b)
}

/// IEEE `>` on two patterns.
pub fn f64_gt(a: u64, b: u64) -> (r: bool)
    ensures
        r == f64_gt_bits(a, b),
{
    f64_lt(b, a)
}

/// IEEE `>=` on two patterns.
pub fn f64_ge(a: u64, b: u64) -> (r: bool)
    ensures
        r == f64_ge_bits(a, b),
{
    f64_le(b, a)
}

/// Truncation of a double toward zero into a `u64`, with the saturation
/// the `as` cast of Rust applies: NaN and negative values give 0, values
/// at or above `2^64` give `u64::MAX`, and otherwise the integer part is
/// read off the mantissa.
pub open spec fn f64_trunc_u64_bits(b: u64) -> u64 {
    if is_nan_bits(b) {
        0u64
    } else if sign_of(b) == 1u64 {
        0u64
    } else if exp_of(b) < 1023u64 {
        0u64
    } else if exp_of(b) >= 1087u64 {
        0xffff_ffff_ffff_ffffu64
    } else if exp_of(b) <= 1075u64 {
        (frac_of(b) | 0x10_0000_0000_0000u64) >> ((1075u64 - exp_of(b)) as u64)
    } else {
        (frac_of(b) | 0x10_0000_0000_0000u64) << ((exp_of(b) - 1075u64) as u64)
    }
}

/// Truncates a double, given by its pattern, toward zero into a `u64`,
/// saturating as the `as` cast of Rust does.
pub fn f64_trunc_u64(b: u64) -> (r: u64)
    ensures
        r == f64_trunc_u64_bits(b),
{
    let e = (b >> 52u64) & 0x7ffu64;
    let f = b & 0xf_ffff_ffff_ffffu64;
    if e == 0x7ffu64 && f != 0u64 {
        0u64
    } else if (b >> 63u64) == 1u64 {
        0u64
    } else if e < 1023u64 {
        0u64
    } else if e >= 1087u64 {
        0xffff_ffff_ffff_ffffu64
    } else if e <= 1075u64 {
        (f | 0x10_0000_0000_0000u64) >> (1075u64 - e)
    } else {
        (f | 0x10_0000_0000_0000u64) << (e - 1075u64)
    }
}

/// Position of the highest set bit (0 for the values 0 and 1).
pub open spec fn spec_msb(n: nat) -> nat
    decreases n,
{
    if n < 2 {
        0
    } else {
        1 + spec_msb((n / 2) as nat)
    }
}

/// The highest set bit brackets the value: `2^msb(n) <= n < 2^(msb(n)+1)`.
pub proof fn lemma_msb_range(n: nat)
    requires
        n >= 1,
    ensures
        pow2(spec_msb(n)) <= n < pow2(spec_msb(n) + 1),
    decreases n,
{
    if n < 2 {
        lemma2_to64();
    } else {
        lemma_msb_range((n / 2) as nat);
        lemma_pow2_adds(spec_msb((n / 2) as nat), 1);
        lemma_pow2_adds(spec_msb((n / 2) as nat) + 1, 1);
        lemma2_to64();
    }
}

/// The pattern of the double that encodes a natural number below `2^53`
/// (every such number is a double exactly): biased exponent `1023 + p` for
/// the highest set bit `p`, and the remaining bits left-aligned into the
/// fraction field.
pub open spec fn f64_bits_of_nat(n: nat) -> u64 {
    if n == 0 {
        0u64
    } else {
        (((1023 + spec_msb(n)) * pow2(52) + (n - pow2(spec_msb(n))) * pow2(
            (52 - spec_msb(n)) as nat,
        )) as u64)
    }
}

/// Position of the highest set bit of a value below `2^53`.
fn msb_u64(n: u64) -> (r: u64)
    requires
        1 <= n < 0x20_0000_0000_0000u64,
    ensures
        r as nat == spec_msb(n as nat),
        r <= 52,
    decreases n,
{
    proof {
        lemma_msb_range(n as nat);
        if spec_msb(n as nat) > 53 {
            lemma_pow2_strictly_increases(53, spec_msb(n as nat));
        }
        lemma2_to64();
        lemma2_to64_rest();
    }
    if n < 2 {
        0
    } else {
        1 + msb_u64(n / 2)
    }
}

/// `2^e` as a `u64`.
fn pow2_u64(e: u64) -> (r: u64)
    requires
        e <= 63,
    ensures
        r as nat == pow2(e as nat),
{
    proof {
        if e < 63 {
            lemma_pow2_strictly_increases(e as nat, 63);
        }
        lemma2_to64();
        lemma2_to64_rest();
        lemma_u64_shl_is_mul(1u64, e);
    }
    1u64 << e
}

/// Encodes a row index as the pattern of the double with that exact value.
/// Indexes below `2^53` are all exactly representable.
pub fn f64_bits_of_index(n: u64) -> (r: u64)
    requires
        n < 0x20_0000_0000_0000u64,
    ensures
        r == f64_bits_of_nat(n as nat),
{
    if n == 0 {
        0u64
    } else {
        let p = msb_u64(n);
        let pe = pow2_u64(p);
        let scale = pow2_u64(52 - p);
        proof {
            lemma_msb_range(n as nat);
            lemma_pow2_adds(p as nat, 1);
            lemma_pow2_adds(p as nat, (52 - p) as nat);
            lemma_pow2_pos((52 - p) as nat);
            lemma2_to64();
            lemma2_to64_rest();
            assert(n < 2 * pe);
            lemma_mul_strict_inequality(
                (n - pe) as int,
                pe as int,
                scale as int,
            );
        }
        let hi = (1023 + p) * 0x10_0000_0000_0000u64;
        let rest = (n - pe) * scale;
        hi + rest
    }
}

/// The sign field is one bit.
proof fn lemma_sign_bounds(x: u64)
    ensures
        sign_of(x) == 0 || sign_of(x) == 1,
{
    assert(x >> 63u64 == 0 || x >> 63u64 == 1) by (bit_vector);
}

/// On non-NaN patterns the order is total: two values compare below,
/// above, or equal.
pub proof fn lemma_f64_trichotomy(a: u64, b: u64)
    requires
        !is_nan_bits(a),
        !is_nan_bits(b),
    ensures
        f64_lt_bits(a, b) || f64_lt_bits(b, a) || f64_eq_bits(a, b),
{
    lemma_sign_bounds(a);
    lemma_sign_bounds(b);
    if !f64_lt_bits(a, b) && !f64_lt_bits(b, a) && !f64_eq_bits(a, b) {
        assert((a >> 63u64) == (b >> 63u64) && (a & 0x7fff_ffff_ffff_ffffu64) == (b
            & 0x7fff_ffff_ffff_ffffu64) ==> a == b) by (bit_vector);
    }
}

/// The order is transitive.
pub proof fn lemma_f64_lt_trans(a: u64, b: u64, c: u64)
    requires
        f64_lt_bits(a, b),
        f64_lt_bits(b, c),
    ensures
        f64_lt_bits(a, c),
{
    lemma_sign_bounds(a);
    lemma_sign_bounds(b);
    lemma_sign_bounds(c);
}

/// `<=` is transitive as well.
pub proof fn lemma_f64_le_trans(a: u64, b: u64, c: u64)
    requires
        f64_le_bits(a, b),
        f64_le_bits(b, c),
    ensures
        f64_le_bits(a, c),
{
    lemma_sign_bounds(a);
    lemma_sign_bounds(b);
    lemma_sign_bounds(c);
    if f64_lt_bits(a, b) && f64_lt_bits(b, c) {
        lemma_f64_lt_trans(a, b, c);
    }
}

/// The largest non-NaN value among the present cells of a series, folded
/// left to right; `None` when no cell holds a non-NaN value.
pub open spec fn spec_fold_max(s: Seq<Option<u64>>) -> Option<u64>
    decreases s.len(),
{
    if s.len() == 0 {
        None
    } else {
        let rest = spec_fold_max(s.drop_last());
        match s.last() {
            None => rest,
            Some(v) => if is_nan_bits(v) {
                rest
            } else {
                match rest {
                    None => Some(v),
                    Some(m) => if f64_lt_bits(m, v) {
                        Some(v)
                    } else {
                        Some(m)
                    },
                }
            },
        }
    }
}

/// The smallest non-NaN value among the present cells, folded the same way.
pub open spec fn spec_fold_min(s: Seq<Option<u64>>) -> Option<u64>
    decreases s.len(),
{
    if s.len() == 0 {
        None
    } else {
        let rest = spec_fold_min(s.drop_last());
        match s.last() {
            None => rest,
            Some(v) => if is_nan_bits(v) {
                rest
            } else {
                match rest {
                    None => Some(v),
                    Some(m) => if f64_lt_bits(v, m) {
                        Some(v)
                    } else {
                        Some(m)
                    },
                }
            },
        }
    }
}

/// The fold maximum deserves its name: it is a present non-NaN cell, no
/// present non-NaN cell exceeds it, and it is absent exactly when no
/// cell holds a non-NaN value.
pub proof fn lemma_fold_max_bounds(s: Seq<Option<u64>>)
    ensures
        match spec_fold_max(s) {
            None => forall|k: int|
                0 <= k < s.len() ==> (#[trigger] s[k] matches Some(v) ==> is_nan_bits(v)),
            Some(m) => !is_nan_bits(m) && (exists|k: int| 0 <= k < s.len() && s[k] == Some(m)) && (
            forall|k: int|
                0 <= k < s.len() ==> (#[trigger] s[k] matches Some(v) ==> (is_nan_bits(v)
                    || f64_le_bits(v, m)))),
        },
    decreases s.len(),
{
    if s.len() > 0 {
        lemma_fold_max_bounds(s.drop_last());
        let rest = spec_fold_max(s.drop_last());
        assert(forall|k: int| 0 <= k < s.len() - 1 ==> s[k] == s.drop_last()[k]);
        match s.last() {
            None => {},
            Some(v) => if !is_nan_bits(v) {
                match rest {
                    None => {},
                    Some(m) => if f64_lt_bits(m, v) {
                        assert forall|k: int|
                            0 <= k < s.len() && s[k] is Some && !is_nan_bits(
                                #[trigger] s[k]->Some_0,
                            ) implies f64_le_bits(s[k]->Some_0, v) by {
                            if k < s.len() - 1 {
                                lemma_f64_le_trans(s[k]->Some_0, m, v);
                            }
                        }
                    } else {
                        lemma_f64_trichotomy(m, v);
                    },
                }
            },
        }
    }
}

/// The fold minimum, likewise: a present non-NaN cell below every other
/// present non-NaN cell.
pub proof fn lemma_fold_min_bounds(s: Seq<Option<u64>>)
    ensures
        match spec_fold_min(s) {
            None => forall|k: int|
                0 <= k < s.len() ==> (#[trigger] s[k] matches Some(v) ==> is_nan_bits(v)),
            Some(m) => !is_nan_bits(m) && (exists|k: int| 0 <= k < s.len() && s[k] == Some(m)) && (
            forall|k: int|
                0 <= k < s.len() ==> (#[trigger] s[k] matches Some(v) ==> (is_nan_bits(v)
                    || f64_le_bits(m, v)))),
        },
    decreases s.len(),
{
    if s.len() > 0 {
        lemma_fold_min_bounds(s.drop_last());
        let rest = spec_fold_min(s.drop_last());
        assert(forall|k: int| 0 <= k < s.len() - 1 ==> s[k] == s.drop_last()[k]);
        match s.last() {
            None => {},
            Some(v) => if !is_nan_bits(v) {
                match rest {
                    None => {},
                    Some(m) => if f64_lt_bits(v, m) {
                        assert forall|k: int|
                            0 <= k < s.len() && s[k] is Some && !is_nan_bits(
                                #[trigger] s[k]->Some_0,
                            ) implies f64_le_bits(v, s[k]->Some_0) by {
                            if k < s.len() - 1 {
                                lemma_f64_le_trans(v, m, s[k]->Some_0);
                            }
                        }
                    } else {
                        lemma_f64_trichotomy(m, v);
                    },
                }
            },
        }
    }
}

/// Largest non-NaN value of a series of optional doubles.
pub fn series_max(s: &Vec<Option<u64>>) -> (r: Option<u64>)
    ensures
        r == spec_fold_max(s@),
{
    let mut acc: Option<u64> = None;
    let mut i: usize = 0;
    while i < s.len()
        invariant
            i <= s.len(),
            acc == spec_fold_max(s@.take(i as int)),
        decreases s.len() - i,
    {
        proof {
            assert(s@.take(i + 1).drop_last() =~= s@.take(i as int));
            assert(s@.take(i + 1).last() == s@[i as int]);
        }
        match s[i] {
            None => {},
            Some(v) => {
                if !f64_is_nan(v) {
                    match acc {
                        None => {
                            acc = Some(v);
                        },
                        Some(m) => {
                            if f64_lt(m, v) {
                                acc = Some(v);
                            }
                        },
                    }
                }
            },
        }
        i = i + 1;
    }
    proof {
        assert(s@.take(s@.len() as int) =~= s@);
    }
    acc
}

/// Smallest non-NaN value of a series of optional doubles.
pub fn series_min(s: &Vec<Option<u64>>) -> (r: Option<u64>)
    ensures
        r == spec_fold_min(s@),
{
    let mut acc: Option<u64> = None;
    let mut i: usize = 0;
    while i < s.len()
        invariant
            i <= s.len(),
            acc == spec_fold_min(s@.take(i as int)),
        decreases s.len() - i,
    {
        proof {
            assert(s@.take(i + 1).drop_last() =~= s@.take(i as int));
            assert(s@.take(i + 1).last() == s@[i as int]);
        }
        match s[i] {
            None => {},
            Some(v) => {
                if !f64_is_nan(v) {
                    match acc {
                        None => {
                            acc = Some(v);
                        },
                        Some(m) => {
                            if f64_lt(v, m) {
                                acc = Some(v);
                            }
                        },
                    }
                }
            },
        }
        i = i + 1;
    }
    proof {
        assert(s@.take(s@.len() as int) =~= s@);
    }
    acc
}

} // verus!
