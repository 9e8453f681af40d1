//! Unit tests of the bit-level model: IEEE ordering and truncation,
//! index encoding, lexical encoding, hex decoding, and SI tiers.

use plotxy::color::decode_hex_color;
use plotxy::errors::PlotError;
use plotxy::ieee::{f64_abs_bits, f64_bits_of_index, f64_eq, f64_ge, f64_gt, f64_is_nan, f64_le,
    f64_lt, f64_trunc_u64, series_max, series_min};
use plotxy::lexical::{bytes_eq, bytes_lt, categorical_encode};
use plotxy::si::{si_scale_exponent, si_suffix, si_tier, SiTier};

fn sample_doubles() -> Vec<f64> {
    vec![
        0.0,
        -0.0,
        1.0,
        -1.0,
        0.5,
        -0.5,
        1.5,
        2.0,
        10.0,
        30.0,
        1e-308,
        5e-324,
        -5e-324,
        1e308,
        -1e308,
        f64::INFINITY,
        f64::NEG_INFINITY,
        f64::NAN,
        f64::MAX,
        f64::MIN,
        1234.5678,
        -1234.5678,
        0.4,
    ]
}

#[test]
fn ordering_matches_hardware_comparisons() {
    let vals = sample_doubles();
    for &a in &vals {
        for &b in &vals {
            let ab = (a.to_bits(), b.to_bits());
            assert_eq!(f64_lt(ab.0, ab.1), a < b, "lt {} {}", a, b);
            assert_eq!(f64_le(ab.0, ab.1), a <= b, "le {} {}", a, b);
            assert_eq!(f64_gt(ab.0, ab.1), a > b, "gt {} {}", a, b);
            assert_eq!(f64_ge(ab.0, ab.1), a >= b, "ge {} {}", a, b);
            assert_eq!(f64_eq(ab.0, ab.1), a == b, "eq {} {}", a, b);
        }
        assert_eq!(f64_is_nan(a.to_bits()), a.is_nan());
        assert_eq!(f64_abs_bits(a.to_bits()), a.abs().to_bits());
    }
}

#[test]
fn truncation_matches_as_cast() {
    for &v in &sample_doubles() {
        assert_eq!(f64_trunc_u64(v.to_bits()), v as u64, "trunc {}", v);
    }
    assert_eq!(f64_trunc_u64((3.9f64).to_bits()), 3);
    assert_eq!(f64_trunc_u64((-3.9f64).to_bits()), 0);
    assert_eq!(f64_trunc_u64(f64::NAN.to_bits()), 0);
    assert_eq!(f64_trunc_u64(f64::INFINITY.to_bits()), u64::MAX);
}

#[test]
fn index_encoding_matches_as_cast() {
    for i in [0u64, 1, 2, 3, 7, 10, 255, 1024, 123456789, (1 << 52) + 17, (1 << 53) - 1] {
        assert_eq!(f64_bits_of_index(i), (i as f64).to_bits(), "index {}", i);
    }
}

#[test]
fn series_extremes_skip_missing_and_nan() {
    let bits = |v: f64| Some(v.to_bits());
    let s = vec![None, bits(3.0), bits(f64::NAN), bits(-7.0), None, bits(10.0)];
    assert_eq!(series_max(&s), Some((10.0f64).to_bits()));
    assert_eq!(series_min(&s), Some((-7.0f64).to_bits()));
    let empty: Vec<Option<u64>> = vec![None, bits(f64::NAN)];
    assert_eq!(series_max(&empty), None);
    assert_eq!(series_min(&empty), None);
}

#[test]
fn byte_order_matches_slice_order() {
    let words: Vec<&[u8]> = vec![b"", b"a", b"ab", b"abc", b"b", b"ba", b"z", b"aa"];
    for &x in &words {
        for &y in &words {
            assert_eq!(bytes_lt(&x.to_vec(), &y.to_vec()), x < y, "{:?} {:?}", x, y);
            assert_eq!(bytes_eq(&x.to_vec(), &y.to_vec()), x == y);
        }
    }
}

#[test]
fn categorical_levels_are_sorted_distinct_ranks() {
    let cell = |s: &[u8]| Some(s.to_vec());
    let cells = vec![cell(b"pear"), cell(b"apple"), None, cell(b"pear"), cell(b"fig")];
    let (levels, idx) = categorical_encode(&cells);
    let expected: Vec<Vec<u8>> = vec![b"apple".to_vec(), b"fig".to_vec(), b"pear".to_vec()];
    assert_eq!(levels, expected);
    assert_eq!(idx, vec![2, 0, 0, 2, 1]);
}

#[test]
fn categorical_ranks_are_deterministic() {
    let cell = |s: &[u8]| Some(s.to_vec());
    let cells = vec![cell(b"x"), cell(b"y"), cell(b"x"), cell(b"y"), cell(b"x")];
    let (_, idx) = categorical_encode(&cells);
    assert_eq!(idx[0], idx[2]);
    assert_eq!(idx[0], idx[4]);
    assert_eq!(idx[1], idx[3]);
    assert_ne!(idx[0], idx[1]);
}

#[test]
fn hex_decode_accepts_six_digits() {
    let c = decode_hex_color(&b"1E88E5".to_vec()).unwrap();
    assert_eq!((c.r, c.g, c.b), (0x1E, 0x88, 0xE5));
    let c = decode_hex_color(&b"00ff07".to_vec()).unwrap();
    assert_eq!((c.r, c.g, c.b), (0x00, 0xFF, 0x07));
}

#[test]
fn hex_decode_rejects_other_lengths() {
    assert_eq!(decode_hex_color(&b"1E".to_vec()), Err(PlotError::InvalidColorFormat));
    assert_eq!(decode_hex_color(&b"1E88E".to_vec()), Err(PlotError::InvalidColorFormat));
    assert_eq!(decode_hex_color(&b"1E88E5A".to_vec()), Err(PlotError::InvalidColorFormat));
    assert_eq!(decode_hex_color(&b"1E88EG".to_vec()), Err(PlotError::InvalidColorFormat));
    assert_eq!(decode_hex_color(&b"".to_vec()), Err(PlotError::InvalidColorFormat));
}

fn format_si(v: f64) -> String {
    let tier = si_tier(v.to_bits());
    if tier == SiTier::Zero {
        return "0".to_string();
    }
    if tier == SiTier::Scientific {
        return format!("{:.2e}", v);
    }
    let scaled = v / 10f64.powi(si_scale_exponent(tier));
    match si_suffix(tier) {
        Some(s) => format!("{:.2}{}", scaled, s),
        None => format!("{:.2}", scaled),
    }
}

#[test]
fn si_formatter_examples() {
    assert_eq!(format_si(1500.0), "1.50K");
    assert_eq!(format_si(0.0), "0");
    assert_eq!(format_si(0.0025), "2.50m");
    assert_eq!(format_si(42.0), "42.00");
    assert_eq!(format_si(2.5e9), "2.50G");
    assert_eq!(format_si(7.2e6), "7.20M");
    assert_eq!(format_si(1e12), "1.00T");
    assert_eq!(format_si(3.1e-6), "3.10µ");
    assert_eq!(format_si(4e-9), "4.00n");
    assert_eq!(format_si(5e-12), "5.00p");
}

#[test]
fn si_keeps_tera_as_top_tier() {
    assert_eq!(si_tier((3e15f64).to_bits()), SiTier::Tera);
    assert_eq!(format_si(3e15), "3000.00T");
}

#[test]
fn si_falls_back_to_scientific_below_pico() {
    assert_eq!(si_tier((1e-13f64).to_bits()), SiTier::Scientific);
    assert_eq!(si_tier((0.0f64).to_bits()), SiTier::Zero);
    assert_eq!(si_tier((-0.0f64).to_bits()), SiTier::Zero);
    assert_eq!(si_tier((-1500.0f64).to_bits()), SiTier::Kilo);
}
