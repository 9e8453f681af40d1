//! Per-row color strategies.
//!
//! Exactly one of three strategies colors a plot, selected by which
//! optional column is configured: a categorical facet column wins over a
//! gradient column, and with neither every row gets the same solid
//! color. The solid color string is validated whichever strategy runs,
//! as the pipeline decodes it before selecting a strategy.
//!
//! A facet cell selects a palette entry: a numeric cell by truncation
//! toward zero (negative, missing and NaN cells select entry 0), a text
//! cell by the rank of its value in the lexical order of the distinct
//! observed values. A gradient column maps its observed `[min, max]`
//! span onto a fixed yellow-to-red ramp; the ramp interpolation itself
//! is floating-point work left to the renderer, and the plan records the
//! span, the per-row values, and the alpha to apply.
//!
//! A gradient column must be numeric as a whole: a column the ingestion
//! typed as text fails with a non-numeric fault even when some of its
//! cells would parse as numbers. A mixed column meant for the gradient
//! must be cleaned to a numeric one upstream; only the categorical
//! facet accepts text.

use crate::errors::{ColumnRole, DataFault, PlotError};
use crate::ieee::{f64_trunc_u64, f64_trunc_u64_bits, spec_fold_max, spec_fold_min, series_max,
    series_min, F64_ZERO};
use crate::lexical::{categorical_encode, lemma_lex_irrefl, occurs, strictly_ascending};
use crate::table::{ColumnData, Table};
use plotters::style::{Color, Palette, Palette99};
use vstd::prelude::*;

verus! {

/// An opaque RGB color.
#[derive(Debug, Clone, Copy, PartialEq, Eq, Structural)]
pub struct Rgb {
    pub r: u8,
    pub g: u8,
    pub b: u8,
}

/// The palette entry plotters' `Palette99` yields for an index: `pick`
/// reduces the index modulo its fixed 21-entry color table and reads the
/// entry, a pure function of the index.
pub uninterp spec fn palette_rgb(i: int) -> (u8, u8, u8);

/// Relies on plotters' `Palette99::pick`, which selects from a fixed
/// 21-entry color table by the index modulo the table length — a pure
/// function of the index, periodic in the table length (the index is
/// passed as a `usize`, lossless on this 64-bit target).
#[verifier::external_body]
fn palette99_pick(idx: u64) -> (r: (u8, u8, u8))
    ensures
        r == palette_rgb(idx as int),
        r == palette_rgb((idx as int) % 21),
{
    let c = Palette99::pick(idx as usize).rgb();
    (c.0, c.1, c.2)
}

/// Value of one hexadecimal digit character, as a byte.
pub open spec fn spec_hex_val(c: u8) -> Option<u8> {
    if 0x30 <= c <= 0x39 {
        Some((c - 0x30) as u8)
    } else if 0x61 <= c <= 0x66 {
        Some((c - 0x61 + 10) as u8)
    } else if 0x41 <= c <= 0x46 {
        Some((c - 0x41 + 10) as u8)
    } else {
        None
    }
}

/// The string is exactly six hexadecimal digits.
pub open spec fn spec_hex_ok(s: Seq<u8>) -> bool {
    s.len() == 6 && forall|i: int| 0 <= i < 6 ==> #[trigger] spec_hex_val(s[i]) is Some
}

/// The byte two hexadecimal digits encode.
pub open spec fn spec_hex_byte(hi: u8, lo: u8) -> u8 {
    ((spec_hex_val(hi)->Some_0) * 16 + (spec_hex_val(lo)->Some_0)) as u8
}

/// The color a six-digit hexadecimal string encodes.
pub open spec fn spec_hex_rgb(s: Seq<u8>) -> Rgb
    recommends
        spec_hex_ok(s),
{
    Rgb {
        r: spec_hex_byte(s[0], s[1]),
        g: spec_hex_byte(s[2], s[3]),
        b: spec_hex_byte(s[4], s[5]),
    }
}

/// Value of one hexadecimal digit character.
fn hex_val(c: u8) -> (r: Option<u8>)
    ensures
        r == spec_hex_val(c),
        r matches Some(v) ==> v < 16,
{
    if 0x30 <= c && c <= 0x39 {
        Some(c - 0x30)
    } else if 0x61 <= c && c <= 0x66 {
        Some(c - 0x61 + 10)
    } else if 0x41 <= c && c <= 0x46 {
        Some(c - 0x41 + 10)
    } else {
        None
    }
}

/// Decodes a six-digit hexadecimal color string; any other string is an
/// invalid color format.
pub fn decode_hex_color(s: &Vec<u8>) -> (r: Result<Rgb, PlotError>)
    ensures
        spec_hex_ok(s@) ==> r == Ok::<Rgb, PlotError>(spec_hex_rgb(s@)),
        !spec_hex_ok(s@) ==> r == Err::<Rgb, PlotError>(PlotError::InvalidColorFormat),
{
    if s.len() != 6 {
        return Err(PlotError::InvalidColorFormat);
    }
    let h0 = match hex_val(s[0]) {
        Some(v) => v,
        None => {
            return Err(PlotError::InvalidColorFormat);
        },
    };
    let h1 = match hex_val(s[1]) {
        Some(v) => v,
        None => {
            return Err(PlotError::InvalidColorFormat);
        },
    };
    let h2 = match hex_val(s[2]) {
        Some(v) => v,
        None => {
            return Err(PlotError::InvalidColorFormat);
        },
    };
    let h3 = match hex_val(s[3]) {
        Some(v) => v,
        None => {
            return Err(PlotError::InvalidColorFormat);
        },
    };
    let h4 = match hex_val(s[4]) {
        Some(v) => v,
        None => {
            return Err(PlotError::InvalidColorFormat);
        },
    };
    let h5 = match hex_val(s[5]) {
        Some(v) => v,
        None => {
            return Err(PlotError::InvalidColorFormat);
        },
    };
    proof {
        assert forall|i: int| 0 <= i < 6 implies #[trigger] spec_hex_val(s@[i]) is Some by {
            if i == 0 {
            } else if i == 1 {
            } else if i == 2 {
            } else if i == 3 {
            } else if i == 4 {
            } else {
                assert(i == 5);
            }
        }
    }
    Ok(Rgb { r: h0 * 16 + h1, g: h2 * 16 + h3, b: h4 * 16 + h5 })
}

/// The palette index a numeric facet cell selects: the value truncated
/// toward zero, with missing cells (and so negative and NaN values too)
/// at entry 0.
pub open spec fn spec_facet_index(o: Option<u64>) -> u64 {
    match o {
        None => 0u64,
        Some(v) => f64_trunc_u64_bits(v),
    }
}

/// The interpolation input a gradient cell yields: its value, with
/// missing cells at `0.0`.
pub open spec fn spec_gradient_value(o: Option<u64>) -> u64 {
    match o {
        None => F64_ZERO,
        Some(v) => v,
    }
}

/// `levels` is the lexical level list of `cells`: strictly ascending,
/// and holding exactly the distinct present values.
pub open spec fn lex_levels_of(cells: Seq<Option<Vec<u8>>>, levels: Seq<Vec<u8>>) -> bool {
    &&& strictly_ascending(levels)
    &&& forall|i: int| 0 <= i < levels.len() ==> occurs(cells, #[trigger] levels[i]@)
    &&& forall|k: int|
        0 <= k < cells.len() ==> (#[trigger] cells[k] matches Some(cv) ==> exists|i: int|
            0 <= i < levels.len() && #[trigger] levels[i]@ == cv@)
}

/// `idx` assigns each cell the rank of its value among the lexical
/// levels, with missing cells at rank 0.
pub open spec fn categorical_assignment(
    cells: Seq<Option<Vec<u8>>>,
    levels: Seq<Vec<u8>>,
    idx: Seq<u64>,
) -> bool {
    &&& lex_levels_of(cells, levels)
    &&& idx.len() == cells.len()
    &&& forall|k: int|
        0 <= k < cells.len() ==> (#[trigger] cells[k] matches Some(cv)
            ==> idx[k] < levels.len() && levels[idx[k] as int]@ == cv@)
    &&& forall|k: int| 0 <= k < cells.len() ==> (#[trigger] cells[k] is None ==> idx[k] == 0)
}

/// Equal text cells receive equal ranks: the rank is a function of the
/// cell's value alone, not of its row.
pub proof fn lemma_categorical_deterministic(
    cells: Seq<Option<Vec<u8>>>,
    levels: Seq<Vec<u8>>,
    idx: Seq<u64>,
    k1: int,
    k2: int,
)
    requires
        categorical_assignment(cells, levels, idx),
        0 <= k1 < cells.len(),
        0 <= k2 < cells.len(),
        cells[k1] matches Some(a) && cells[k2] matches Some(b) && a@ == b@,
    ensures
        idx[k1] == idx[k2],
{
    let i1 = idx[k1] as int;
    let i2 = idx[k2] as int;
    if i1 < i2 {
        assert(crate::lexical::lex_lt(levels[i1]@, levels[i2]@));
        lemma_lex_irrefl(levels[i1]@);
    } else if i2 < i1 {
        assert(crate::lexical::lex_lt(levels[i2]@, levels[i1]@));
        lemma_lex_irrefl(levels[i1]@);
    }
}

/// The categorical assignment of a text series is unique: any two level
/// lists and index assignments that satisfy it agree, so the encoding is
/// stable — it depends on the observed values alone.
pub proof fn lemma_categorical_assignment_unique(
    cells: Seq<Option<Vec<u8>>>,
    l1: Seq<Vec<u8>>,
    i1: Seq<u64>,
    l2: Seq<Vec<u8>>,
    i2: Seq<u64>,
)
    requires
        categorical_assignment(cells, l1, i1),
        categorical_assignment(cells, l2, i2),
    ensures
        i1 =~= i2,
{
    assert forall|i: int| 0 <= i < l1.len() implies crate::lexical::member(
        (#[trigger] l1[i])@,
        l2,
    ) by {
        assert(occurs(cells, l1[i]@));
        let k = choose|k: int|
            0 <= k < cells.len() && (#[trigger] cells[k] matches Some(cv) && cv@ == l1[i]@);
        assert(cells[k] matches Some(cv) ==> exists|j: int|
            0 <= j < l2.len() && #[trigger] l2[j]@ == cv@);
    }
    assert forall|j: int| 0 <= j < l2.len() implies crate::lexical::member(
        (#[trigger] l2[j])@,
        l1,
    ) by {
        assert(occurs(cells, l2[j]@));
        let k = choose|k: int|
            0 <= k < cells.len() && (#[trigger] cells[k] matches Some(cv) && cv@ == l2[j]@);
        assert(cells[k] matches Some(cv) ==> exists|i: int|
            0 <= i < l1.len() && #[trigger] l1[i]@ == cv@);
    }
    crate::lexical::lemma_levels_unique(l1, l2);
    assert forall|k: int| 0 <= k < cells.len() implies i1[k] == i2[k] by {
        if cells[k] is Some {
            let p1 = i1[k] as int;
            let p2 = i2[k] as int;
            assert(l1[p1]@ == l2[p2]@);
            assert(l1[p2]@ == l2[p2]@);
            if p1 < p2 {
                assert(crate::lexical::lex_lt(l1[p1]@, l1[p2]@));
                lemma_lex_irrefl(l1[p1]@);
            } else if p2 < p1 {
                assert(crate::lexical::lex_lt(l1[p2]@, l1[p1]@));
                lemma_lex_irrefl(l1[p1]@);
            }
        }
    }
}

/// Two rows hold the same facet source value: equal bit patterns in a
/// numeric column, both absent or equal byte strings in a text column.
pub open spec fn same_facet_cell(col: ColumnData, k1: int, k2: int) -> bool {
    match col {
        ColumnData::Numeric(d) => d@[k1] == d@[k2],
        ColumnData::Text(cells) => (cells@[k1] is None && cells@[k2] is None) || (
        cells@[k1] matches Some(a) && (cells@[k2] matches Some(b) && a@ == b@)),
    }
}

/// The facet strategy is deterministic: within one resolved plan, two
/// rows with equal source values always receive the same palette index,
/// and so the same color — whichever type the facet column holds.
pub proof fn lemma_facet_deterministic(
    t: Table,
    c: usize,
    gradient: Option<usize>,
    hex: Seq<u8>,
    alpha: u64,
    p: ColorPlan,
    k1: int,
    k2: int,
)
    requires
        1 <= c <= t.columns@.len(),
        spec_color_plan_ok(t, Some(c), gradient, hex, alpha, p),
        0 <= k1 < t.columns@[c - 1].spec_len(),
        0 <= k2 < t.columns@[c - 1].spec_len(),
        same_facet_cell(t.columns@[c - 1], k1, k2),
    ensures
        p matches ColorPlan::Facet { indices, colors } && (indices@[k1] == indices@[k2]
            && colors@[k1] == colors@[k2]),
{
    match t.columns@[c - 1] {
        ColumnData::Numeric(_) => {},
        ColumnData::Text(cells) => {
            let indices = p->Facet_indices;
            let levels = choose|levels: Seq<Vec<u8>>|
                #[trigger] categorical_assignment(cells@, levels, indices@);
            if cells@[k1] is Some {
                lemma_categorical_deterministic(cells@, levels, indices@, k1, k2);
            }
        },
    }
}

/// The color plan of one run: what the renderer needs to color each row.
#[derive(Debug, Clone, PartialEq, Eq)]
pub enum ColorPlan {
    /// Every row in one color, blended with this alpha.
    Solid { rgb: Rgb, alpha: u64 },
    /// Per-row palette entries, drawn opaque.
    Facet { indices: Vec<u64>, colors: Vec<Rgb> },
    /// Per-row interpolation inputs over the observed span, with the
    /// alpha to apply to every interpolated color.
    Gradient { values: Vec<u64>, vmin: u64, vmax: u64, alpha: u64 },
}

/// The palette indices of a numeric facet column.
fn numeric_facet_indices(d: &Vec<Option<u64>>) -> (r: Vec<u64>)
    ensures
        r@.len() == d@.len(),
        forall|i: int| 0 <= i < d@.len() ==> r@[i] == spec_facet_index(d@[i]),
{
    let mut r: Vec<u64> = Vec::new();
    let mut i: usize = 0;
    while i < d.len()
        invariant
            i <= d@.len(),
            r@.len() == i,
            forall|m: int| 0 <= m < i ==> r@[m] == spec_facet_index(d@[m]),
        decreases d.len() - i,
    {
        match d[i] {
            None => {
                r.push(0);
            },
            Some(v) => {
                r.push(f64_trunc_u64(v));
            },
        }
        i = i + 1;
    }
    r
}

/// The palette colors of a list of indices.
fn palette_colors(indices: &Vec<u64>) -> (r: Vec<Rgb>)
    ensures
        r@.len() == indices@.len(),
        forall|i: int|
            0 <= i < indices@.len() ==> (#[trigger] r@[i]).r == palette_rgb(indices@[i] as int).0
                && r@[i].g == palette_rgb(indices@[i] as int).1 && r@[i].b == palette_rgb(
                indices@[i] as int,
            ).2,
{
    let mut r: Vec<Rgb> = Vec::new();
    let mut i: usize = 0;
    while i < indices.len()
        invariant
            i <= indices@.len(),
            r@.len() == i,
            forall|m: int|
                0 <= m < i ==> (#[trigger] r@[m]).r == palette_rgb(indices@[m] as int).0 && r@[m].g
                    == palette_rgb(indices@[m] as int).1 && r@[m].b == palette_rgb(
                    indices@[m] as int,
                ).2,
        decreases indices.len() - i,
    {
        let c = palette99_pick(indices[i]);
        r.push(Rgb { r: c.0, g: c.1, b: c.2 });
        i = i + 1;
    }
    r
}

/// The per-row interpolation inputs of a gradient column.
fn gradient_values(d: &Vec<Option<u64>>) -> (r: Vec<u64>)
    ensures
        r@.len() == d@.len(),
        forall|i: int| 0 <= i < d@.len() ==> r@[i] == spec_gradient_value(d@[i]),
{
    let mut r: Vec<u64> = Vec::new();
    let mut i: usize = 0;
    while i < d.len()
        invariant
            i <= d@.len(),
            r@.len() == i,
            forall|m: int| 0 <= m < i ==> r@[m] == spec_gradient_value(d@[m]),
        decreases d.len() - i,
    {
        match d[i] {
            None => {
                r.push(F64_ZERO);
            },
            Some(v) => {
                r.push(v);
            },
        }
        i = i + 1;
    }
    r
}

/// The error color resolution reports, if any: a malformed solid color
/// first whichever strategy is configured, then the faults of the
/// selected strategy (facet wins over gradient).
pub open spec fn spec_color_err(
    t: Table,
    facet: Option<usize>,
    gradient: Option<usize>,
    hex: Seq<u8>,
) -> Option<PlotError> {
    if !spec_hex_ok(hex) {
        Some(PlotError::InvalidColorFormat)
    } else {
        match facet {
            Some(c) => if !(1 <= c <= t.columns@.len()) {
                Some(PlotError::InvalidColumnIndex(ColumnRole::FacetSeries, c))
            } else {
                None
            },
            None => match gradient {
                Some(g) => if !(1 <= g <= t.columns@.len()) {
                    Some(PlotError::InvalidColumnIndex(ColumnRole::GradientSeries, g))
                } else {
                    match t.columns@[g - 1] {
                        ColumnData::Text(_) => Some(
                            PlotError::InvalidData(DataFault::NonNumeric(
                                ColumnRole::GradientSeries,
                            )),
                        ),
                        ColumnData::Numeric(d) => if spec_fold_min(d@) is None {
                            Some(
                                PlotError::InvalidData(DataFault::Empty(
                                    ColumnRole::GradientSeries,
                                )),
                            )
                        } else {
                            None
                        },
                    }
                },
                None => None,
            },
        }
    }
}

/// The per-row colors a plan carries are the palette entries of its
/// indices.
pub open spec fn palette_applied(indices: Seq<u64>, colors: Seq<Rgb>) -> bool {
    &&& colors.len() == indices.len()
    &&& forall|i: int|
        0 <= i < indices.len() ==> (#[trigger] colors[i]).r == palette_rgb(indices[i] as int).0
            && colors[i].g == palette_rgb(indices[i] as int).1 && colors[i].b == palette_rgb(
            indices[i] as int,
        ).2
}

/// What a successfully resolved color plan holds, per strategy.
pub open spec fn spec_color_plan_ok(
    t: Table,
    facet: Option<usize>,
    gradient: Option<usize>,
    hex: Seq<u8>,
    alpha: u64,
    p: ColorPlan,
) -> bool
    recommends
        spec_color_err(t, facet, gradient, hex) is None,
{
    match facet {
        Some(c) => match t.columns@[c - 1] {
            ColumnData::Numeric(d) => p matches ColorPlan::Facet { indices, colors } && (
            indices@.len() == d@.len() && (forall|i: int|
                0 <= i < d@.len() ==> indices@[i] == spec_facet_index(d@[i])) && palette_applied(
                indices@,
                colors@,
            )),
            ColumnData::Text(cells) => p matches ColorPlan::Facet { indices, colors } && (
            indices@.len() == cells@.len() && (exists|levels: Seq<Vec<u8>>|
                #[trigger] categorical_assignment(cells@, levels, indices@)) && palette_applied(
                indices@,
                colors@,
            )),
        },
        None => match gradient {
            Some(g) => match t.columns@[g - 1] {
                ColumnData::Numeric(d) => p matches ColorPlan::Gradient {
                    values,
                    vmin,
                    vmax,
                    alpha: a,
                } && (values@.len() == d@.len() && (forall|i: int|
                    0 <= i < d@.len() ==> values@[i] == spec_gradient_value(d@[i])) && Some(vmin)
                    == spec_fold_min(d@) && Some(vmax) == spec_fold_max(d@) && a == alpha),
                ColumnData::Text(_) => false,
            },
            None => p == ColorPlan::Solid { rgb: spec_hex_rgb(hex), alpha },
        },
    }
}

/// Resolves the color strategy of a run. The solid color string is
/// validated first whichever strategy is configured; a facet column wins
/// over a gradient column when both are given.
pub fn resolve_colors(
    t: &Table,
    facet: Option<usize>,
    gradient: Option<usize>,
    color_hex: &Vec<u8>,
    alpha: u64,
) -> (r: Result<ColorPlan, PlotError>)
    requires
        t.wf(),
    ensures
        match spec_color_err(*t, facet, gradient, color_hex@) {
            Some(e) => r == Err::<ColorPlan, PlotError>(e),
            None => r matches Ok(p) && spec_color_plan_ok(
                *t,
                facet,
                gradient,
                color_hex@,
                alpha,
                p,
            ),
        },
{
    let rgb = match decode_hex_color(color_hex) {
        Err(e) => {
            return Err(e);
        },
        Ok(rgb) => rgb,
    };
    match facet {
        Some(c) => {
            if c < 1 || c > t.width() {
                Err(PlotError::InvalidColumnIndex(ColumnRole::FacetSeries, c))
            } else {
                match &t.columns[c - 1] {
                    ColumnData::Numeric(d) => {
                        let indices = numeric_facet_indices(d);
                        let colors = palette_colors(&indices);
                        Ok(ColorPlan::Facet { indices, colors })
                    },
                    ColumnData::Text(cells) => {
                        let enc = categorical_encode(cells);
                        let ghost levels_w = enc.0@;
                        let indices = enc.1;
                        let colors = palette_colors(&indices);
                        proof {
                            assert(categorical_assignment(cells@, levels_w, indices@));
                        }
                        Ok(ColorPlan::Facet { indices, colors })
                    },
                }
            }
        },
        None => match gradient {
            Some(g) => {
                if g < 1 || g > t.width() {
                    Err(PlotError::InvalidColumnIndex(ColumnRole::GradientSeries, g))
                } else {
                    match &t.columns[g - 1] {
                        ColumnData::Text(_) => Err(
                            PlotError::InvalidData(DataFault::NonNumeric(
                                ColumnRole::GradientSeries,
                            )),
                        ),
                        ColumnData::Numeric(d) => {
                            let mn = series_min(d);
                            let mx = series_max(d);
                            match (mn, mx) {
                                (Some(vmin), Some(vmax)) => {
                                    let values = gradient_values(d);
                                    Ok(ColorPlan::Gradient { values, vmin, vmax, alpha })
                                },
                                _ => {
                                    proof {
                                        lemma_fold_min_max_agree(d@);
                                    }
                                    Err(
                                        PlotError::InvalidData(DataFault::Empty(
                                            ColumnRole::GradientSeries,
                                        )),
                                    )
                                },
                            }
                        },
                    }
                }
            },
            None => Ok(ColorPlan::Solid { rgb, alpha }),
        },
    }
}

/// The fold minimum and maximum of a series are both present or both
/// absent: each is absent exactly when no cell holds a non-NaN value.
pub proof fn lemma_fold_min_max_agree(s: Seq<Option<u64>>)
    ensures
        spec_fold_min(s) is None <==> spec_fold_max(s) is None,
    decreases s.len(),
{
    if s.len() > 0 {
        lemma_fold_min_max_agree(s.drop_last());
    }
}

} // verus!
