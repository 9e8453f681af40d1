//! Verified core of a tabular-data scatter / column plotter.
//!
//! The library turns a delimited table into a plotting plan: which columns
//! feed the X and Y axes, one color per row from a solid, categorical, or
//! gradient strategy, axis domains with an auto-computed upper bound, and
//! one drawable primitive per row. Machine floating point never enters the
//! verified code: doubles travel as their 64-bit patterns, over a model
//! defined in `ieee`; what is irreducibly transcendental — rounding a
//! maximum up to the next decade, rendering two decimal digits, and
//! interpolating the gradient ramp — is recorded in the plan for the
//! renderer to carry out.

use vstd::prelude::*;

pub mod axis;
pub mod color;
pub mod errors;
pub mod geometry;
pub mod ieee;
pub mod ingest;
pub mod lexical;
pub mod si;
pub mod table;

use crate::axis::{resolve_axis, spec_resolve_axis, AxisPlan};
use crate::color::{resolve_colors, spec_color_err, spec_color_plan_ok, ColorPlan};
use crate::errors::{AxisKind, ColumnRole, DataFault, PlotError};
use crate::geometry::{build_primitives, spec_missing_rows, spec_primitive, PlotShape, Primitive};
use crate::ieee::{series_max, spec_fold_max};
use crate::table::{resolve_numeric, resolve_x, spec_resolve_numeric, spec_resolve_x, Table};

verus! {

/// The configuration of one plotting run, as the pipeline needs it:
/// column references, the color strategy inputs, axis bounds and scales,
/// and the marker geometry. Double-valued settings carry bit patterns.
#[derive(Debug, Clone, PartialEq, Eq)]
pub struct PlotOptions {
    /// 1-based X column; 0 selects the synthetic row-index series.
    pub x: usize,
    /// 1-based Y column.
    pub y: usize,
    /// 1-based categorical facet column, if configured.
    pub facet: Option<usize>,
    /// 1-based continuous gradient column, if configured.
    pub gradient: Option<usize>,
    /// Solid color, as six hexadecimal digits.
    pub color_hex: Vec<u8>,
    /// Alpha channel in `[0, 1]`, as a double's bit pattern.
    pub alpha: u64,
    /// Logarithmic X axis.
    pub logx: bool,
    /// Logarithmic Y axis.
    pub logy: bool,
    /// Explicit X minimum, as a double's bit pattern.
    pub x_min: Option<u64>,
    /// Explicit X maximum.
    pub x_max: Option<u64>,
    /// Explicit Y minimum.
    pub y_min: Option<u64>,
    /// Explicit Y maximum.
    pub y_max: Option<u64>,
    /// Marker radius for circles.
    pub point_size: u32,
    /// Marker shape.
    pub shape: PlotShape,
    /// SI-suffix tick labels on the X axis.
    pub si_x: bool,
    /// SI-suffix tick labels on the Y axis.
    pub si_y: bool,
}

/// Everything the renderer needs: one primitive per row, the rows whose
/// missing coordinates were substituted at the origin, the color plan,
/// and both axis domains.
#[derive(Debug, Clone, PartialEq, Eq)]
pub struct PlotPlan {
    /// One drawable element per table row.
    pub primitives: Vec<Primitive>,
    /// Rows with a missing X or Y, ascending; each deserves a warning.
    pub missing_rows: Vec<usize>,
    /// The resolved color strategy.
    pub colors: ColorPlan,
    /// The horizontal axis domain.
    pub x_axis: AxisPlan,
    /// The vertical axis domain.
    pub y_axis: AxisPlan,
}

/// The first fault of a run, in the order the pipeline checks: the X
/// reference, the Y reference, an empty X series, an empty Y series, the
/// color strategy (solid color format first), the X axis domain, the Y
/// axis domain.
pub open spec fn spec_plan_err(t: Table, opts: PlotOptions) -> Option<PlotError> {
    match spec_resolve_x(t, opts.x) {
        Err(e) => Some(e),
        Ok(xs) => match spec_resolve_numeric(t, ColumnRole::YSeries, opts.y) {
            Err(e) => Some(e),
            Ok(ys) => if spec_fold_max(xs) is None {
                Some(PlotError::InvalidData(DataFault::Empty(ColumnRole::XSeries)))
            } else if spec_fold_max(ys) is None {
                Some(PlotError::InvalidData(DataFault::Empty(ColumnRole::YSeries)))
            } else {
                match spec_color_err(t, opts.facet, opts.gradient, opts.color_hex@) {
                    Some(e) => Some(e),
                    None => match spec_resolve_axis(
                        AxisKind::Horizontal,
                        opts.x_min,
                        opts.x_max,
                        spec_fold_max(xs)->Some_0,
                        opts.logx,
                        opts.si_x,
                    ) {
                        Err(e) => Some(e),
                        Ok(_) => match spec_resolve_axis(
                            AxisKind::Vertical,
                            opts.y_min,
                            opts.y_max,
                            spec_fold_max(ys)->Some_0,
                            opts.logy,
                            opts.si_y,
                        ) {
                            Err(e) => Some(e),
                            Ok(_) => None,
                        },
                    },
                }
            },
        },
    }
}

/// Plans one plot from a table and its options.
///
/// On success the plan holds exactly one primitive per table row (rows
/// with a missing coordinate collapsed at the origin and listed as
/// warnings), the colors of the selected strategy, and both axis
/// domains; on failure the error is the first fault in the documented
/// order. The height bound is a machine limit: row indexes beyond
/// `2^53` have no exact double.
pub fn plan_plot(t: &Table, opts: &PlotOptions) -> (r: Result<PlotPlan, PlotError>)
    requires
        t.wf(),
        t.height < 0x20_0000_0000_0000,
    ensures
        match spec_plan_err(*t, *opts) {
            Some(e) => r == Err::<PlotPlan, PlotError>(e),
            None => r matches Ok(p) && {
                let xs = spec_resolve_x(*t, opts.x)->Ok_0;
                let ys = spec_resolve_numeric(*t, ColumnRole::YSeries, opts.y)->Ok_0;
                &&& p.primitives@.len() == t.height as nat
                &&& forall|i: int|
                    0 <= i < t.height as nat ==> p.primitives@[i] == spec_primitive(
                        opts.shape,
                        opts.point_size,
                        xs[i],
                        ys[i],
                    )
                &&& p.missing_rows@ == spec_missing_rows(xs, ys)
                &&& spec_color_plan_ok(
                    *t,
                    opts.facet,
                    opts.gradient,
                    opts.color_hex@,
                    opts.alpha,
                    p.colors,
                )
                &&& Ok::<AxisPlan, PlotError>(p.x_axis) == spec_resolve_axis(
                    AxisKind::Horizontal,
                    opts.x_min,
                    opts.x_max,
                    spec_fold_max(xs)->Some_0,
                    opts.logx,
                    opts.si_x,
                )
                &&& Ok::<AxisPlan, PlotError>(p.y_axis) == spec_resolve_axis(
                    AxisKind::Vertical,
                    opts.y_min,
                    opts.y_max,
                    spec_fold_max(ys)->Some_0,
                    opts.logy,
                    opts.si_y,
                )
            },
        },
{
    let xs = match resolve_x(t, opts.x) {
        Err(e) => {
            return Err(e);
        },
        Ok(v) => v,
    };
    let ys = match resolve_numeric(t, ColumnRole::YSeries, opts.y) {
        Err(e) => {
            return Err(e);
        },
        Ok(v) => v,
    };
    let xmax = match series_max(&xs) {
        None => {
            return Err(PlotError::InvalidData(DataFault::Empty(ColumnRole::XSeries)));
        },
        Some(m) => m,
    };
    let ymax = match series_max(&ys) {
        None => {
            return Err(PlotError::InvalidData(DataFault::Empty(ColumnRole::YSeries)));
        },
        Some(m) => m,
    };
    let colors = match resolve_colors(t, opts.facet, opts.gradient, &opts.color_hex, opts.alpha) {
        Err(e) => {
            return Err(e);
        },
        Ok(c) => c,
    };
    let x_axis = match resolve_axis(
        AxisKind::Horizontal,
        opts.x_min,
        opts.x_max,
        xmax,
        opts.logx,
        opts.si_x,
    ) {
        Err(e) => {
            return Err(e);
        },
        Ok(a) => a,
    };
    let y_axis = match resolve_axis(
        AxisKind::Vertical,
        opts.y_min,
        opts.y_max,
        ymax,
        opts.logy,
        opts.si_y,
    ) {
        Err(e) => {
            return Err(e);
        },
        Ok(a) => a,
    };
    proof {
        if opts.x != 0 {
            assert(t.columns@[opts.x - 1].spec_len() == t.height as nat);
        }
        assert(t.columns@[opts.y - 1].spec_len() == t.height as nat);
        assert(xs@.len() == t.height as nat);
        assert(ys@.len() == t.height as nat);
    }
    let built = build_primitives(&xs, &ys, opts.shape, opts.point_size);
    Ok(
        PlotPlan {
            primitives: built.0,
            missing_rows: built.1,
            colors,
            x_axis,
            y_axis,
        },
    )
}

/// The delimiter a run splits columns on: the two-character escape for a
/// tab names the tab byte, any other non-empty argument names its first
/// byte, and an empty argument is invalid.
pub fn resolve_delimiter(d: &Vec<u8>) -> (r: Result<u8, PlotError>)
    ensures
        d@ == seq![0x5cu8, 0x74u8] ==> r == Ok::<u8, PlotError>(9u8),
        d@ != seq![0x5cu8, 0x74u8] && d@.len() > 0 ==> r == Ok::<u8, PlotError>(d@[0]),
        d@.len() == 0 ==> r == Err::<u8, PlotError>(
            PlotError::InvalidData(DataFault::BadDelimiter),
        ),
{
    if d.len() == 2 && d[0] == 0x5c && d[1] == 0x74 {
        proof {
            assert(d@ =~= seq![0x5cu8, 0x74u8]);
        }
        Ok(9)
    } else if d.len() > 0 {
        proof {
            if d@.len() == 2 && d@[0] == 0x5c && d@[1] == 0x74 {
                assert(d@ =~= seq![0x5cu8, 0x74u8]);
            }
            assert(d@ != seq![0x5cu8, 0x74u8]);
        }
        Ok(d[0])
    } else {
        Err(PlotError::InvalidData(DataFault::BadDelimiter))
    }
}

/// The bytes of the marker name that selects bars.
pub open spec fn spec_column_shape_name() -> Seq<u8> {
    seq![0x63u8, 0x6fu8, 0x6cu8, 0x75u8, 0x6du8, 0x6eu8]
}

/// The marker shape a name selects: `column` selects bars, anything
/// else circles.
pub fn shape_from_name(n: &Vec<u8>) -> (r: PlotShape)
    ensures
        n@ == spec_column_shape_name() ==> r == PlotShape::Column,
        n@ != spec_column_shape_name() ==> r == PlotShape::Circle,
{
    if n.len() == 6 && n[0] == 0x63 && n[1] == 0x6f && n[2] == 0x6c && n[3] == 0x75 && n[4] == 0x6d
        && n[5] == 0x6e {
        proof {
            assert(n@ =~= spec_column_shape_name());
        }
        PlotShape::Column
    } else {
        proof {
            if n@.len() == 6 && n@[0] == 0x63 && n@[1] == 0x6f && n@[2] == 0x6c && n@[3] == 0x75
                && n@[4] == 0x6d && n@[5] == 0x6e {
                assert(n@ =~= spec_column_shape_name());
                assert(false);
            }
        }
        PlotShape::Circle
    }
}

} // verus!
