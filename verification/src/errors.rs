//! Error taxonomy of the plotting pipeline.
//!
//! Every failure of a run falls into one of five kinds: input that cannot
//! be read, input that cannot be parsed, a column reference outside the
//! table, data unfit for the requested use, and a malformed solid-color
//! string. Missing per-cell values are not errors: they are substituted
//! at the origin and reported as warnings.

use vstd::prelude::*;

verus! {

/// Which series a column reference was meant to feed.
#[derive(Debug, Clone, Copy, PartialEq, Eq, Structural)]
pub enum ColumnRole {
    XSeries,
    YSeries,
    FacetSeries,
    GradientSeries,
}

/// Which axis a fault concerns.
#[derive(Debug, Clone, Copy, PartialEq, Eq, Structural)]
pub enum AxisKind {
    Horizontal,
    Vertical,
}

/// The ways data can be unfit for the requested plot.
#[derive(Debug, Clone, Copy, PartialEq, Eq, Structural)]
pub enum DataFault {
    /// A column that must be numeric holds text.
    NonNumeric(ColumnRole),
    /// A column holds no usable value where a minimum or maximum is needed.
    Empty(ColumnRole),
    /// The delimiter argument holds no byte.
    BadDelimiter,
    /// Both axis bounds were given and they are not in ascending order.
    BoundsOutOfOrder(AxisKind),
    /// The upper bound is auto-computed and the observed maximum is not
    /// positive, so no decade bounds it from above.
    NonPositiveAutoMax(AxisKind),
    /// A logarithmic axis resolved to a minimum that is not positive.
    NonPositiveLogMin(AxisKind),
    /// More rows than the exact-double range can index: row indexes at
    /// or above `2^53` have no exact double, a machine limit of the
    /// planner.
    TooManyRows,
}

/// A fatal fault of one plotting run.
#[derive(Debug, Clone, PartialEq, Eq)]
pub enum PlotError {
    /// The input could not be read or the output could not be written.
    Io(String),
    /// The delimited text could not be parsed into a table.
    Parse(String),
    /// A column reference outside `[1, column_count]`.
    InvalidColumnIndex(ColumnRole, usize),
    /// Data unfit for the requested use.
    InvalidData(DataFault),
    /// The solid color is not a six-digit hexadecimal string.
    InvalidColorFormat,
}

} // verus!
