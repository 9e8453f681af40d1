//! The table model and the column resolver.
//!
//! A table is an ordered sequence of typed columns of equal length: a
//! column is either numeric, its cells carrying double bit patterns, or
//! text, its cells carrying bytes. A column reference is 1-based; the
//! sentinel 0 names the synthetic row-index series `0.0 .. N-1.0`, which
//! is available for the X axis only.

use crate::errors::{ColumnRole, DataFault, PlotError};
use crate::ieee::{f64_bits_of_index, f64_bits_of_nat};
use vstd::prelude::*;

verus! {

/// One column of a table, with one cell per row; an absent cell is a
/// value that could not be read as the column's type.
#[derive(Debug, Clone, PartialEq, Eq)]
pub enum ColumnData {
    /// A numeric column: each present cell is a double's bit pattern.
    Numeric(Vec<Option<u64>>),
    /// A text column: each present cell is a byte string.
    Text(Vec<Option<Vec<u8>>>),
}

impl ColumnData {
    /// Number of rows of the column.
    pub open spec fn spec_len(&self) -> nat {
        match self {
            ColumnData::Numeric(v) => v@.len(),
            ColumnData::Text(v) => v@.len(),
        }
    }
}

/// A parsed table: columns of equal length, immutable once built.
#[derive(Debug, Clone, PartialEq, Eq)]
pub struct Table {
    /// Number of rows.
    pub height: usize,
    /// The columns, in input order.
    pub columns: Vec<ColumnData>,
}

impl Table {
    /// Every column has exactly `height` rows.
    pub open spec fn wf(&self) -> bool {
        forall|i: int|
            0 <= i < self.columns@.len() ==> (#[trigger] self.columns@[i]).spec_len()
                == self.height as nat
    }

    /// Number of columns.
    pub fn width(&self) -> (r: usize)
        ensures
            r == self.columns@.len(),
    {
        self.columns.len()
    }
}

/// The synthetic row-index series of a table with `n` rows: the exact
/// doubles `0.0, 1.0, .., (n-1).0`.
pub open spec fn spec_synthetic_series(n: nat) -> Seq<Option<u64>> {
    Seq::new(n, |i: int| Some(f64_bits_of_nat(i as nat)))
}

/// Builds the synthetic row-index series.
pub fn synthetic_series(n: usize) -> (r: Vec<Option<u64>>)
    requires
        n < 0x20_0000_0000_0000,
    ensures
        r@ == spec_synthetic_series(n as nat),
{
    let mut r: Vec<Option<u64>> = Vec::new();
    let mut i: usize = 0;
    while i < n
        invariant
            i <= n,
            n < 0x20_0000_0000_0000,
            r@ =~= spec_synthetic_series(n as nat).take(i as int),
        decreases n - i,
    {
        r.push(Some(f64_bits_of_index(i as u64)));
        proof {
            assert(r@ =~= spec_synthetic_series(n as nat).take(i + 1));
        }
        i = i + 1;
    }
    proof {
        assert(spec_synthetic_series(n as nat).take(n as int) =~= spec_synthetic_series(n as nat));
    }
    r
}

/// A verified copy of a numeric series.
pub fn copy_series(v: &Vec<Option<u64>>) -> (r: Vec<Option<u64>>)
    ensures
        r@ == v@,
{
    let mut r: Vec<Option<u64>> = Vec::new();
    let mut i: usize = 0;
    while i < v.len()
        invariant
            i <= v.len(),
            r@ =~= v@.take(i as int),
        decreases v.len() - i,
    {
        r.push(v[i]);
        i = i + 1;
    }
    proof {
        assert(v@.take(v@.len() as int) =~= v@);
    }
    r
}

/// What resolving a 1-based column reference to a numeric series yields:
/// an index outside `[1, width]` is invalid, a text column cannot feed a
/// numeric series, and a numeric column yields its cells.
pub open spec fn spec_resolve_numeric(t: Table, role: ColumnRole, colref: usize) -> Result<
    Seq<Option<u64>>,
    PlotError,
> {
    if colref < 1 || colref > t.columns@.len() {
        Err(PlotError::InvalidColumnIndex(role, colref))
    } else {
        match t.columns@[colref - 1] {
            ColumnData::Text(_) => Err(PlotError::InvalidData(DataFault::NonNumeric(role))),
            ColumnData::Numeric(d) => Ok(d@),
        }
    }
}

/// Resolves a 1-based column reference to a numeric series.
pub fn resolve_numeric(t: &Table, role: ColumnRole, colref: usize) -> (r: Result<
    Vec<Option<u64>>,
    PlotError,
>)
    ensures
        match spec_resolve_numeric(*t, role, colref) {
            Ok(d) => r matches Ok(v) && v@ == d,
            Err(e) => r == Err::<Vec<Option<u64>>, PlotError>(e),
        },
{
    if colref < 1 || colref > self_width(t) {
        Err(PlotError::InvalidColumnIndex(role, colref))
    } else {
        match &t.columns[colref - 1] {
            ColumnData::Text(_) => Err(PlotError::InvalidData(DataFault::NonNumeric(role))),
            ColumnData::Numeric(d) => Ok(copy_series(d)),
        }
    }
}

/// Number of columns of a table.
fn self_width(t: &Table) -> (r: usize)
    ensures
        r == t.columns@.len(),
{
    t.columns.len()
}

/// What resolving the X reference yields: 0 names the synthetic
/// row-index series and always succeeds; any other reference resolves as
/// a numeric column does.
pub open spec fn spec_resolve_x(t: Table, colref: usize) -> Result<Seq<Option<u64>>, PlotError> {
    if colref == 0 {
        Ok(spec_synthetic_series(t.height as nat))
    } else {
        spec_resolve_numeric(t, ColumnRole::XSeries, colref)
    }
}

/// Resolves the X column reference, with 0 naming the synthetic
/// row-index series.
pub fn resolve_x(t: &Table, colref: usize) -> (r: Result<Vec<Option<u64>>, PlotError>)
    requires
        t.height < 0x20_0000_0000_0000,
    ensures
        match spec_resolve_x(*t, colref) {
            Ok(d) => r matches Ok(v) && v@ == d,
            Err(e) => r == Err::<Vec<Option<u64>>, PlotError>(e),
        },
{
    if colref == 0 {
        Ok(synthetic_series(t.height))
    } else {
        resolve_numeric(t, ColumnRole::XSeries, colref)
    }
}

} // verus!
