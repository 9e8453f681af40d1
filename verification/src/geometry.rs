//! Row-by-row geometry: one drawable primitive per table row.
//!
//! A row with both coordinates present draws at its point; a row with a
//! missing coordinate draws its shape collapsed at the origin and is
//! reported as a warning, never dropped. The primitive stream therefore
//! always has exactly one element per row.

use crate::ieee::F64_ZERO;
use vstd::prelude::*;

verus! {

/// The marker drawn per row.
#[derive(Debug, Clone, Copy, PartialEq, Eq, Structural)]
pub enum PlotShape {
    /// A filled circle of a configurable radius.
    Circle,
    /// A vertical bar spanning 0.4 to each side of the point and reaching
    /// down to `y == 0`.
    Column,
}

/// One drawable element, with coordinates as double bit patterns. A bar
/// spans `[x - 0.4, x + 0.4]` horizontally and `[0, y]` vertically when
/// rendered; a collapsed bar is the degenerate rectangle at the origin
/// that stands in for a row with a missing coordinate.
#[derive(Debug, Clone, Copy, PartialEq, Eq, Structural)]
pub enum Primitive {
    Dot { x: u64, y: u64, radius: u32 },
    Bar { x: u64, y: u64 },
    BarCollapsed,
}

/// The primitive a row yields: its point when both coordinates are
/// present, its shape collapsed at the origin when either is missing.
pub open spec fn spec_primitive(shape: PlotShape, radius: u32, x: Option<u64>, y: Option<u64>)
    -> Primitive {
    match shape {
        PlotShape::Circle => match (x, y) {
            (Some(a), Some(b)) => Primitive::Dot { x: a, y: b, radius },
            _ => Primitive::Dot { x: F64_ZERO, y: F64_ZERO, radius },
        },
        PlotShape::Column => match (x, y) {
            (Some(a), Some(b)) => Primitive::Bar { x: a, y: b },
            _ => Primitive::BarCollapsed,
        },
    }
}

/// The rows with a missing X or Y coordinate, in ascending order.
pub open spec fn spec_missing_rows(xs: Seq<Option<u64>>, ys: Seq<Option<u64>>) -> Seq<usize>
    decreases xs.len(),
{
    if xs.len() == 0 {
        Seq::empty()
    } else {
        let rest = spec_missing_rows(xs.drop_last(), ys.drop_last());
        if xs.last() is None || ys.last() is None {
            rest.push((xs.len() - 1) as usize)
        } else {
            rest
        }
    }
}

/// Zips the X and Y series into one primitive per row, substituting the
/// origin for rows with a missing coordinate, and reports those rows.
pub fn build_primitives(
    xs: &Vec<Option<u64>>,
    ys: &Vec<Option<u64>>,
    shape: PlotShape,
    radius: u32,
) -> (r: (Vec<Primitive>, Vec<usize>))
    requires
        xs@.len() == ys@.len(),
    ensures
        r.0@.len() == xs@.len(),
        forall|i: int|
            0 <= i < xs@.len() ==> r.0@[i] == spec_primitive(shape, radius, xs@[i], ys@[i]),
        r.1@ == spec_missing_rows(xs@, ys@),
{
    let mut prims: Vec<Primitive> = Vec::new();
    let mut missing: Vec<usize> = Vec::new();
    let mut i: usize = 0;
    while i < xs.len()
        invariant
            i <= xs@.len(),
            xs@.len() == ys@.len(),
            prims@.len() == i,
            forall|m: int|
                0 <= m < i ==> prims@[m] == spec_primitive(shape, radius, xs@[m], ys@[m]),
            missing@ == spec_missing_rows(xs@.take(i as int), ys@.take(i as int)),
        decreases xs.len() - i,
    {
        proof {
            assert(xs@.take(i + 1).drop_last() =~= xs@.take(i as int));
            assert(ys@.take(i + 1).drop_last() =~= ys@.take(i as int));
            assert(xs@.take(i + 1).last() == xs@[i as int]);
            assert(ys@.take(i + 1).last() == ys@[i as int]);
        }
        let x = xs[i];
        let y = ys[i];
        let both = x.is_some() && y.is_some();
        match shape {
            PlotShape::Circle => {
                if both {
                    prims.push(
                        Primitive::Dot { x: x.unwrap(), y: y.unwrap(), radius },
                    );
                } else {
                    prims.push(Primitive::Dot { x: F64_ZERO, y: F64_ZERO, radius });
                }
            },
            PlotShape::Column => {
                if both {
                    prims.push(Primitive::Bar { x: x.unwrap(), y: y.unwrap() });
                } else {
                    prims.push(Primitive::BarCollapsed);
                }
            },
        }
        if !both {
            missing.push(i);
        }
        i = i + 1;
    }
    proof {
        assert(xs@.take(xs@.len() as int) =~= xs@);
        assert(ys@.take(ys@.len() as int) =~= ys@);
    }
    (prims, missing)
}

} // verus!
