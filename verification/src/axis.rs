//! Axis domain planning.
//!
//! An explicit bound always wins. A missing minimum defaults to `0.0`; a
//! missing maximum is auto-computed by rounding the observed maximum of
//! the data up to the next decade step (the smallest `10^(k/10)` not
//! below it). The decade step is transcendental work left to the
//! renderer; the plan records exactly which value it must round up.
//!
//! Two invalid domains are rejected here rather than propagated: bounds
//! that are both explicit and not in ascending order, and a logarithmic
//! axis whose resolved minimum is not positive (the default minimum of
//! `0.0` is invalid under a logarithmic scale, so such an axis needs an
//! explicit positive minimum). An auto-computed maximum likewise
//! requires a positive observed maximum, since no decade lies above a
//! non-positive value.

use crate::errors::{AxisKind, DataFault, PlotError};
use crate::ieee::{f64_lt, f64_lt_bits, F64_ZERO};
use vstd::prelude::*;

verus! {

/// The upper bound of an axis: explicit, or the next decade step at or
/// above the recorded observed maximum.
#[derive(Debug, Clone, Copy, PartialEq, Eq, Structural)]
pub enum AxisMax {
    /// The bound the caller gave, as a double's bit pattern.
    Explicit(u64),
    /// Auto: round this observed maximum up to the next decade step.
    AutoDecade(u64),
}

/// The resolved domain and rendering style of one axis.
#[derive(Debug, Clone, Copy, PartialEq, Eq, Structural)]
pub struct AxisPlan {
    /// Lower bound, as a double's bit pattern.
    pub min: u64,
    /// Upper bound, explicit or auto.
    pub max: AxisMax,
    /// Logarithmic rather than linear scale.
    pub log: bool,
    /// Render tick labels with SI suffixes.
    pub si_format: bool,
}

/// What axis resolution yields. The checks run in this order: ascending
/// explicit bounds, a positive observed maximum when the upper bound is
/// auto, and a positive resolved minimum under a logarithmic scale.
pub open spec fn spec_resolve_axis(
    kind: AxisKind,
    explicit_min: Option<u64>,
    explicit_max: Option<u64>,
    observed_max: u64,
    log: bool,
    si_format: bool,
) -> Result<AxisPlan, PlotError> {
    let min = match explicit_min {
        None => F64_ZERO,
        Some(m) => m,
    };
    match explicit_max {
        Some(mx) => if !f64_lt_bits(min, mx) {
            Err(PlotError::InvalidData(DataFault::BoundsOutOfOrder(kind)))
        } else if log && !f64_lt_bits(F64_ZERO, min) {
            Err(PlotError::InvalidData(DataFault::NonPositiveLogMin(kind)))
        } else {
            Ok(AxisPlan { min, max: AxisMax::Explicit(mx), log, si_format })
        },
        None => if !f64_lt_bits(F64_ZERO, observed_max) {
            Err(PlotError::InvalidData(DataFault::NonPositiveAutoMax(kind)))
        } else if log && !f64_lt_bits(F64_ZERO, min) {
            Err(PlotError::InvalidData(DataFault::NonPositiveLogMin(kind)))
        } else {
            Ok(AxisPlan { min, max: AxisMax::AutoDecade(observed_max), log, si_format })
        },
    }
}

/// Resolves one axis from its explicit bounds, the observed maximum of
/// its series, and its rendering flags.
pub fn resolve_axis(
    kind: AxisKind,
    explicit_min: Option<u64>,
    explicit_max: Option<u64>,
    observed_max: u64,
    log: bool,
    si_format: bool,
) -> (r: Result<AxisPlan, PlotError>)
    ensures
        r == spec_resolve_axis(kind, explicit_min, explicit_max, observed_max, log, si_format),
{
    let min = match explicit_min {
        None => F64_ZERO,
        Some(m) => m,
    };
    match explicit_max {
        Some(mx) => {
            if !f64_lt(min, mx) {
                Err(PlotError::InvalidData(DataFault::BoundsOutOfOrder(kind)))
            } else if log && !f64_lt(F64_ZERO, min) {
                Err(PlotError::InvalidData(DataFault::NonPositiveLogMin(kind)))
            } else {
                Ok(AxisPlan { min, max: AxisMax::Explicit(mx), log, si_format })
            }
        },
        None => {
            if !f64_lt(F64_ZERO, observed_max) {
                Err(PlotError::InvalidData(DataFault::NonPositiveAutoMax(kind)))
            } else if log && !f64_lt(F64_ZERO, min) {
                Err(PlotError::InvalidData(DataFault::NonPositiveLogMin(kind)))
            } else {
                Ok(AxisPlan { min, max: AxisMax::AutoDecade(observed_max), log, si_format })
            }
        },
    }
}

} // verus!
