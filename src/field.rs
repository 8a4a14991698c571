//! The scalar fields that can be explored, and how an escape-time count
//! becomes a hue.
//!
//! An escape-time field iterates a recurrence from a point until its
//! magnitude passes a threshold or an iteration cap is reached; the number
//! of iterations, as a fraction of the cap, is the value shown. Each field
//! states how it shows points that reached the cap without escaping.
use vstd::prelude::*;

use crate::color::HUE_STEPS;

verus! {

/// Iteration cap of the Mandelbrot and Julia fields.
pub const SET_ITERATIONS: u32 = 100;

/// Iteration cap of the Burning Ship field, which has finer boundary detail.
pub const SHIP_ITERATIONS: u32 = 1000;

/// How an escape-time field shows a point that reached the cap.
#[derive(Clone, Copy, Debug, PartialEq, Eq, Structural)]
pub enum Interior {
    /// Shown as the value of an immediate escape, 0.
    Flatten,
    /// Shown as the full value, 1: the count over the cap, like any other.
    Saturate,
}

/// The field being explored.
#[derive(Clone, Copy, Debug, PartialEq, Eq, Structural)]
pub enum FieldKind {
    /// `z <- z^2 + c` from `z = 0`, with `c` the point.
    Mandelbrot,
    /// `z <- (|Re z| + i |Im z|)^2 + c` from `z = 0`, with `c` the point.
    BurningShip,
    /// `z <- z^2 + c` from `z` the point, with `c` a fixed constant.
    Julia,
    /// A sum of octaves of coherent noise.
    Noise,
}

/// The iteration cap of an escape-time field; `None` for one that is not.
pub open spec fn cap_of(kind: FieldKind) -> Option<u32> {
    match kind {
        FieldKind::Mandelbrot => Some(SET_ITERATIONS),
        FieldKind::BurningShip => Some(SHIP_ITERATIONS),
        FieldKind::Julia => Some(SET_ITERATIONS),
        FieldKind::Noise => None,
    }
}

/// How a field shows points that never escaped.
pub open spec fn interior_of(kind: FieldKind) -> Interior {
    match kind {
        FieldKind::BurningShip => Interior::Saturate,
        _ => Interior::Flatten,
    }
}

/// The hue of a point that took `iterations` of at most `cap`: the fraction
/// `iterations / cap` of the wheel, rounded down, except that a point that
/// reached the cap is shown as `interior` says.
pub open spec fn escape_hue_of(iterations: int, cap: int, interior: Interior) -> int {
    if iterations >= cap && interior == Interior::Flatten {
        0
    } else {
        iterations * HUE_STEPS as int / cap
    }
}

impl FieldKind {
    /// The iteration cap, for an escape-time field.
    pub fn iteration_cap(&self) -> (r: Option<u32>)
        ensures
            r == cap_of(*self),
    {
        match self {
            FieldKind::Mandelbrot => Some(SET_ITERATIONS),
            FieldKind::BurningShip => Some(SHIP_ITERATIONS),
            FieldKind::Julia => Some(SET_ITERATIONS),
            FieldKind::Noise => None,
        }
    }

    /// How the field shows points that never escaped.
    pub fn interior(&self) -> (r: Interior)
        ensures
            r == interior_of(*self),
    {
        match self {
            FieldKind::BurningShip => Interior::Saturate,
            _ => Interior::Flatten,
        }
    }
}

/// The hue of a point that took `iterations` of at most `cap` iterations.
pub fn escape_hue(iterations: u32, cap: u32, interior: Interior) -> (r: u32)
    requires
        0 < cap,
        iterations <= cap,
    ensures
        r == escape_hue_of(iterations as int, cap as int, interior),
        r <= HUE_STEPS,
{
    if iterations == cap && interior == Interior::Flatten {
        0
    } else {
        assert(iterations as int * HUE_STEPS as int <= 1530 * 0xffff_ffff) by (nonlinear_arith)
            requires
                iterations as int <= 0xffff_ffff,
                HUE_STEPS == 1530,
        ;
        let scaled: u64 = iterations as u64 * HUE_STEPS as u64;
        proof {
            assert((scaled as int) / (cap as int) <= HUE_STEPS as int) by (nonlinear_arith)
                requires
                    scaled as int == iterations as int * HUE_STEPS as int,
                    iterations <= cap,
                    0 < cap,
            ;
        }
        (scaled / cap as u64) as u32
    }
}

} // verus!
