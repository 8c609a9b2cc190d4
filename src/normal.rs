//! A parameter value normalized to the range `[0, 1]`, held in fixed point.

use vstd::prelude::*;

verus! {

/// Number of fixed-point steps in one whole: a `Normal` of `SCALE` steps is `1.0`.
pub const SCALE: u32 = 1_000_000;

/// `x` clamped into `[0, SCALE]`.
pub open spec fn clamp_unit(x: int) -> int {
    if x < 0 {
        0
    } else if x > SCALE as int {
        SCALE as int
    } else {
        x
    }
}

/// Clamping twice is clamping once: re-clipping a clipped value gives it back.
pub proof fn lemma_clip_idempotent(raw: int)
    ensures
        clamp_unit(clamp_unit(raw)) == clamp_unit(raw),
        0 <= clamp_unit(raw) <= SCALE,
{
}

/// A value in `[0, 1]`, stored as a count of `1 / SCALE` steps.
///
/// Out-of-range inputs are clamped on construction, never rejected, so no
/// `Normal` is ever observably outside the range.
#[derive(Debug, Clone, Copy, PartialEq, Eq, PartialOrd, Ord, Hash)]
pub struct Normal {
    units: u32,
}

impl View for Normal {
    type V = int;

    /// The number of `1 / SCALE` steps.
    closed spec fn view(&self) -> int {
        self.units as int
    }
}

impl Normal {
    #[verifier::type_invariant]
    spec fn inv(self) -> bool {
        self.units <= SCALE
    }

    /// `0.0`.
    pub fn min() -> (r: Normal)
        ensures
            r@ == 0,
    {
        Normal { units: 0 }
    }

    /// `1.0`.
    pub fn max() -> (r: Normal)
        ensures
            r@ == SCALE as int,
    {
        Normal { units: SCALE }
    }

    /// `0.5`, the usual bipolar center.
    pub fn center() -> (r: Normal)
        ensures
            r@ == SCALE as int / 2,
    {
        Normal { units: SCALE / 2 }
    }

    /// The value `raw / SCALE`, clamped into `[0, 1]`.
    pub fn clip(raw: i128) -> (r: Normal)
        ensures
            r@ == clamp_unit(raw as int),
            0 <= r@ <= SCALE as int,
    {
        if raw < 0 {
            Normal { units: 0 }
        } else if raw > SCALE as i128 {
            Normal { units: SCALE }
        } else {
            Normal { units: raw as u32 }
        }
    }

    /// Replaces the value with `raw / SCALE`, clamped into `[0, 1]`.
    pub fn set_clipped(&mut self, raw: i128)
        ensures
            final(self)@ == clamp_unit(raw as int),
    {
        *self = Normal::clip(raw);
    }

    /// The number of `1 / SCALE` steps.
    pub fn as_units(&self) -> (r: u32)
        ensures
            r as int == self@,
            r <= SCALE,
    {
        proof {
            use_type_invariant(self);
        }
        self.units
    }

    /// The position of the value along a span that grows with the value:
    /// `value * span`, rounded down.
    pub fn scale(&self, span: u32) -> (r: u32)
        ensures
            r as int == self@ * span as int / SCALE as int,
            r <= span,
    {
        proof {
            use_type_invariant(self);
            assert(self.units as int * span as int <= SCALE as int * span as int) by (nonlinear_arith)
                requires
                    self.units <= SCALE,
            ;
            assert(self.units as int * span as int / SCALE as int <= span as int) by (nonlinear_arith)
                requires
                    self.units as int * span as int <= SCALE as int * span as int,
            ;
        }
        (self.units as u64 * span as u64 / SCALE as u64) as u32
    }

    /// The position of the value along a span that grows against the value
    /// (screen `y`, where up is a larger value): `(1 - value) * span`, rounded down.
    pub fn scale_inv(&self, span: u32) -> (r: u32)
        ensures
            r as int == (SCALE as int - self@) * span as int / SCALE as int,
            r <= span,
    {
        proof {
            use_type_invariant(self);
            let rest = SCALE as int - self.units as int;
            assert(rest * span as int <= SCALE as int * span as int) by (nonlinear_arith)
                requires
                    0 <= rest <= SCALE,
            ;
            assert(rest * span as int / SCALE as int <= span as int) by (nonlinear_arith)
                requires
                    rest * span as int <= SCALE as int * span as int,
            ;
        }
        ((SCALE - self.units) as u64 * span as u64 / SCALE as u64) as u32
    }
}

/// A parameter: its current value and the value that a reset restores.
#[derive(Debug, Clone, Copy, PartialEq, Eq)]
pub struct NormalParam {
    pub value: Normal,
    pub default: Normal,
}

impl NormalParam {
    /// A parameter at `value`, with `default` as its reset value.
    pub fn new(value: Normal, default: Normal) -> (r: NormalParam)
        ensures
            r.value == value,
            r.default == default,
    {
        NormalParam { value, default }
    }
}

} // verus!
