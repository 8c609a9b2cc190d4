//! Which side of its center a bipolar knob's value lies on.

use vstd::prelude::*;

use crate::normal::Normal;

verus! {

/// Below this many steps a knob without an explicit center counts as left of it.
pub const LEFT_BELOW: u32 = 499_000;

/// Above this many steps a knob without an explicit center counts as right of it.
pub const RIGHT_ABOVE: u32 = 501_000;

/// What drawing a knob needs from its parameter.
#[derive(Debug, Clone, Copy)]
pub struct KnobInfo {
    pub value: Normal,
    pub bipolar_center: Option<Normal>,
}

/// The side of the center that the value lies on.
#[derive(Debug, Clone, Copy, PartialEq, Eq, Structural)]
pub enum BipolarState {
    Left,
    Right,
    Center,
}

/// The side of `center` that `value` lies on; without a center, the middle
/// of the range with a small dead zone round it.
pub open spec fn bipolar_of(value: int, center: Option<int>) -> BipolarState {
    match center {
        Some(c) => if value < c {
            BipolarState::Left
        } else if value == c {
            BipolarState::Center
        } else {
            BipolarState::Right
        },
        None => if value < LEFT_BELOW {
            BipolarState::Left
        } else if value > RIGHT_ABOVE {
            BipolarState::Right
        } else {
            BipolarState::Center
        },
    }
}

/// The steps of an optional value.
pub open spec fn units_of(n: Option<Normal>) -> Option<int> {
    match n {
        Some(c) => Some(c@),
        None => None,
    }
}

impl BipolarState {
    /// The side of the knob's center that its value lies on.
    pub fn from_knob_info(knob_info: &KnobInfo) -> (r: BipolarState)
        ensures
            r == bipolar_of(knob_info.value@, units_of(knob_info.bipolar_center)),
    {
        let v = knob_info.value.as_units();
        match knob_info.bipolar_center {
            Some(center) => {
                let c = center.as_units();
                if v < c {
                    BipolarState::Left
                } else if v == c {
                    BipolarState::Center
                } else {
                    BipolarState::Right
                }
            },
            None => {
                if v < LEFT_BELOW {
                    BipolarState::Left
                } else if v > RIGHT_ABOVE {
                    BipolarState::Right
                } else {
                    BipolarState::Center
                }
            },
        }
    }
}

} // verus!
