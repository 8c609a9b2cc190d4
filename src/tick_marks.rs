//! Sizes of tick marks.

use vstd::prelude::*;

verus! {

/// Tier of sizes for a tick mark.
#[derive(Debug, Clone, Copy, PartialEq, Eq, Structural, Hash)]
pub enum Tier {
    /// Large-sized tick mark.
    One,
    /// Medium-sized tick mark.
    Two,
    /// Small-sized tick mark.
    Three,
}

impl Default for Tier {
    /// The large tier.
    fn default() -> (r: Tier)
        ensures
            r == Tier::One,
    {
        Tier::One
    }
}

} // verus!
