//! The set of keyboard modifier keys held down.

use vstd::prelude::*;

verus! {

/// Which modifier keys are held.
#[derive(Debug, Clone, Copy, PartialEq, Eq, Structural, Default)]
pub struct Modifiers {
    pub shift: bool,
    pub control: bool,
    pub alt: bool,
    pub logo: bool,
}

/// The set with no key held.
pub open spec fn no_modifiers() -> Modifiers {
    Modifiers { shift: false, control: false, alt: false, logo: false }
}

/// The set with the control key alone.
pub open spec fn control_only() -> Modifiers {
    Modifiers { shift: false, control: true, alt: false, logo: false }
}

impl Modifiers {
    /// Every key that `other` holds is held in `self` too.
    pub open spec fn spec_contains(self, other: Modifiers) -> bool {
        &&& (other.shift ==> self.shift)
        &&& (other.control ==> self.control)
        &&& (other.alt ==> self.alt)
        &&& (other.logo ==> self.logo)
    }

    /// No key held.
    pub fn empty() -> (r: Modifiers)
        ensures
            r == no_modifiers(),
    {
        Modifiers { shift: false, control: false, alt: false, logo: false }
    }

    /// The control key alone.
    pub fn ctrl() -> (r: Modifiers)
        ensures
            r == control_only(),
    {
        Modifiers { shift: false, control: true, alt: false, logo: false }
    }

    /// Whether every key held in `other` is held in `self`.
    pub fn contains(&self, other: Modifiers) -> (r: bool)
        ensures
            r == self.spec_contains(other),
    {
        (self.shift || !other.shift) && (self.control || !other.control) && (self.alt
            || !other.alt) && (self.logo || !other.logo)
    }
}

} // verus!
