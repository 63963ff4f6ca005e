//! Which parts of a transform a tracker follows.
use vstd::prelude::*;
use crate::flags::{bits_contain, bits_intersect};

verus! {

/// Flag set of the transform parts that a tracker follows: translation,
/// rotation and scale.
#[derive(Clone, Copy, Debug, PartialEq, Eq, Structural)]
pub struct TrackerTraits(pub u32);

impl View for TrackerTraits {
    type V = u32;

    open spec fn view(&self) -> u32 {
        self.0
    }
}

/// Follow the target's translation.
pub const TRANSLATE_BITS: u32 = 0b0001;

/// Follow the target's rotation.
pub const ROTATE_BITS: u32 = 0b0010;

/// Follow the target's scale (not on by default).
pub const SCALE_BITS: u32 = 0b0100;

impl TrackerTraits {
    /// The empty set.
    pub fn none() -> (r: Self)
        ensures
            r@ == 0,
    {
        TrackerTraits(0)
    }

    /// Follow the target's translation.
    pub fn translate() -> (r: Self)
        ensures
            r@ == TRANSLATE_BITS,
    {
        TrackerTraits(TRANSLATE_BITS)
    }

    /// Follow the target's rotation.
    pub fn rotate() -> (r: Self)
        ensures
            r@ == ROTATE_BITS,
    {
        TrackerTraits(ROTATE_BITS)
    }

    /// Follow the target's scale.
    pub fn scale() -> (r: Self)
        ensures
            r@ == SCALE_BITS,
    {
        TrackerTraits(SCALE_BITS)
    }

    /// Every bit of `other` is set here, and `other` is not empty.
    pub fn contains(&self, other: Self) -> (r: bool)
        ensures
            r == bits_contain(self@, other@),
    {
        (self.0 & other.0) == other.0 && other.0 != 0
    }

    /// At least one bit of `other` is set here.
    pub fn intersects(&self, other: Self) -> (r: bool)
        ensures
            r == bits_intersect(self@, other@),
    {
        (self.0 & other.0) != 0
    }

    /// Sets every bit of `other`.
    pub fn insert(&mut self, other: Self)
        ensures
            final(self)@ == old(self)@ | other@,
    {
        self.0 = self.0 | other.0;
    }

    /// Clears every bit of `other`.
    pub fn remove(&mut self, other: Self)
        ensures
            final(self)@ == old(self)@ & !other@,
    {
        self.0 = self.0 & !other.0;
    }

    /// Flips every bit of `other`.
    pub fn toggle(&mut self, other: Self)
        ensures
            final(self)@ == old(self)@ ^ other@,
    {
        self.0 = self.0 ^ other.0;
    }
}

impl std::ops::BitOr for TrackerTraits {
    type Output = Self;

    fn bitor(self, rhs: Self) -> (r: Self) {
        TrackerTraits(self.0 | rhs.0)
    }
}

impl vstd::std_specs::ops::BitOrSpecImpl for TrackerTraits {
    open spec fn obeys_bitor_spec() -> bool {
        true
    }

    open spec fn bitor_req(self, rhs: Self) -> bool {
        true
    }

    open spec fn bitor_spec(self, rhs: Self) -> Self {
        TrackerTraits(self.0 | rhs.0)
    }
}

impl std::ops::BitAnd for TrackerTraits {
    type Output = Self;

    fn bitand(self, rhs: Self) -> (r: Self) {
        TrackerTraits(self.0 & rhs.0)
    }
}

impl vstd::std_specs::ops::BitAndSpecImpl for TrackerTraits {
    open spec fn obeys_bitand_spec() -> bool {
        true
    }

    open spec fn bitand_req(self, rhs: Self) -> bool {
        true
    }

    open spec fn bitand_spec(self, rhs: Self) -> Self {
        TrackerTraits(self.0 & rhs.0)
    }
}

impl std::ops::BitXor for TrackerTraits {
    type Output = Self;

    fn bitxor(self, rhs: Self) -> (r: Self) {
        TrackerTraits(self.0 ^ rhs.0)
    }
}

impl vstd::std_specs::ops::BitXorSpecImpl for TrackerTraits {
    open spec fn obeys_bitxor_spec() -> bool {
        true
    }

    open spec fn bitxor_req(self, rhs: Self) -> bool {
        true
    }

    open spec fn bitxor_spec(self, rhs: Self) -> Self {
        TrackerTraits(self.0 ^ rhs.0)
    }
}

impl std::ops::Not for TrackerTraits {
    type Output = Self;

    fn not(self) -> (r: Self) {
        TrackerTraits(!self.0)
    }
}

impl vstd::std_specs::ops::NotSpecImpl for TrackerTraits {
    open spec fn obeys_not_spec() -> bool {
        true
    }

    open spec fn not_req(self) -> bool {
        true
    }

    open spec fn not_spec(self) -> Self {
        TrackerTraits(!self.0)
    }
}

impl std::ops::BitOrAssign for TrackerTraits {
    /// Sets every bit of `rhs`, as `insert` does.
    fn bitor_assign(&mut self, rhs: Self)
        ensures
            final(self)@ == old(self)@ | rhs@,
    {
        self.0 = self.0 | rhs.0;
    }
}

impl std::ops::BitAndAssign for TrackerTraits {
    /// Clears every bit of `rhs`, as `remove` does: `a &= b` keeps the bits
    /// of `a` that are not in `b`.
    fn bitand_assign(&mut self, rhs: Self)
        ensures
            final(self)@ == old(self)@ & !rhs@,
    {
        self.0 = self.0 & !rhs.0;
    }
}

} // verus!
