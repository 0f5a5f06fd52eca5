//! Scalar quantities and small value types used throughout the engine.

use vstd::prelude::*;

verus! {

/// A 3-d position, in centimeters.
pub type Point3 = (i16, i16, i16);

/// Identifier of a condition applied to a particular creature.
pub type ConditionID = usize;

/// An SVG-compatible color specifier.
pub type Color = String;

/// Hit points: an 8-bit magnitude whose arithmetic saturates, never
/// overflowing or underflowing.
#[derive(Clone, Copy, PartialEq, Eq, Structural, Debug, Hash)]
pub struct HP(pub u8);

impl HP {
    /// Adds two hit-point amounts, clamping at the top of the 8-bit range.
    pub fn saturating_add(self, other: Self) -> (r: Self)
        ensures
            r.0 == if self.0 + other.0 <= u8::MAX { self.0 + other.0 } else { u8::MAX as int },
    {
        HP(self.0.saturating_add(other.0))
    }

    /// Subtracts, clamping at zero.
    pub fn saturating_sub(self, other: Self) -> (r: Self)
        ensures
            r.0 == if self.0 >= other.0 { self.0 - other.0 } else { 0 },
    {
        HP(self.0.saturating_sub(other.0))
    }
}

/// Energy available to a creature for using abilities; saturating 8-bit
/// arithmetic, like [`HP`].
#[derive(Clone, Copy, PartialEq, Eq, Structural, Debug, Hash)]
pub struct Energy(pub u8);

impl Energy {
    /// Adds two energy amounts, clamping at the top of the 8-bit range.
    pub fn saturating_add(self, other: Self) -> (r: Self)
        ensures
            r.0 == if self.0 + other.0 <= u8::MAX { self.0 + other.0 } else { u8::MAX as int },
    {
        Energy(self.0.saturating_add(other.0))
    }

    /// Subtracts, clamping at zero.
    pub fn saturating_sub(self, other: Self) -> (r: Self)
        ensures
            r.0 == if self.0 >= other.0 { self.0 - other.0 } else { 0 },
    {
        Energy(self.0.saturating_sub(other.0))
    }
}

/// A fresh vector with the same elements as the given one, for element
/// types that are plain copies.
pub fn copy_vec<T: Copy>(v: &Vec<T>) -> (r: Vec<T>)
    ensures
        r@ == v@,
{
    let mut out: Vec<T> = Vec::new();
    let mut i: usize = 0;
    proof {
        assert(out@ =~= v@.take(0));
    }
    while i < v.len()
        invariant
            i <= v.len(),
            out@ == v@.take(i as int),
        decreases v.len() - i,
    {
        out.push(v[i]);
        proof {
            assert(v@.take(i + 1) =~= v@.take(i as int).push(v@[i as int]));
        }
        i = i + 1;
    }
    proof {
        assert(v@.take(v@.len() as int) =~= v@);
    }
    out
}

/// How long an applied condition stays on a creature: forever, or for a
/// decrementing count of turns. Reaching a count of zero removes the
/// condition.
#[derive(Clone, Copy, PartialEq, Eq, Structural, Debug, Hash)]
pub enum ConditionDuration {
    Interminate,
    Duration(u8),
}

/// An ability's declared targeting rule: whom an ability may be aimed at.
#[derive(Clone, Copy, PartialEq, Eq, Structural, Debug, Hash)]
pub enum TargetSpec {
    /// The target creature must be within one movement step of the actor.
    Melee,
    /// The target creature must be within the given distance, reachable
    /// through open terrain.
    Range(Distance),
    /// The ability applies to the actor itself; no external target.
    Actor,
}

/// Who can see a creature or a special map tile.
#[derive(Clone, Copy, PartialEq, Eq, Structural, Debug, Hash)]
pub enum Visibility {
    GMOnly,
    AllPlayers,
}

/// The tile/movement cost model in use.
#[derive(Clone, Copy, PartialEq, Eq, Structural, Debug, Hash)]
pub enum TileSystem {
    /// Square grid where diagonal movement costs roughly its Euclidean
    /// length (1.41 tiles across a square's diagonal).
    Realistic,
    /// Square grid where diagonal movement costs one tile.
    DnD,
}

/// Distance in centimeters.
#[derive(Clone, Copy, PartialEq, Eq, Structural, Debug, Hash)]
pub struct Distance(pub u32);

impl Distance {
    /// Adds two distances, clamping at the top of the 32-bit range.
    pub fn saturating_add(self, other: Self) -> (r: Self)
        ensures
            r.0 == if self.0 + other.0 <= u32::MAX { self.0 + other.0 } else { u32::MAX as int },
    {
        Distance(self.0.saturating_add(other.0))
    }

    /// Subtracts, clamping at zero.
    pub fn saturating_sub(self, other: Self) -> (r: Self)
        ensures
            r.0 == if self.0 >= other.0 { self.0 - other.0 } else { 0 },
    {
        Distance(self.0.saturating_sub(other.0))
    }
}

} // verus!
