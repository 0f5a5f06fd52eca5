//! The dice engine: verifiable random outcomes for damage and healing.
//!
//! A die specification is a count and a face size; rolling draws that many
//! independent uniform integers in `[1, size]` and sums them. Callers embed
//! the raw per-die outcomes in the log they emit, so replaying history
//! never re-invokes randomness.

use vstd::prelude::*;

verus! {

/// A die specification: `num` dice of `size` faces each.
#[derive(Clone, Copy, PartialEq, Eq, Structural, Debug, Hash, PartialOrd, Ord)]
pub struct Dice {
    pub num: u8,
    pub size: u8,
}

/// The sum of a sequence of rolled values.
pub open spec fn spec_sum(rolls: Seq<u8>) -> int
    decreases rolls.len(),
{
    if rolls.len() == 0 {
        0
    } else {
        spec_sum(rolls.drop_last()) + rolls.last()
    }
}

/// Every rolled value lies on a face of a die of the given size.
pub open spec fn rolls_valid(rolls: Seq<u8>, size: u8) -> bool {
    forall|i: int| 0 <= i < rolls.len() ==> 1 <= #[trigger] rolls[i] <= size
}

/// The sum of a sequence of rolled values is bounded by the number of
/// values times the largest face.
pub proof fn lemma_sum_bound(rolls: Seq<u8>, size: u8)
    requires
        rolls_valid(rolls, size),
    ensures
        rolls.len() <= spec_sum(rolls) <= rolls.len() * size,
    decreases rolls.len(),
{
    if rolls.len() > 0 {
        assert(rolls_valid(rolls.drop_last(), size));
        lemma_sum_bound(rolls.drop_last(), size);
        assert(spec_sum(rolls) == spec_sum(rolls.drop_last()) + rolls.last());
        assert((rolls.len() - 1) * size + size == rolls.len() * size) by (nonlinear_arith);
    }
}

/// Relies on `rand::random_range`: a uniform draw from `lo..=hi` out of the
/// thread-local random number generator. Panics on an empty range, so the
/// bounds must be ordered.
#[verifier::external_body]
pub(crate) fn sample_range(lo: u8, hi: u8) -> (r: u8)
    requires
        lo <= hi,
    ensures
        lo <= r <= hi,
{
    rand::random_range(lo..=hi)
}

impl Dice {
    /// Dice that always roll exactly `val`: `val` dice with a single face.
    pub fn flat(val: u8) -> (r: Dice)
        ensures
            r.num == val,
            r.size == 1,
    {
        Dice { num: val, size: 1 }
    }

    /// Rolls the dice, returning the individual outcomes and their sum.
    /// The sum is always the exact sum of the outcomes, and every outcome
    /// lies in `[1, size]`; which faces come up is random.
    pub fn roll(&self) -> (r: (Vec<u8>, u32))
        requires
            self.size >= 1,
        ensures
            r.0@.len() == self.num,
            rolls_valid(r.0@, self.size),
            r.1 == spec_sum(r.0@),
    {
        let mut vals: Vec<u8> = Vec::new();
        let mut sum: u32 = 0;
        let mut i: u8 = 0;
        while i < self.num
            invariant
                i <= self.num,
                vals@.len() == i,
                rolls_valid(vals@, self.size),
                self.size >= 1,
                sum == spec_sum(vals@),
                sum <= 255 * (i as u32),
            decreases self.num - i,
        {
            let v = sample_range(1, self.size);
            proof {
                assert(vals@.push(v).drop_last() =~= vals@);
            }
            sum = sum + (v as u32);
            vals.push(v);
            i = i + 1;
        }
        (vals, sum)
    }
}

} // verus!
