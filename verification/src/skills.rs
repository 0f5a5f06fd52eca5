//! The skill-check probability model.
//!
//! A creature's competence at an attribute is a [`SkillLevel`]. Checking an
//! attribute against a difficulty maps the pair to a success percentage
//! through a fixed table over the difference of their ordinals.

use vstd::prelude::*;
use crate::error::GameError;

verus! {

/// A skill level, totally ordered from worst to best. Read "a {level}
/// person has a 75% chance of succeeding at a task of equal difficulty".
#[derive(Clone, Copy, PartialEq, Eq, Structural, Debug, Hash, PartialOrd, Ord)]
pub enum SkillLevel {
    Inept,
    Unskilled,
    Skilled,
    Expert,
    Supernatural,
}

/// The ordinal of a skill level, from -1 for `Inept` to 3 for
/// `Supernatural`.
pub open spec fn spec_skill_ord(level: SkillLevel) -> int {
    match level {
        SkillLevel::Inept => -1,
        SkillLevel::Unskilled => 0,
        SkillLevel::Skilled => 1,
        SkillLevel::Expert => 2,
        SkillLevel::Supernatural => 3,
    }
}

/// The fixed success-percentage table over the difference
/// `difficulty ordinal - actor ordinal`, defined for differences in
/// `[-4, 4]`.
pub open spec fn spec_challenge_table(diff: int) -> u8
    recommends
        -4 <= diff <= 4,
{
    if diff == -4 {
        100
    } else if diff == -3 {
        99
    } else if diff == -2 {
        95
    } else if diff == -1 {
        85
    } else if diff == 0 {
        75
    } else if diff == 1 {
        50
    } else if diff == 2 {
        10
    } else if diff == 3 {
        1
    } else {
        0
    }
}

impl SkillLevel {
    /// The level's ordinal.
    pub fn to_ord(&self) -> (r: i8)
        ensures
            r as int == spec_skill_ord(*self),
    {
        match self {
            SkillLevel::Inept => -1,
            SkillLevel::Unskilled => 0,
            SkillLevel::Skilled => 1,
            SkillLevel::Expert => 2,
            SkillLevel::Supernatural => 3,
        }
    }

    /// The chance, in percent, that an actor of this skill level succeeds
    /// at a task of the given difficulty level. Total: any two levels are
    /// at most four ordinals apart, so the table always has an answer.
    pub fn challenge(&self, difficulty_level: SkillLevel) -> (r: u8)
        ensures
            r == spec_challenge_table(spec_skill_ord(difficulty_level) - spec_skill_ord(*self)),
    {
        let diff: i8 = difficulty_level.to_ord() - self.to_ord();
        match challenge_table(diff) {
            Ok(p) => p,
            // Unreachable: the ordinals span [-1, 3], so the difference
            // always lies within the table's domain.
            Err(_) => 0,
        }
    }
}

/// Looks up the success-percentage table for a raw ordinal difference. A
/// difference outside `[-4, 4]` is a programming-contract violation and is
/// reported as an internal-defect error rather than a user error.
pub fn challenge_table(diff: i8) -> (r: Result<u8, GameError>)
    ensures
        match r {
            Ok(p) => -4 <= diff <= 4 && p == spec_challenge_table(diff as int),
            Err(e) => !(-4 <= diff <= 4) && e matches GameError::BuggyProgram(_),
        },
{
    match diff {
        -4 => Ok(100),
        -3 => Ok(99),
        -2 => Ok(95),
        -1 => Ok(85),
        0 => Ok(75),
        1 => Ok(50),
        2 => Ok(10),
        3 => Ok(1),
        4 => Ok(0),
        _ => Err(GameError::BuggyProgram(
            "two skill levels were too far apart".to_string(),
        )),
    }
}

/// The skill table is total over skill-level pairs: every pair of levels
/// has a defined success percentage, equal levels sit at 75%, and the
/// difference of ordinals always lies within the table's domain.
pub proof fn lemma_challenge_total(actor: SkillLevel, difficulty: SkillLevel)
    ensures
        -4 <= spec_skill_ord(difficulty) - spec_skill_ord(actor) <= 4,
        actor == difficulty ==> spec_challenge_table(
            spec_skill_ord(difficulty) - spec_skill_ord(actor),
        ) == 75,
        spec_challenge_table(spec_skill_ord(difficulty) - spec_skill_ord(actor)) <= 100,
{
}

} // verus!
