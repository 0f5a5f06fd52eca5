//! The combat state machine: initiative order, turn transitions, movement
//! budget.
//!
//! A combat is an ordered, nonempty sequence of creatures with an explicit
//! current-turn cursor, and the movement distance the current creature has
//! consumed this turn. Every structural mutator re-validates the cursor.

use vstd::prelude::*;
use crate::error::{GameError, GameErrorV};
use crate::ids::{CreatureID, SceneID};
use crate::logs::CombatLog;
use crate::types::Distance;

verus! {

/// The running combat.
#[derive(Debug)]
pub struct Combat {
    /// The scene the combat is bound to.
    pub scene: SceneID,
    /// The initiative order; never empty while combat is active.
    pub creatures: Vec<CreatureID>,
    /// The position in the initiative order whose turn it is.
    pub cursor: usize,
    /// Movement distance already consumed this turn.
    pub movement_used: Distance,
}

/// The mathematical model of a [`Combat`].
pub struct CombatV {
    pub scene: SceneID,
    pub creatures: Seq<CreatureID>,
    pub cursor: usize,
    pub movement_used: Distance,
}

impl View for Combat {
    type V = CombatV;

    open spec fn view(&self) -> CombatV {
        CombatV {
            scene: self.scene,
            creatures: self.creatures@,
            cursor: self.cursor,
            movement_used: self.movement_used,
        }
    }
}

impl CombatV {
    /// The combat invariant: the initiative order is never empty (and, as
    /// a vector, fits in memory) and the cursor always indexes a valid
    /// position.
    pub open spec fn wf(&self) -> bool {
        0 < self.creatures.len() <= usize::MAX && (self.cursor as int) < self.creatures.len()
    }

    /// The creature whose turn it is.
    pub open spec fn current_creature(&self) -> CreatureID
        recommends
            self.wf(),
    {
        self.creatures[self.cursor as int]
    }
}

/// A fresh copy of a combat, equal in the model.
pub fn copy_combat(c: &Combat) -> (r: Combat)
    ensures
        r@ == c@,
{
    Combat {
        scene: c.scene,
        creatures: crate::types::copy_vec(&c.creatures),
        cursor: c.cursor,
        movement_used: c.movement_used,
    }
}

/// The index of a creature id in an initiative order.
pub open spec fn spec_cid_index(cs: Seq<CreatureID>, cid: CreatureID) -> Option<int>
    decreases cs.len(),
{
    if cs.len() == 0 {
        None
    } else if cs[0] == cid {
        Some(0)
    } else {
        match spec_cid_index(cs.drop_first(), cid) {
            Some(i) => Some(i + 1),
            None => None,
        }
    }
}

/// What the initiative index lookup finds: the first entry for the id.
pub proof fn lemma_cid_index(cs: Seq<CreatureID>, cid: CreatureID)
    ensures
        match spec_cid_index(cs, cid) {
            Some(i) => 0 <= i < cs.len() && cs[i] == cid,
            None => forall|i: int| 0 <= i < cs.len() ==> cs[i] != cid,
        },
    decreases cs.len(),
{
    if cs.len() > 0 && cs[0] != cid {
        lemma_cid_index(cs.drop_first(), cid);
        match spec_cid_index(cs.drop_first(), cid) {
            Some(i) => {
                assert(cs.drop_first()[i] == cs[i + 1]);
            },
            None => {
                assert forall|i: int| 0 <= i < cs.len() implies cs[i] != cid by {
                    if i > 0 {
                        assert(cs.drop_first()[i - 1] == cs[i]);
                    }
                }
            },
        }
    }
}

/// Finds a creature id in an initiative order.
pub fn find_cid(cs: &Vec<CreatureID>, cid: CreatureID) -> (r: Option<usize>)
    ensures
        match r {
            Some(i) => spec_cid_index(cs@, cid) == Some(i as int) && i < cs@.len(),
            None => spec_cid_index(cs@, cid) is None,
        },
{
    let mut i: usize = 0;
    proof {
        assert(cs@.skip(0) =~= cs@);
    }
    while i < cs.len()
        invariant
            i <= cs.len(),
            spec_cid_index(cs@, cid) == match spec_cid_index(cs@.skip(i as int), cid) {
                Some(k) => Some(k + i),
                None => None::<int>,
            },
        decreases cs.len() - i,
    {
        proof {
            assert(cs@.skip(i as int)[0] == cs@[i as int]);
        }
        if cs[i] == cid {
            return Some(i);
        }
        proof {
            assert(cs@.skip(i as int).drop_first() =~= cs@.skip(i + 1));
        }
        i = i + 1;
    }
    proof {
        assert(cs@.skip(i as int).len() == 0);
    }
    None
}

/// How one combat log folds into the running combat.
///
/// Consuming movement saturates the counter (the executor only emits it
/// within the budget). Repositioning a creature keeps the cursor pointing
/// at the same position. Ending a turn advances the cursor to the next
/// position, wrapping circularly after the last creature, and resets the
/// movement counter.
pub open spec fn spec_apply_combat_log(c: CombatV, l: CombatLog) -> Result<CombatV, GameErrorV> {
    match l {
        CombatLog::ConsumeMovement(d) => Ok(
            CombatV {
                movement_used: Distance(
                    if c.movement_used.0 + d.0 <= u32::MAX {
                        (c.movement_used.0 + d.0) as u32
                    } else {
                        u32::MAX
                    },
                ),
                ..c
            },
        ),
        CombatLog::ChangeCreatureInitiative(cid, idx) => match spec_cid_index(c.creatures, cid) {
            None => Err(GameErrorV::CreatureNotFound(crate::ids::uuid_text(cid.0))),
            Some(i) => if idx >= c.creatures.len() {
                Err(GameErrorV::InitiativeOutOfBounds(idx))
            } else {
                Ok(CombatV { creatures: c.creatures.remove(i).insert(idx as int, cid), ..c })
            },
        },
        CombatLog::EndTurn(_cid) => if c.creatures.len() == 0 {
            Err(GameErrorV::BuggyProgram("turn ended with no combatants"@))
        } else {
            Ok(
                CombatV {
                    cursor: if c.cursor + 1 < c.creatures.len() {
                        (c.cursor + 1) as usize
                    } else {
                        0
                    },
                    movement_used: Distance(0),
                    ..c
                },
            )
        },
    }
}

/// Applies one combat log to the running combat.
pub fn apply_combat_log(c: Combat, l: &CombatLog) -> (r: Result<Combat, GameError>)
    ensures
        match r {
            Ok(c2) => spec_apply_combat_log(c@, *l) == Ok::<CombatV, GameErrorV>(c2@),
            Err(e) => spec_apply_combat_log(c@, *l) == Err::<CombatV, GameErrorV>(e@),
        },
{
    match l {
        CombatLog::ConsumeMovement(d) => {
            let mut c = c;
            c.movement_used = c.movement_used.saturating_add(*d);
            Ok(c)
        },
        CombatLog::ChangeCreatureInitiative(cid, idx) => {
            match find_cid(&c.creatures, *cid) {
                None => Err(GameError::CreatureNotFound(cid.to_string())),
                Some(i) => {
                    if *idx >= c.creatures.len() {
                        Err(GameError::InitiativeOutOfBounds(*idx))
                    } else {
                        proof {
                            lemma_cid_index(c@.creatures, *cid);
                        }
                        let mut c = c;
                        c.creatures.remove(i);
                        c.creatures.insert(*idx, *cid);
                        Ok(c)
                    }
                },
            }
        },
        CombatLog::EndTurn(_cid) => {
            if c.creatures.len() == 0 {
                Err(GameError::BuggyProgram("turn ended with no combatants".to_string()))
            } else {
                let mut c = c;
                c.cursor = if c.cursor < c.creatures.len() - 1 {
                    c.cursor + 1
                } else {
                    0
                };
                c.movement_used = Distance(0);
                Ok(c)
            }
        },
    }
}

/// Ending a turn always advances the cursor to the next position, wrapping
/// to the first creature after the last, resets the movement counter, and
/// preserves the combat invariant.
pub proof fn lemma_end_turn_advances(c: CombatV, cid: CreatureID)
    requires
        c.wf(),
    ensures
        match spec_apply_combat_log(c, CombatLog::EndTurn(cid)) {
            Ok(c2) => c2.wf() && c2.movement_used.0 == 0 && c2.cursor as int == (
            (c.cursor + 1) as int % (c.creatures.len() as int)) && c2.creatures == c.creatures
                && c2.scene == c.scene,
            Err(_) => false,
        },
{
    let n = c.creatures.len() as int;
    let k = c.cursor as int + 1;
    if k < n {
        assert(k % n == k) by (nonlinear_arith)
            requires
                0 <= k < n,
        ;
    } else {
        assert(k == n);
        assert(n % n == 0) by (nonlinear_arith)
            requires
                n > 0,
        ;
    }
}

/// Structural mutation of the initiative order preserves the combat
/// invariant: repositioning a creature keeps the order nonempty and the
/// cursor in range.
pub proof fn lemma_initiative_preserves_wf(c: CombatV, cid: CreatureID, idx: usize)
    requires
        c.wf(),
    ensures
        match spec_apply_combat_log(c, CombatLog::ChangeCreatureInitiative(cid, idx)) {
            Ok(c2) => c2.wf() && c2.creatures.len() == c.creatures.len(),
            Err(_) => true,
        },
{
    match spec_cid_index(c.creatures, cid) {
        Some(i) => {
            lemma_cid_index(c.creatures, cid);
        },
        None => {},
    }
}

} // verus!
