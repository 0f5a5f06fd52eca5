//! Creatures and the application of creature-level logs.
//!
//! All change to a creature happens by applying [`crate::logs::CreatureLog`]
//! values: concrete, deterministic facts (damage dealt, a condition
//! applied) that fold into the next creature state.

use vstd::prelude::*;
use crate::abilities::{
    AbilityStatus, AbilityStatusV, AppliedCondition, AppliedConditionV, Class, ClassV, Condition,
    ConditionV, copy_applied_condition, copy_condition,
};
use crate::error::{GameError, GameErrorV};
use crate::ids::{AbilityID, AttrID, CreatureID};
use crate::logs::{CreatureLog, CreatureLogV};
use crate::types::{ConditionDuration, ConditionID, Distance, Energy, HP, copy_vec};

verus! {

/// What a client supplies to create a creature.
#[derive(Clone, Debug)]
pub struct CreatureCreation {
    pub name: String,
    pub class: String,
    pub portrait_url: String,
}

/// The mathematical model of a [`CreatureCreation`].
pub struct CreatureCreationV {
    pub name: Seq<char>,
    pub class: Seq<char>,
    pub portrait_url: Seq<char>,
}

impl View for CreatureCreation {
    type V = CreatureCreationV;

    open spec fn view(&self) -> CreatureCreationV {
        CreatureCreationV { name: self.name@, class: self.class@, portrait_url: self.portrait_url@ }
    }
}

/// A creature.
#[derive(Debug)]
pub struct Creature {
    pub id: CreatureID,
    pub name: String,
    pub speed: Distance,
    pub max_energy: Energy,
    pub cur_energy: Energy,
    pub abilities: Vec<AbilityStatus>,
    pub class: String,
    pub max_health: HP,
    pub cur_health: HP,
    pub conditions: Vec<(ConditionID, AppliedCondition)>,
    pub note: String,
    pub portrait_url: String,
    pub attributes: Vec<(AttrID, crate::skills::SkillLevel)>,
}

/// The mathematical model of a [`Creature`].
pub struct CreatureV {
    pub id: CreatureID,
    pub name: Seq<char>,
    pub speed: Distance,
    pub max_energy: Energy,
    pub cur_energy: Energy,
    pub abilities: Seq<AbilityStatusV>,
    pub class: Seq<char>,
    pub max_health: HP,
    pub cur_health: HP,
    pub conditions: Seq<(ConditionID, AppliedConditionV)>,
    pub note: Seq<char>,
    pub portrait_url: Seq<char>,
    pub attributes: Seq<(Seq<char>, crate::skills::SkillLevel)>,
}

impl View for Creature {
    type V = CreatureV;

    open spec fn view(&self) -> CreatureV {
        CreatureV {
            id: self.id,
            name: self.name@,
            speed: self.speed,
            max_energy: self.max_energy,
            cur_energy: self.cur_energy,
            abilities: self.abilities@.map_values(|a: AbilityStatus| a@),
            class: self.class@,
            max_health: self.max_health,
            cur_health: self.cur_health,
            conditions: self.conditions@.map_values(
                |p: (ConditionID, AppliedCondition)| (p.0, p.1@),
            ),
            note: self.note@,
            portrait_url: self.portrait_url@,
            attributes: self.attributes@.map_values(
                |p: (AttrID, crate::skills::SkillLevel)| (p.0@, p.1),
            ),
        }
    }
}

/// A fresh copy of a creature, equal in the model.
pub fn copy_creature(c: &Creature) -> (r: Creature)
    ensures
        r@ == c@,
{
    let mut abilities: Vec<AbilityStatus> = Vec::new();
    let mut i: usize = 0;
    while i < c.abilities.len()
        invariant
            i <= c.abilities.len(),
            abilities@.len() == i,
            forall|j: int| 0 <= j < i ==> (#[trigger] abilities@[j])@ == c.abilities@[j]@,
        decreases c.abilities.len() - i,
    {
        let a = &c.abilities[i];
        abilities.push(AbilityStatus { ability_id: a.ability_id.dup(), cooldown: a.cooldown });
        i = i + 1;
    }
    let mut conditions: Vec<(ConditionID, AppliedCondition)> = Vec::new();
    let mut k: usize = 0;
    while k < c.conditions.len()
        invariant
            k <= c.conditions.len(),
            conditions@.len() == k,
            forall|j: int| 0 <= j < k ==> (#[trigger] conditions@[j]).0 == c.conditions@[j].0
                && conditions@[j].1@ == c.conditions@[j].1@,
        decreases c.conditions.len() - k,
    {
        let e = &c.conditions[k];
        conditions.push((e.0, copy_applied_condition(&e.1)));
        k = k + 1;
    }
    let mut attributes: Vec<(AttrID, crate::skills::SkillLevel)> = Vec::new();
    let mut m: usize = 0;
    while m < c.attributes.len()
        invariant
            m <= c.attributes.len(),
            attributes@.len() == m,
            forall|j: int| 0 <= j < m ==> (#[trigger] attributes@[j]).0@ == c.attributes@[j].0@
                && attributes@[j].1 == c.attributes@[j].1,
        decreases c.attributes.len() - m,
    {
        let e = &c.attributes[m];
        attributes.push((e.0.dup(), e.1));
        m = m + 1;
    }
    let r = Creature {
        id: c.id,
        name: c.name.clone(),
        speed: c.speed,
        max_energy: c.max_energy,
        cur_energy: c.cur_energy,
        abilities,
        class: c.class.clone(),
        max_health: c.max_health,
        cur_health: c.cur_health,
        conditions,
        note: c.note.clone(),
        portrait_url: c.portrait_url.clone(),
        attributes,
    };
    proof {
        assert(r@.abilities =~= c@.abilities);
        assert(r@.conditions =~= c@.conditions);
        assert(r@.attributes =~= c@.attributes);
    }
    r
}

/// The index of a condition id in a creature's condition list.
pub open spec fn spec_cond_index(cs: Seq<(ConditionID, AppliedConditionV)>, id: ConditionID) -> Option<int>
    decreases cs.len(),
{
    if cs.len() == 0 {
        None
    } else if cs[0].0 == id {
        Some(0)
    } else {
        match spec_cond_index(cs.drop_first(), id) {
            Some(i) => Some(i + 1),
            None => None,
        }
    }
}

/// What the condition index lookup finds: the first entry with the id.
pub proof fn lemma_cond_index(cs: Seq<(ConditionID, AppliedConditionV)>, id: ConditionID)
    ensures
        match spec_cond_index(cs, id) {
            Some(i) => 0 <= i < cs.len() && cs[i].0 == id,
            None => forall|i: int| 0 <= i < cs.len() ==> cs[i].0 != id,
        },
    decreases cs.len(),
{
    if cs.len() > 0 && cs[0].0 != id {
        lemma_cond_index(cs.drop_first(), id);
        match spec_cond_index(cs.drop_first(), id) {
            Some(i) => {
                assert(cs.drop_first()[i] == cs[i + 1]);
            },
            None => {
                assert forall|i: int| 0 <= i < cs.len() implies cs[i].0 != id by {
                    if i > 0 {
                        assert(cs.drop_first()[i - 1] == cs[i]);
                    }
                }
            },
        }
    }
}

/// The index of an attribute in a creature's attribute list.
pub open spec fn spec_attr_index(attrs: Seq<(Seq<char>, crate::skills::SkillLevel)>, attr: Seq<char>) -> Option<int>
    decreases attrs.len(),
{
    if attrs.len() == 0 {
        None
    } else if attrs[0].0 == attr {
        Some(0)
    } else {
        match spec_attr_index(attrs.drop_first(), attr) {
            Some(i) => Some(i + 1),
            None => None,
        }
    }
}

/// What the attribute lookup finds: the first entry with the name.
pub proof fn lemma_attr_index(attrs: Seq<(Seq<char>, crate::skills::SkillLevel)>, attr: Seq<char>)
    ensures
        match spec_attr_index(attrs, attr) {
            Some(i) => 0 <= i < attrs.len() && attrs[i].0 == attr,
            None => forall|i: int| 0 <= i < attrs.len() ==> attrs[i].0 != attr,
        },
    decreases attrs.len(),
{
    if attrs.len() > 0 && attrs[0].0 != attr {
        lemma_attr_index(attrs.drop_first(), attr);
        match spec_attr_index(attrs.drop_first(), attr) {
            Some(i) => {
                assert(attrs.drop_first()[i] == attrs[i + 1]);
            },
            None => {
                assert forall|i: int| 0 <= i < attrs.len() implies attrs[i].0 != attr by {
                    if i > 0 {
                        assert(attrs.drop_first()[i - 1] == attrs[i]);
                    }
                }
            },
        }
    }
}

/// A condition that blocks acting and moving.
pub open spec fn is_blocking(c: ConditionV) -> bool {
    c == ConditionV::Incapacitated || c == ConditionV::Dead
}

impl CreatureV {
    /// The creature can act: it is neither incapacitated nor dead.
    pub open spec fn can_act(&self) -> bool {
        forall|i: int| 0 <= i < self.conditions.len() ==> !is_blocking(
            (#[trigger] self.conditions[i]).1.condition,
        )
    }

    /// The creature can move: it is neither incapacitated nor dead.
    pub open spec fn can_move(&self) -> bool {
        self.can_act()
    }

    /// Whether a `DoubleMaxMovement` condition sits on the creature.
    pub open spec fn has_double_movement(&self) -> bool {
        exists|i: int| 0 <= i < self.conditions.len() && (#[trigger] self.conditions[i]).1.condition
            == ConditionV::DoubleMaxMovement
    }

    /// The creature's movement budget for a turn: its speed, doubled
    /// (saturating) while a `DoubleMaxMovement` condition sits on it.
    pub open spec fn effective_speed(&self) -> int {
        if self.has_double_movement() {
            if self.speed.0 + self.speed.0 <= u32::MAX {
                self.speed.0 + self.speed.0
            } else {
                u32::MAX as int
            }
        } else {
            self.speed.0 as int
        }
    }

    /// The creature's attribute level, if it has the attribute.
    pub open spec fn attr_level(&self, attr: Seq<char>) -> Option<crate::skills::SkillLevel> {
        match spec_attr_index(self.attributes, attr) {
            Some(i) => Some(self.attributes[i].1),
            None => None,
        }
    }

    /// Whether the creature knows the ability: granted by its class table
    /// or temporarily through an `ActivateAbility` condition.
    pub open spec fn knows_ability(&self, abid: Seq<char>) -> bool {
        (exists|i: int| 0 <= i < self.abilities.len() && (#[trigger] self.abilities[i]).ability_id
            == abid) || (exists|i: int| 0 <= i < self.conditions.len()
            && (#[trigger] self.conditions[i]).1.condition == ConditionV::ActivateAbility(abid))
    }

    /// The damage bonus from `AddDamageBuff` conditions, summed with
    /// saturation at the top of the 8-bit range.
    pub open spec fn damage_buff(&self) -> u8 {
        spec_buff_sum(self.conditions)
    }
}

/// The saturating sum of `AddDamageBuff` amounts in a condition list.
pub open spec fn spec_buff_sum(cs: Seq<(ConditionID, AppliedConditionV)>) -> u8
    decreases cs.len(),
{
    if cs.len() == 0 {
        0
    } else {
        let rest = spec_buff_sum(cs.drop_last());
        match cs.last().1.condition {
            ConditionV::AddDamageBuff(hp) => if rest + hp.0 <= u8::MAX {
                (rest + hp.0) as u8
            } else {
                u8::MAX
            },
            _ => rest,
        }
    }
}

impl Creature {
    /// The creature can act: no `Incapacitated` or `Dead` condition.
    pub fn can_act(&self) -> (r: bool)
        ensures
            r == self@.can_act(),
    {
        let mut i: usize = 0;
        while i < self.conditions.len()
            invariant
                i <= self.conditions.len(),
                forall|j: int| 0 <= j < i ==> !is_blocking(
                    (#[trigger] self@.conditions[j]).1.condition,
                ),
            decreases self.conditions.len() - i,
        {
            match &self.conditions[i].1.condition {
                Condition::Incapacitated => {
                    proof {
                        assert(self@.conditions[i as int].1.condition == ConditionV::Incapacitated);
                    }
                    return false;
                },
                Condition::Dead => {
                    proof {
                        assert(self@.conditions[i as int].1.condition == ConditionV::Dead);
                    }
                    return false;
                },
                _ => {
                    proof {
                        assert(!is_blocking(self@.conditions[i as int].1.condition));
                    }
                },
            }
            i = i + 1;
        }
        true
    }

    /// The creature can move; the same bar as acting.
    pub fn can_move(&self) -> (r: bool)
        ensures
            r == self@.can_move(),
    {
        self.can_act()
    }

    /// The creature's movement budget for this turn.
    pub fn speed(&self) -> (r: Distance)
        ensures
            r.0 == self@.effective_speed(),
    {
        let mut double: bool = false;
        let mut i: usize = 0;
        while i < self.conditions.len()
            invariant
                i <= self.conditions.len(),
                double == exists|j: int| 0 <= j < i && (#[trigger] self@.conditions[j]).1.condition
                    == ConditionV::DoubleMaxMovement,
            decreases self.conditions.len() - i,
        {
            match &self.conditions[i].1.condition {
                Condition::DoubleMaxMovement => {
                    proof {
                        assert(self@.conditions[i as int].1.condition
                            == ConditionV::DoubleMaxMovement);
                    }
                    double = true;
                },
                _ => {
                    proof {
                        assert(self@.conditions[i as int].1.condition == self.conditions@[
                            i as int
                        ].1@.condition);
                        assert(self@.conditions[i as int].1.condition
                            != ConditionV::DoubleMaxMovement);
                    }
                },
            }
            i = i + 1;
        }
        if double {
            self.speed.saturating_add(self.speed)
        } else {
            Distance(self.speed.0)
        }
    }

    /// The damage bonus from the creature's `AddDamageBuff` conditions.
    pub fn damage_buff(&self) -> (r: u8)
        ensures
            r == self@.damage_buff(),
    {
        let mut total: u8 = 0;
        let mut i: usize = 0;
        while i < self.conditions.len()
            invariant
                i <= self.conditions.len(),
                total == spec_buff_sum(self@.conditions.take(i as int)),
            decreases self.conditions.len() - i,
        {
            proof {
                assert(self@.conditions.take(i + 1).drop_last() =~= self@.conditions.take(i as int));
                assert(self@.conditions.take(i + 1).last() == self@.conditions[i as int]);
            }
            match &self.conditions[i].1.condition {
                Condition::AddDamageBuff(hp) => {
                    proof {
                        assert(self@.conditions[i as int].1.condition == ConditionV::AddDamageBuff(
                            *hp,
                        ));
                    }
                    total = if total as u32 + hp.0 as u32 <= 255 {
                        total + hp.0
                    } else {
                        255
                    };
                },
                _ => {},
            }
            i = i + 1;
        }
        proof {
            assert(self@.conditions.take(self@.conditions.len() as int) =~= self@.conditions);
        }
        total
    }

    /// Whether the creature has the given attribute, and at what level.
    pub fn attr_level(&self, attr: &AttrID) -> (r: Option<crate::skills::SkillLevel>)
        ensures
            r == self@.attr_level(attr@),
    {
        let ghost attrs = self@.attributes;
        let mut i: usize = 0;
        proof {
            assert(attrs.skip(0) =~= attrs);
        }
        while i < self.attributes.len()
            invariant
                i <= self.attributes.len(),
                attrs == self@.attributes,
                spec_attr_index(attrs, attr@) == match spec_attr_index(
                    attrs.skip(i as int),
                    attr@,
                ) {
                    Some(k) => Some(k + i),
                    None => None::<int>,
                },
            decreases self.attributes.len() - i,
        {
            proof {
                assert(attrs.skip(i as int)[0] == attrs[i as int]);
                assert(attrs[i as int].0 == self.attributes@[i as int].0@);
            }
            if self.attributes[i].0 == *attr {
                proof {
                    assert(spec_attr_index(attrs, attr@) == Some(i as int));
                }
                return Some(self.attributes[i].1);
            }
            proof {
                assert(attrs.skip(i as int).drop_first() =~= attrs.skip(i + 1));
            }
            i = i + 1;
        }
        proof {
            assert(attrs.skip(i as int).len() == 0);
        }
        None
    }

    /// Whether the creature knows the ability.
    pub fn knows_ability(&self, abid: &AbilityID) -> (r: bool)
        ensures
            r == self@.knows_ability(abid@),
    {
        let mut i: usize = 0;
        while i < self.abilities.len()
            invariant
                i <= self.abilities.len(),
                forall|j: int| 0 <= j < i ==> (#[trigger] self@.abilities[j]).ability_id != abid@,
            decreases self.abilities.len() - i,
        {
            proof {
                assert(self@.abilities[i as int].ability_id == self.abilities@[i as int].ability_id@);
            }
            if self.abilities[i].ability_id == *abid {
                return true;
            }
            i = i + 1;
        }
        let mut k: usize = 0;
        while k < self.conditions.len()
            invariant
                k <= self.conditions.len(),
                forall|j: int| 0 <= j < i ==> (#[trigger] self@.abilities[j]).ability_id != abid@,
                i == self.abilities.len(),
                forall|j: int| 0 <= j < k ==> (#[trigger] self@.conditions[j]).1.condition
                    != ConditionV::ActivateAbility(abid@),
            decreases self.conditions.len() - k,
        {
            match &self.conditions[k].1.condition {
                Condition::ActivateAbility(a) => {
                    if *a == *abid {
                        proof {
                            assert(self@.conditions[k as int].1.condition
                                == ConditionV::ActivateAbility(abid@));
                        }
                        return true;
                    }
                    proof {
                        assert(self@.conditions[k as int].1.condition
                            == ConditionV::ActivateAbility(a@));
                    }
                },
                _ => {},
            }
            k = k + 1;
        }
        false
    }

    /// The next fresh condition id for this creature: one more than the
    /// largest id in use, or zero when none is.
    pub fn next_condition_id(&self) -> (r: Option<ConditionID>)
        ensures
            match r {
                Some(id) => id == spec_next_cond_id(self@.conditions),
                None => spec_next_cond_id(self@.conditions) > usize::MAX,
            },
    {
        let mut max_seen: usize = 0;
        let mut any: bool = false;
        let mut i: usize = 0;
        while i < self.conditions.len()
            invariant
                i <= self.conditions.len(),
                (any, max_seen as int) == spec_max_cond_id(self@.conditions.take(i as int)),
            decreases self.conditions.len() - i,
        {
            proof {
                assert(self@.conditions.take(i + 1).drop_last() =~= self@.conditions.take(i as int));
                assert(self@.conditions.take(i + 1).last() == self@.conditions[i as int]);
            }
            let id = self.conditions[i].0;
            if !any || id > max_seen {
                max_seen = id;
                any = true;
            } else {
                any = true;
            }
            i = i + 1;
        }
        proof {
            assert(self@.conditions.take(self@.conditions.len() as int) =~= self@.conditions);
        }
        if !any {
            Some(0)
        } else if max_seen < usize::MAX {
            Some(max_seen + 1)
        } else {
            None
        }
    }
}

/// The largest condition id in use, with a flag for "any at all".
pub open spec fn spec_max_cond_id(cs: Seq<(ConditionID, AppliedConditionV)>) -> (bool, int)
    decreases cs.len(),
{
    if cs.len() == 0 {
        (false, 0)
    } else {
        let (any, m) = spec_max_cond_id(cs.drop_last());
        let id = cs.last().0 as int;
        if !any || id > m {
            (true, id)
        } else {
            (true, m)
        }
    }
}

/// The next fresh condition id: one past the largest in use.
pub open spec fn spec_next_cond_id(cs: Seq<(ConditionID, AppliedConditionV)>) -> int {
    let (any, m) = spec_max_cond_id(cs);
    if any {
        m + 1
    } else {
        0
    }
}

/// How one creature log folds into a creature. Damage and healing clamp
/// current health to `[0, max_health]`; energy clamps to
/// `[0, max_energy]`; condition bookkeeping fails on an id that is absent
/// (or, for an application, already present).
pub open spec fn spec_apply_creature_log(c: CreatureV, l: CreatureLogV) -> Result<
    CreatureV,
    GameErrorV,
> {
    match l {
        CreatureLogV::Damage(amt, _rolls) => Ok(
            CreatureV {
                cur_health: HP(
                    if c.cur_health.0 >= amt.0 {
                        (c.cur_health.0 - amt.0) as u8
                    } else {
                        0
                    },
                ),
                ..c
            },
        ),
        CreatureLogV::Heal(amt, _rolls) => Ok(
            CreatureV {
                cur_health: HP(
                    if c.cur_health.0 + amt.0 <= c.max_health.0 {
                        (c.cur_health.0 + amt.0) as u8
                    } else {
                        c.max_health.0
                    },
                ),
                ..c
            },
        ),
        CreatureLogV::GenerateEnergy(e) => Ok(
            CreatureV {
                cur_energy: Energy(
                    if c.cur_energy.0 + e.0 <= c.max_energy.0 {
                        (c.cur_energy.0 + e.0) as u8
                    } else {
                        c.max_energy.0
                    },
                ),
                ..c
            },
        ),
        CreatureLogV::ReduceEnergy(e) => Ok(
            CreatureV {
                cur_energy: Energy(
                    if c.cur_energy.0 >= e.0 {
                        (c.cur_energy.0 - e.0) as u8
                    } else {
                        0
                    },
                ),
                ..c
            },
        ),
        CreatureLogV::ApplyCondition(id, dur, cond) => if spec_cond_index(c.conditions, id) is Some {
            Err(GameErrorV::BuggyProgram("condition id already in use"@))
        } else {
            Ok(
                CreatureV {
                    conditions: c.conditions.push(
                        (id, AppliedConditionV { remaining: dur, condition: cond }),
                    ),
                    ..c
                },
            )
        },
        CreatureLogV::DecrementConditionRemaining(id) => match spec_cond_index(c.conditions, id) {
            None => Err(GameErrorV::ConditionNotFound(id)),
            Some(i) => match c.conditions[i].1.remaining {
                ConditionDuration::Interminate => Err(
                    GameErrorV::BuggyProgram("decrementing an interminate condition"@),
                ),
                ConditionDuration::Duration(n) => if n == 0 {
                    Err(GameErrorV::BuggyProgram("decrementing an expired condition"@))
                } else {
                    Ok(
                        CreatureV {
                            conditions: c.conditions.update(
                                i,
                                (
                                    id,
                                    AppliedConditionV {
                                        remaining: ConditionDuration::Duration((n - 1) as u8),
                                        condition: c.conditions[i].1.condition,
                                    },
                                ),
                            ),
                            ..c
                        },
                    )
                },
            },
        },
        CreatureLogV::RemoveCondition(id) => match spec_cond_index(c.conditions, id) {
            None => Err(GameErrorV::ConditionNotFound(id)),
            Some(i) => Ok(CreatureV { conditions: c.conditions.remove(i), ..c }),
        },
    }
}

/// Finds the index of a condition id on a creature.
pub fn find_condition(conditions: &Vec<(ConditionID, AppliedCondition)>, id: ConditionID) -> (r:
    Option<usize>)
    ensures
        match r {
            Some(i) => spec_cond_index(
                conditions@.map_values(|p: (ConditionID, AppliedCondition)| (p.0, p.1@)),
                id,
            ) == Some(i as int) && i < conditions@.len(),
            None => spec_cond_index(
                conditions@.map_values(|p: (ConditionID, AppliedCondition)| (p.0, p.1@)),
                id,
            ) is None,
        },
{
    let ghost cs = conditions@.map_values(|p: (ConditionID, AppliedCondition)| (p.0, p.1@));
    let mut i: usize = 0;
    proof {
        assert(cs.skip(0) =~= cs);
    }
    while i < conditions.len()
        invariant
            i <= conditions.len(),
            cs == conditions@.map_values(|p: (ConditionID, AppliedCondition)| (p.0, p.1@)),
            spec_cond_index(cs, id) == match spec_cond_index(cs.skip(i as int), id) {
                Some(k) => Some(k + i),
                None => None::<int>,
            },
            forall|j: int| 0 <= j < i ==> (#[trigger] cs[j]).0 != id,
        decreases conditions.len() - i,
    {
        proof {
            assert(cs.skip(i as int)[0] == cs[i as int]);
        }
        if conditions[i].0 == id {
            return Some(i);
        }
        proof {
            assert(cs.skip(i as int).drop_first() =~= cs.skip(i + 1));
        }
        i = i + 1;
    }
    proof {
        assert(cs.skip(i as int).len() == 0);
    }
    None
}

/// Applies one creature log to a creature.
pub fn apply_creature_log(c: Creature, l: &CreatureLog) -> (r: Result<Creature, GameError>)
    ensures
        match r {
            Ok(c2) => spec_apply_creature_log(c@, l@) == Ok::<CreatureV, GameErrorV>(c2@),
            Err(e) => spec_apply_creature_log(c@, l@) == Err::<CreatureV, GameErrorV>(e@),
        },
{
    match l {
        CreatureLog::Damage(amt, _rolls) => {
            let mut c = c;
            c.cur_health = c.cur_health.saturating_sub(*amt);
            Ok(c)
        },
        CreatureLog::Heal(amt, _rolls) => {
            let mut c = c;
            let raised = c.cur_health.saturating_add(*amt);
            c.cur_health = if raised.0 <= c.max_health.0 {
                raised
            } else {
                HP(c.max_health.0)
            };
            Ok(c)
        },
        CreatureLog::GenerateEnergy(e) => {
            let mut c = c;
            let raised = c.cur_energy.saturating_add(*e);
            c.cur_energy = if raised.0 <= c.max_energy.0 {
                raised
            } else {
                Energy(c.max_energy.0)
            };
            Ok(c)
        },
        CreatureLog::ReduceEnergy(e) => {
            let mut c = c;
            c.cur_energy = c.cur_energy.saturating_sub(*e);
            Ok(c)
        },
        CreatureLog::ApplyCondition(id, dur, cond) => {
            match find_condition(&c.conditions, *id) {
                Some(_) => Err(GameError::BuggyProgram("condition id already in use".to_string())),
                None => {
                    let ghost pre = c@.conditions;
                    let mut c = c;
                    let ac = AppliedCondition { remaining: *dur, condition: copy_condition(cond) };
                    let ghost acv = ac@;
                    c.conditions.push((*id, ac));
                    proof {
                        assert(c@.conditions =~= pre.push((*id, acv)));
                    }
                    Ok(c)
                },
            }
        },
        CreatureLog::DecrementConditionRemaining(id) => {
            match find_condition(&c.conditions, *id) {
                None => Err(GameError::ConditionNotFound(*id)),
                Some(i) => {
                    match c.conditions[i].1.remaining {
                        ConditionDuration::Interminate => Err(
                            GameError::BuggyProgram(
                                "decrementing an interminate condition".to_string(),
                            ),
                        ),
                        ConditionDuration::Duration(n) => {
                            proof {
                                lemma_cond_index(c@.conditions, *id);
                            }
                            if n == 0 {
                                Err(
                                    GameError::BuggyProgram(
                                        "decrementing an expired condition".to_string(),
                                    ),
                                )
                            } else {
                                let ghost pre = c@.conditions;
                                let ghost vpre = c.conditions@;
                                let mut c = c;
                                let entry = c.conditions.remove(i);
                                let updated = AppliedCondition {
                                    remaining: ConditionDuration::Duration(n - 1),
                                    condition: entry.1.condition,
                                };
                                let ghost uv = updated@;
                                let id_kept = entry.0;
                                c.conditions.insert(i, (id_kept, updated));
                                proof {
                                    assert(c.conditions@ =~= vpre.update(
                                        i as int,
                                        (id_kept, updated),
                                    ));
                                    assert(c@.conditions =~= pre.update(i as int, (*id, uv)));
                                }
                                Ok(c)
                            }
                        },
                    }
                },
            }
        },
        CreatureLog::RemoveCondition(id) => {
            match find_condition(&c.conditions, *id) {
                None => Err(GameError::ConditionNotFound(*id)),
                Some(i) => {
                    proof {
                        lemma_cond_index(c@.conditions, *id);
                    }
                    let ghost pre = c@.conditions;
                    let mut c = c;
                    c.conditions.remove(i);
                    proof {
                        assert(c@.conditions =~= pre.remove(i as int));
                    }
                    Ok(c)
                },
            }
        },
    }
}

} // verus!
