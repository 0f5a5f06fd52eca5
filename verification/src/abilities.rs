//! Abilities, effects and conditions.
//!
//! An [`Ability`] carries an ordered list of [`Effect`]s; resolving an
//! ability interprets its effects in list order after recursively
//! flattening [`Effect::MultiEffect`]. A [`Condition`] is a persistent
//! status attached to a creature together with a remaining duration.

use vstd::prelude::*;
use crate::dice::Dice;
use crate::ids::AbilityID;
use crate::types::{ConditionDuration, Energy, HP};

verus! {

/// A single thing an ability does to its target.
#[derive(Debug)]
pub enum Effect {
    /// Attach a condition to the target for the given duration.
    ApplyCondition(ConditionDuration, Condition),
    /// Roll the dice and heal the target by the sum.
    Heal(Dice),
    /// Roll the dice and damage the target by the sum.
    Damage(Dice),
    /// A list of effects, flattened recursively before interpretation.
    MultiEffect(Vec<Effect>),
    /// Restore the given amount of energy to the target.
    GenerateEnergy(Energy),
}

/// A persistent status effect attached to a creature.
#[derive(Debug)]
pub enum Condition {
    /// Re-applies the wrapped effect once per turn until the duration
    /// expires.
    RecurringEffect(Box<Effect>),
    /// The creature can neither act nor move.
    Dead,
    /// The creature can neither act nor move.
    Incapacitated,
    /// Increases damage subsequently dealt by the creature.
    AddDamageBuff(HP),
    /// Doubles the creature's movement budget for the turn.
    DoubleMaxMovement,
    /// Temporarily grants access to an ability.
    ActivateAbility(AbilityID),
}

/// The mathematical model of an [`Effect`].
pub enum EffectV {
    ApplyCondition(ConditionDuration, ConditionV),
    Heal(Dice),
    Damage(Dice),
    MultiEffect(Seq<EffectV>),
    GenerateEnergy(Energy),
}

/// The mathematical model of a [`Condition`].
pub enum ConditionV {
    RecurringEffect(Box<EffectV>),
    Dead,
    Incapacitated,
    AddDamageBuff(HP),
    DoubleMaxMovement,
    ActivateAbility(Seq<char>),
}

/// The model of an effect.
pub open spec fn effect_view(e: Effect) -> EffectV
    decreases e,
{
    match e {
        Effect::ApplyCondition(d, c) => EffectV::ApplyCondition(d, condition_view(c)),
        Effect::Heal(d) => EffectV::Heal(d),
        Effect::Damage(d) => EffectV::Damage(d),
        Effect::MultiEffect(es) => EffectV::MultiEffect(effects_view(es@)),
        Effect::GenerateEnergy(n) => EffectV::GenerateEnergy(n),
    }
}

/// The model of each effect in a sequence, in order.
pub open spec fn effects_view(es: Seq<Effect>) -> Seq<EffectV>
    decreases es,
{
    if es.len() == 0 {
        Seq::empty()
    } else {
        effects_view(es.drop_last()).push(effect_view(es.last()))
    }
}

/// The model of a condition.
pub open spec fn condition_view(c: Condition) -> ConditionV
    decreases c,
{
    match c {
        Condition::RecurringEffect(e) => ConditionV::RecurringEffect(Box::new(effect_view(*e))),
        Condition::Dead => ConditionV::Dead,
        Condition::Incapacitated => ConditionV::Incapacitated,
        Condition::AddDamageBuff(n) => ConditionV::AddDamageBuff(n),
        Condition::DoubleMaxMovement => ConditionV::DoubleMaxMovement,
        Condition::ActivateAbility(id) => ConditionV::ActivateAbility(id@),
    }
}

impl View for Effect {
    type V = EffectV;

    open spec fn view(&self) -> EffectV {
        effect_view(*self)
    }
}

impl View for Condition {
    type V = ConditionV;

    open spec fn view(&self) -> ConditionV {
        condition_view(*self)
    }
}

/// `effects_view` applied to an indexable position.
pub proof fn lemma_effects_view_index(es: Seq<Effect>, i: int)
    requires
        0 <= i < es.len(),
    ensures
        effects_view(es).len() == es.len(),
        effects_view(es)[i] == effect_view(es[i]),
    decreases es,
{
    if es.len() > 0 {
        if i < es.len() - 1 {
            lemma_effects_view_index(es.drop_last(), i);
        } else {
            if es.len() > 1 {
                lemma_effects_view_index(es.drop_last(), 0);
            }
        }
    }
}

/// `effects_view` of a sequence's length.
pub proof fn lemma_effects_view_len(es: Seq<Effect>)
    ensures
        effects_view(es).len() == es.len(),
    decreases es,
{
    if es.len() > 0 {
        lemma_effects_view_len(es.drop_last());
    }
}

/// `effects_view` distributes over a push.
pub proof fn lemma_effects_view_push(s: Seq<Effect>, x: Effect)
    ensures
        effects_view(s.push(x)) == effects_view(s).push(effect_view(x)),
{
    assert(s.push(x).drop_last() =~= s);
}

/// `spec_flatten_effects` distributes over a push.
pub proof fn lemma_flatten_push(s: Seq<EffectV>, x: EffectV)
    ensures
        spec_flatten_effects(s.push(x)) == spec_flatten_effects(s) + spec_flatten_effect(x),
{
    assert(s.push(x).drop_last() =~= s);
}

/// A fresh copy of an effect, equal in the model.
#[verifier::loop_isolation(false)]
pub fn copy_effect(e: &Effect) -> (r: Effect)
    ensures
        r@ == e@,
    decreases *e,
{
    match e {
        Effect::ApplyCondition(d, c) => Effect::ApplyCondition(*d, copy_condition(c)),
        Effect::Heal(d) => Effect::Heal(*d),
        Effect::Damage(d) => Effect::Damage(*d),
        Effect::MultiEffect(es) => {
            let mut out: Vec<Effect> = Vec::new();
            let mut i: usize = 0;
            while i < es.len()
                invariant
                    i <= es.len(),
                    out@.len() == i,
                    effects_view(out@) == effects_view(es@.take(i as int)),
                decreases es.len() - i,
            {
                proof {
                    let ghost ee: Effect = *e;
                    assert(decreases_to!(ee => ee->MultiEffect_0@[i as int]));
                    assert(ee->MultiEffect_0@[i as int] == es@[i as int]);
                }
                let c = copy_effect(&es[i]);
                proof {
                    lemma_effects_view_push(out@, c);
                    assert(es@.take(i + 1) =~= es@.take(i as int).push(es@[i as int]));
                    lemma_effects_view_push(es@.take(i as int), es@[i as int]);
                }
                out.push(c);
                i = i + 1;
            }
            proof {
                assert(es@.take(es@.len() as int) =~= es@);
            }
            Effect::MultiEffect(out)
        },
        Effect::GenerateEnergy(n) => Effect::GenerateEnergy(*n),
    }
}

/// A fresh copy of a condition, equal in the model.
pub fn copy_condition(c: &Condition) -> (r: Condition)
    ensures
        r@ == c@,
    decreases *c,
{
    match c {
        Condition::RecurringEffect(e) => Condition::RecurringEffect(Box::new(copy_effect(e))),
        Condition::Dead => Condition::Dead,
        Condition::Incapacitated => Condition::Incapacitated,
        Condition::AddDamageBuff(n) => Condition::AddDamageBuff(*n),
        Condition::DoubleMaxMovement => Condition::DoubleMaxMovement,
        Condition::ActivateAbility(id) => Condition::ActivateAbility(id.dup()),
    }
}

/// A condition together with its remaining duration, as attached to a
/// creature.
#[derive(Debug)]
pub struct AppliedCondition {
    pub remaining: ConditionDuration,
    pub condition: Condition,
}

/// The mathematical model of an [`AppliedCondition`].
pub struct AppliedConditionV {
    pub remaining: ConditionDuration,
    pub condition: ConditionV,
}

impl View for AppliedCondition {
    type V = AppliedConditionV;

    open spec fn view(&self) -> AppliedConditionV {
        AppliedConditionV { remaining: self.remaining, condition: self.condition@ }
    }
}

impl Condition {
    /// Attaches a duration to the condition.
    pub fn apply(&self, duration: ConditionDuration) -> (r: AppliedCondition)
        ensures
            r@ == (AppliedConditionV { remaining: duration, condition: self@ }),
    {
        AppliedCondition { remaining: duration, condition: copy_condition(self) }
    }
}

/// A fresh copy of an applied condition, equal in the model.
pub fn copy_applied_condition(c: &AppliedCondition) -> (r: AppliedCondition)
    ensures
        r@ == c@,
{
    AppliedCondition { remaining: c.remaining, condition: copy_condition(&c.condition) }
}

/// An ability: what a creature can do to a target.
#[derive(Debug)]
pub struct Ability {
    pub name: String,
    pub target: crate::types::TargetSpec,
    pub cost: Energy,
    pub effects: Vec<Effect>,
    pub usable_ooc: bool,
}

/// The mathematical model of an [`Ability`].
pub struct AbilityV {
    pub name: Seq<char>,
    pub target: crate::types::TargetSpec,
    pub cost: Energy,
    pub effects: Seq<EffectV>,
    pub usable_ooc: bool,
}

impl View for Ability {
    type V = AbilityV;

    open spec fn view(&self) -> AbilityV {
        AbilityV {
            name: self.name@,
            target: self.target,
            cost: self.cost,
            effects: effects_view(self.effects@),
            usable_ooc: self.usable_ooc,
        }
    }
}

/// An entry in a creature's known-ability table: the ability and its
/// current cooldown.
#[derive(Clone, Debug)]
pub struct AbilityStatus {
    pub ability_id: AbilityID,
    pub cooldown: u8,
}

/// The mathematical model of an [`AbilityStatus`].
pub struct AbilityStatusV {
    pub ability_id: Seq<char>,
    pub cooldown: u8,
}

impl View for AbilityStatus {
    type V = AbilityStatusV;

    open spec fn view(&self) -> AbilityStatusV {
        AbilityStatusV { ability_id: self.ability_id@, cooldown: self.cooldown }
    }
}

/// A creature class (rogue, mage, warrior): the abilities it grants and
/// the conditions permanently applied to creatures of the class.
#[derive(Debug)]
pub struct Class {
    /// Abilities that creatures of this class can use.
    pub abilities: Vec<AbilityID>,
    /// Conditions permanently applied to creatures of this class.
    pub conditions: Vec<Condition>,
    /// An SVG-compatible color specifier.
    pub color: String,
}

/// The mathematical model of a [`Class`].
pub struct ClassV {
    pub abilities: Seq<Seq<char>>,
    pub conditions: Seq<ConditionV>,
    pub color: Seq<char>,
}

/// The model of each condition in a sequence, in order.
pub open spec fn conditions_view(cs: Seq<Condition>) -> Seq<ConditionV>
    decreases cs,
{
    if cs.len() == 0 {
        Seq::empty()
    } else {
        conditions_view(cs.drop_last()).push(condition_view(cs.last()))
    }
}

/// `conditions_view` applied to an indexable position.
pub proof fn lemma_conditions_view_index(cs: Seq<Condition>, i: int)
    requires
        0 <= i < cs.len(),
    ensures
        conditions_view(cs).len() == cs.len(),
        conditions_view(cs)[i] == condition_view(cs[i]),
    decreases cs,
{
    if cs.len() > 0 {
        if i < cs.len() - 1 {
            lemma_conditions_view_index(cs.drop_last(), i);
        } else {
            if cs.len() > 1 {
                lemma_conditions_view_index(cs.drop_last(), 0);
            }
        }
    }
}

/// `conditions_view` of a sequence's length.
pub proof fn lemma_conditions_view_len(cs: Seq<Condition>)
    ensures
        conditions_view(cs).len() == cs.len(),
    decreases cs,
{
    if cs.len() > 0 {
        lemma_conditions_view_len(cs.drop_last());
    }
}

impl View for Class {
    type V = ClassV;

    open spec fn view(&self) -> ClassV {
        ClassV {
            abilities: self.abilities@.map_values(|a: AbilityID| a@),
            conditions: conditions_view(self.conditions@),
            color: self.color@,
        }
    }
}

/// Recursively flattens an effect: a `MultiEffect` becomes its members,
/// flattened in order; any other effect stands alone.
pub open spec fn spec_flatten_effect(e: EffectV) -> Seq<EffectV>
    decreases e,
{
    match e {
        EffectV::MultiEffect(es) => spec_flatten_effects(es),
        _ => seq![e],
    }
}

/// Recursively flattens a sequence of effects, in order.
pub open spec fn spec_flatten_effects(es: Seq<EffectV>) -> Seq<EffectV>
    decreases es,
{
    if es.len() == 0 {
        Seq::empty()
    } else {
        spec_flatten_effects(es.drop_last()) + spec_flatten_effect(es.last())
    }
}

/// Appends the flattening of `e` to `out`.
#[verifier::loop_isolation(false)]
pub fn flatten_effect_into(e: &Effect, out: &mut Vec<Effect>)
    ensures
        effects_view(final(out)@) == effects_view(old(out)@) + spec_flatten_effect(e@),
    decreases *e,
{
    match e {
        Effect::MultiEffect(es) => {
            let ghost out0 = out@;
            let mut i: usize = 0;
            proof {
                assert(effects_view(es@.take(0)) =~= Seq::<EffectV>::empty());
                assert(effects_view(out@) =~= effects_view(out0) + spec_flatten_effects(
                    effects_view(es@.take(0)),
                ));
            }
            while i < es.len()
                invariant
                    i <= es.len(),
                    effects_view(out@) == effects_view(out0) + spec_flatten_effects(
                        effects_view(es@.take(i as int)),
                    ),
                decreases es.len() - i,
            {
                proof {
                    let ghost ee: Effect = *e;
                    assert(decreases_to!(ee => ee->MultiEffect_0@[i as int]));
                    assert(ee->MultiEffect_0@[i as int] == es@[i as int]);
                }
                flatten_effect_into(&es[i], out);
                proof {
                    assert(es@.take(i + 1) =~= es@.take(i as int).push(es@[i as int]));
                    lemma_effects_view_push(es@.take(i as int), es@[i as int]);
                    lemma_flatten_push(
                        effects_view(es@.take(i as int)),
                        effect_view(es@[i as int]),
                    );
                    assert(effects_view(out@) =~= effects_view(out0) + spec_flatten_effects(
                        effects_view(es@.take(i + 1)),
                    ));
                }
                i = i + 1;
            }
            proof {
                assert(es@.take(es@.len() as int) =~= es@);
                assert(spec_flatten_effect(e@) == spec_flatten_effects(effects_view(es@)));
            }
        },
        _ => {
            let c = copy_effect(e);
            proof {
                lemma_effects_view_push(out@, c);
                assert(spec_flatten_effect(e@) =~= seq![e@]);
                assert(effects_view(out@).push(c@) =~= effects_view(out@) + seq![e@]);
            }
            out.push(c);
        },
    }
}

/// The recursive flattening of an ability's effect list: the order of
/// interpretation of its effects.
pub fn flatten_effects(effects: &Vec<Effect>) -> (r: Vec<Effect>)
    ensures
        effects_view(r@) == spec_flatten_effects(effects_view(effects@)),
{
    let mut out: Vec<Effect> = Vec::new();
    let mut i: usize = 0;
    proof {
        assert(effects_view(out@) =~= Seq::<EffectV>::empty());
        assert(effects_view(effects@.take(0)) =~= Seq::<EffectV>::empty());
    }
    while i < effects.len()
        invariant
            i <= effects.len(),
            effects_view(out@) == spec_flatten_effects(effects_view(effects@.take(i as int))),
        decreases effects.len() - i,
    {
        flatten_effect_into(&effects[i], &mut out);
        proof {
            assert(effects@.take(i + 1) =~= effects@.take(i as int).push(effects@[i as int]));
            lemma_effects_view_push(effects@.take(i as int), effects@[i as int]);
            lemma_flatten_push(
                effects_view(effects@.take(i as int)),
                effect_view(effects@[i as int]),
            );
        }
        i = i + 1;
    }
    proof {
        assert(effects@.take(effects@.len() as int) =~= effects@);
    }
    out
}

} // verus!

