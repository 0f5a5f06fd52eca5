//! The engine's closed error taxonomy.
//!
//! Every failure a command can produce is one of these kinds, carrying the
//! identifiers needed to explain it. `BuggyProgram` is reserved for
//! invariant violations that should be unreachable by correct callers: it
//! signals a software defect, not user error, and is surfaced as a
//! recoverable error rather than a panic.

use vstd::prelude::*;
use crate::command::{DecidedTarget, GameCommand, GameCommandV};
use crate::folder::FolderPath;
use crate::ids::{AbilityID, AttrID, CreatureID, MapID, PlayerID, SceneID};
use crate::types::{ConditionID, Energy, Point3, TargetSpec};

verus! {

/// A failure of a command, explained.
#[derive(Debug)]
pub enum GameError {
    /// The creature does not have the given attribute.
    AttributeNotFound(CreatureID, AttrID),
    /// A creature with the given id already exists.
    CreatureAlreadyExists(CreatureID),
    /// A scene with the given id already exists.
    SceneAlreadyExists(SceneID),
    /// The scene was not found.
    SceneNotFound(SceneID),
    /// The scene cannot be deleted because it is in use (by combat).
    SceneInUse(SceneID),
    /// An identifier was too long.
    IDTooLong(String),
    /// The condition was not found on the creature.
    ConditionNotFound(ConditionID),
    /// The command is not valid in the current state.
    InvalidCommand(GameCommand),
    /// The class was not found.
    ClassNotFound(String),
    /// The ability was not found.
    NoAbility(AbilityID),
    /// Combat cannot be started without creatures.
    CombatMustHaveCreatures,
    /// The creature cannot use the given ability.
    CreatureLacksAbility(CreatureID, AbilityID),
    /// No creature with the given (textual) id.
    CreatureNotFound(String),
    /// The creature is not a valid target.
    InvalidTarget(CreatureID),
    /// The decided target does not fit the ability's targeting rule.
    InvalidTargetForTargetSpec(TargetSpec, DecidedTarget),
    /// The target creature is out of range.
    CreatureOutOfRange(CreatureID),
    /// An internal defect: a broken assumption inside the engine.
    BuggyProgram(String),
    /// There is no combat going on.
    NotInCombat,
    /// The creature is already in combat.
    AlreadyInCombat(CreatureID),
    /// The creature cannot move.
    CannotMove(CreatureID),
    /// The creature cannot act.
    CannotAct(CreatureID),
    /// No clear path to the destination.
    NoPathFound,
    /// A step between the two points is too large.
    StepTooBig(Point3, Point3),
    /// The map was not found.
    MapNotFound(MapID),
    /// A map with the given id already exists.
    MapAlreadyExists(MapID),
    /// The map is referenced by the given scenes and cannot be deleted.
    MapInUse(MapID, Vec<SceneID>),
    /// Not enough energy to act.
    NotEnoughEnergy(Energy),
    /// The player id is already registered.
    PlayerAlreadyExists(PlayerID),
    /// The player was not found.
    PlayerNotFound(PlayerID),
    /// The player does not control the creature.
    PlayerDoesntControlCreature(PlayerID, CreatureID),
    /// No history item at the given snapshot and log indices.
    HistoryNotFound(usize, usize),
    /// The initiative index is out of bounds.
    InitiativeOutOfBounds(usize),
    /// The folder is not empty and cannot be deleted.
    FolderNotEmpty(FolderPath),
    /// The folder was not found.
    FolderNotFound(FolderPath),
    /// A folder at the given path already exists.
    FolderAlreadyExists(FolderPath),
    /// No note with the given name in the folder.
    NoteNotFound(FolderPath, String),
    /// Notes cannot be linked or unlinked.
    CannotLinkNotes(FolderPath, String),
    /// The text is not a valid UUID.
    InvalidUuid(String),
}

/// The mathematical model of a [`GameError`].
pub enum GameErrorV {
    AttributeNotFound(CreatureID, Seq<char>),
    CreatureAlreadyExists(CreatureID),
    SceneAlreadyExists(SceneID),
    SceneNotFound(SceneID),
    SceneInUse(SceneID),
    IDTooLong(Seq<char>),
    ConditionNotFound(ConditionID),
    InvalidCommand(GameCommandV),
    ClassNotFound(Seq<char>),
    NoAbility(Seq<char>),
    CombatMustHaveCreatures,
    CreatureLacksAbility(CreatureID, Seq<char>),
    CreatureNotFound(Seq<char>),
    InvalidTarget(CreatureID),
    InvalidTargetForTargetSpec(TargetSpec, DecidedTarget),
    CreatureOutOfRange(CreatureID),
    BuggyProgram(Seq<char>),
    NotInCombat,
    AlreadyInCombat(CreatureID),
    CannotMove(CreatureID),
    CannotAct(CreatureID),
    NoPathFound,
    StepTooBig(Point3, Point3),
    MapNotFound(MapID),
    MapAlreadyExists(MapID),
    MapInUse(MapID, Seq<SceneID>),
    NotEnoughEnergy(Energy),
    PlayerAlreadyExists(Seq<char>),
    PlayerNotFound(Seq<char>),
    PlayerDoesntControlCreature(Seq<char>, CreatureID),
    HistoryNotFound(usize, usize),
    InitiativeOutOfBounds(usize),
    FolderNotEmpty(Seq<Seq<char>>),
    FolderNotFound(Seq<Seq<char>>),
    FolderAlreadyExists(Seq<Seq<char>>),
    NoteNotFound(Seq<Seq<char>>, Seq<char>),
    CannotLinkNotes(Seq<Seq<char>>, Seq<char>),
    InvalidUuid(Seq<char>),
}

impl View for GameError {
    type V = GameErrorV;

    open spec fn view(&self) -> GameErrorV {
        match self {
            GameError::AttributeNotFound(c, a) => GameErrorV::AttributeNotFound(*c, a@),
            GameError::CreatureAlreadyExists(c) => GameErrorV::CreatureAlreadyExists(*c),
            GameError::SceneAlreadyExists(s) => GameErrorV::SceneAlreadyExists(*s),
            GameError::SceneNotFound(s) => GameErrorV::SceneNotFound(*s),
            GameError::SceneInUse(s) => GameErrorV::SceneInUse(*s),
            GameError::IDTooLong(s) => GameErrorV::IDTooLong(s@),
            GameError::ConditionNotFound(c) => GameErrorV::ConditionNotFound(*c),
            GameError::InvalidCommand(c) => GameErrorV::InvalidCommand(c@),
            GameError::ClassNotFound(s) => GameErrorV::ClassNotFound(s@),
            GameError::NoAbility(a) => GameErrorV::NoAbility(a@),
            GameError::CombatMustHaveCreatures => GameErrorV::CombatMustHaveCreatures,
            GameError::CreatureLacksAbility(c, a) => GameErrorV::CreatureLacksAbility(*c, a@),
            GameError::CreatureNotFound(s) => GameErrorV::CreatureNotFound(s@),
            GameError::InvalidTarget(c) => GameErrorV::InvalidTarget(*c),
            GameError::InvalidTargetForTargetSpec(t, d) => GameErrorV::InvalidTargetForTargetSpec(
                *t,
                *d,
            ),
            GameError::CreatureOutOfRange(c) => GameErrorV::CreatureOutOfRange(*c),
            GameError::BuggyProgram(s) => GameErrorV::BuggyProgram(s@),
            GameError::NotInCombat => GameErrorV::NotInCombat,
            GameError::AlreadyInCombat(c) => GameErrorV::AlreadyInCombat(*c),
            GameError::CannotMove(c) => GameErrorV::CannotMove(*c),
            GameError::CannotAct(c) => GameErrorV::CannotAct(*c),
            GameError::NoPathFound => GameErrorV::NoPathFound,
            GameError::StepTooBig(a, b) => GameErrorV::StepTooBig(*a, *b),
            GameError::MapNotFound(m) => GameErrorV::MapNotFound(*m),
            GameError::MapAlreadyExists(m) => GameErrorV::MapAlreadyExists(*m),
            GameError::MapInUse(m, ss) => GameErrorV::MapInUse(*m, ss@),
            GameError::NotEnoughEnergy(e) => GameErrorV::NotEnoughEnergy(*e),
            GameError::PlayerAlreadyExists(p) => GameErrorV::PlayerAlreadyExists(p@),
            GameError::PlayerNotFound(p) => GameErrorV::PlayerNotFound(p@),
            GameError::PlayerDoesntControlCreature(p, c) => {
                GameErrorV::PlayerDoesntControlCreature(p@, *c)
            },
            GameError::HistoryNotFound(s, l) => GameErrorV::HistoryNotFound(*s, *l),
            GameError::InitiativeOutOfBounds(i) => GameErrorV::InitiativeOutOfBounds(*i),
            GameError::FolderNotEmpty(p) => GameErrorV::FolderNotEmpty(p@),
            GameError::FolderNotFound(p) => GameErrorV::FolderNotFound(p@),
            GameError::FolderAlreadyExists(p) => GameErrorV::FolderAlreadyExists(p@),
            GameError::NoteNotFound(p, n) => GameErrorV::NoteNotFound(p@, n@),
            GameError::CannotLinkNotes(p, n) => GameErrorV::CannotLinkNotes(p@, n@),
            GameError::InvalidUuid(s) => GameErrorV::InvalidUuid(s@),
        }
    }
}

} // verus!
