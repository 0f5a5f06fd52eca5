//! The log entries: recorded, deterministic facts describing exactly what
//! changed. Executing a command emits an ordered sequence of these; folding
//! them over the prior state reproduces the new state.

use vstd::prelude::*;
use crate::abilities::{Condition, ConditionV, copy_condition};
use crate::creature::{Creature, CreatureV, copy_creature};
use crate::folder::{FolderItemID, FolderItemIDV, FolderPath, Note, NoteV, copy_folder_item_id, copy_note};
use crate::ids::{AttrID, CreatureID, MapID, SceneID};
use crate::scene::{GameMap, GameMapV, Scene, SceneV, copy_map, copy_scene};
use crate::skills::SkillLevel;
use crate::types::{ConditionDuration, ConditionID, Distance, Energy, HP, Point3, copy_vec};

verus! {

/// A state change in a creature. Concrete and deterministic: rolled die
/// faces are embedded, so replay never re-rolls.
#[derive(Debug)]
pub enum CreatureLog {
    /// Damage dealt, with the individual die outcomes that produced it.
    Damage(HP, Vec<u8>),
    /// Healing received, with the individual die outcomes.
    Heal(HP, Vec<u8>),
    /// Energy restored.
    GenerateEnergy(Energy),
    /// Energy spent.
    ReduceEnergy(Energy),
    /// A condition attached under a fresh id.
    ApplyCondition(ConditionID, ConditionDuration, Condition),
    /// A timed condition ticked down by one.
    DecrementConditionRemaining(ConditionID),
    /// A condition removed.
    RemoveCondition(ConditionID),
}

/// The mathematical model of a [`CreatureLog`].
pub enum CreatureLogV {
    Damage(HP, Seq<u8>),
    Heal(HP, Seq<u8>),
    GenerateEnergy(Energy),
    ReduceEnergy(Energy),
    ApplyCondition(ConditionID, ConditionDuration, ConditionV),
    DecrementConditionRemaining(ConditionID),
    RemoveCondition(ConditionID),
}

impl View for CreatureLog {
    type V = CreatureLogV;

    open spec fn view(&self) -> CreatureLogV {
        match self {
            CreatureLog::Damage(hp, rolls) => CreatureLogV::Damage(*hp, rolls@),
            CreatureLog::Heal(hp, rolls) => CreatureLogV::Heal(*hp, rolls@),
            CreatureLog::GenerateEnergy(e) => CreatureLogV::GenerateEnergy(*e),
            CreatureLog::ReduceEnergy(e) => CreatureLogV::ReduceEnergy(*e),
            CreatureLog::ApplyCondition(id, d, c) => CreatureLogV::ApplyCondition(*id, *d, c@),
            CreatureLog::DecrementConditionRemaining(id) => {
                CreatureLogV::DecrementConditionRemaining(*id)
            },
            CreatureLog::RemoveCondition(id) => CreatureLogV::RemoveCondition(*id),
        }
    }
}

/// A fresh copy of a creature log, equal in the model.
pub fn copy_creature_log(l: &CreatureLog) -> (r: CreatureLog)
    ensures
        r@ == l@,
{
    match l {
        CreatureLog::Damage(hp, rolls) => CreatureLog::Damage(*hp, copy_vec(rolls)),
        CreatureLog::Heal(hp, rolls) => CreatureLog::Heal(*hp, copy_vec(rolls)),
        CreatureLog::GenerateEnergy(e) => CreatureLog::GenerateEnergy(*e),
        CreatureLog::ReduceEnergy(e) => CreatureLog::ReduceEnergy(*e),
        CreatureLog::ApplyCondition(id, d, c) => CreatureLog::ApplyCondition(
            *id,
            *d,
            copy_condition(c),
        ),
        CreatureLog::DecrementConditionRemaining(id) => CreatureLog::DecrementConditionRemaining(
            *id,
        ),
        CreatureLog::RemoveCondition(id) => CreatureLog::RemoveCondition(*id),
    }
}

/// A state change in the running combat.
#[derive(Clone, Copy, PartialEq, Eq, Structural, Debug)]
pub enum CombatLog {
    /// Movement distance consumed by the current creature this turn.
    ConsumeMovement(Distance),
    /// A creature repositioned in the initiative order.
    ChangeCreatureInitiative(CreatureID, usize),
    /// The end of this creature's turn.
    EndTurn(CreatureID),
}

/// A state change in the game: the unit of the replay log.
#[derive(Debug)]
pub enum GameLog {
    /// The outcome of a deterministic attribute check.
    SimpleAttributeCheckResult(CreatureID, AttrID, SkillLevel, bool),
    /// The outcome of a random attribute check, with the percentile drawn.
    RandomAttributeCheckResult(CreatureID, AttrID, SkillLevel, u8, bool),
    CreateFolder(FolderPath),
    RenameFolder(FolderPath, String),
    DeleteFolder(FolderPath),
    MoveFolderItem(FolderPath, FolderItemID, FolderPath),
    CreateNote(FolderPath, Note),
    EditNote(FolderPath, String, Note),
    DeleteNote(FolderPath, String),
    CreateScene(FolderPath, Scene),
    EditScene(Scene),
    DeleteScene(SceneID),
    CreateMap(FolderPath, GameMap),
    EditMap(GameMap),
    DeleteMap(MapID),
    CombatLog(CombatLog),
    /// A creature log wrapped in a game log.
    CreatureLog(CreatureID, CreatureLog),
    SetCreaturePos(SceneID, CreatureID, Point3),
    PathCreature(SceneID, CreatureID, Vec<Point3>),
    StartCombat(SceneID, Vec<CreatureID>),
    StopCombat,
    CreateCreature(FolderPath, Creature),
    EditCreature(Creature),
    DeleteCreature(CreatureID),
    AddCreatureToCombat(CreatureID),
    RemoveCreatureFromCombat(CreatureID),
    /// A rollback performed, recorded for auditability: indexes into
    /// snapshots and their logs.
    Rollback(usize, usize),
}

/// The mathematical model of a [`GameLog`].
pub enum GameLogV {
    SimpleAttributeCheckResult(CreatureID, Seq<char>, SkillLevel, bool),
    RandomAttributeCheckResult(CreatureID, Seq<char>, SkillLevel, u8, bool),
    CreateFolder(Seq<Seq<char>>),
    RenameFolder(Seq<Seq<char>>, Seq<char>),
    DeleteFolder(Seq<Seq<char>>),
    MoveFolderItem(Seq<Seq<char>>, FolderItemIDV, Seq<Seq<char>>),
    CreateNote(Seq<Seq<char>>, NoteV),
    EditNote(Seq<Seq<char>>, Seq<char>, NoteV),
    DeleteNote(Seq<Seq<char>>, Seq<char>),
    CreateScene(Seq<Seq<char>>, SceneV),
    EditScene(SceneV),
    DeleteScene(SceneID),
    CreateMap(Seq<Seq<char>>, GameMapV),
    EditMap(GameMapV),
    DeleteMap(MapID),
    CombatLog(CombatLog),
    CreatureLog(CreatureID, CreatureLogV),
    SetCreaturePos(SceneID, CreatureID, Point3),
    PathCreature(SceneID, CreatureID, Seq<Point3>),
    StartCombat(SceneID, Seq<CreatureID>),
    StopCombat,
    CreateCreature(Seq<Seq<char>>, CreatureV),
    EditCreature(CreatureV),
    DeleteCreature(CreatureID),
    AddCreatureToCombat(CreatureID),
    RemoveCreatureFromCombat(CreatureID),
    Rollback(usize, usize),
}

impl View for GameLog {
    type V = GameLogV;

    open spec fn view(&self) -> GameLogV {
        match self {
            GameLog::SimpleAttributeCheckResult(c, a, l, b) => {
                GameLogV::SimpleAttributeCheckResult(*c, a@, *l, *b)
            },
            GameLog::RandomAttributeCheckResult(c, a, l, d, b) => {
                GameLogV::RandomAttributeCheckResult(*c, a@, *l, *d, *b)
            },
            GameLog::CreateFolder(p) => GameLogV::CreateFolder(p@),
            GameLog::RenameFolder(p, n) => GameLogV::RenameFolder(p@, n@),
            GameLog::DeleteFolder(p) => GameLogV::DeleteFolder(p@),
            GameLog::MoveFolderItem(a, i, b) => GameLogV::MoveFolderItem(a@, i@, b@),
            GameLog::CreateNote(p, n) => GameLogV::CreateNote(p@, n@),
            GameLog::EditNote(p, name, n) => GameLogV::EditNote(p@, name@, n@),
            GameLog::DeleteNote(p, name) => GameLogV::DeleteNote(p@, name@),
            GameLog::CreateScene(p, s) => GameLogV::CreateScene(p@, s@),
            GameLog::EditScene(s) => GameLogV::EditScene(s@),
            GameLog::DeleteScene(s) => GameLogV::DeleteScene(*s),
            GameLog::CreateMap(p, m) => GameLogV::CreateMap(p@, m@),
            GameLog::EditMap(m) => GameLogV::EditMap(m@),
            GameLog::DeleteMap(m) => GameLogV::DeleteMap(*m),
            GameLog::CombatLog(c) => GameLogV::CombatLog(*c),
            GameLog::CreatureLog(cid, l) => GameLogV::CreatureLog(*cid, l@),
            GameLog::SetCreaturePos(s, c, p) => GameLogV::SetCreaturePos(*s, *c, *p),
            GameLog::PathCreature(s, c, pts) => GameLogV::PathCreature(*s, *c, pts@),
            GameLog::StartCombat(s, cs) => GameLogV::StartCombat(*s, cs@),
            GameLog::StopCombat => GameLogV::StopCombat,
            GameLog::CreateCreature(p, c) => GameLogV::CreateCreature(p@, c@),
            GameLog::EditCreature(c) => GameLogV::EditCreature(c@),
            GameLog::DeleteCreature(c) => GameLogV::DeleteCreature(*c),
            GameLog::AddCreatureToCombat(c) => GameLogV::AddCreatureToCombat(*c),
            GameLog::RemoveCreatureFromCombat(c) => GameLogV::RemoveCreatureFromCombat(*c),
            GameLog::Rollback(s, l) => GameLogV::Rollback(*s, *l),
        }
    }
}

/// A fresh copy of a game log, equal in the model.
pub fn copy_game_log(l: &GameLog) -> (r: GameLog)
    ensures
        r@ == l@,
{
    match l {
        GameLog::SimpleAttributeCheckResult(c, a, lvl, b) => GameLog::SimpleAttributeCheckResult(
            *c,
            a.dup(),
            *lvl,
            *b,
        ),
        GameLog::RandomAttributeCheckResult(c, a, lvl, d, b) => {
            GameLog::RandomAttributeCheckResult(*c, a.dup(), *lvl, *d, *b)
        },
        GameLog::CreateFolder(p) => GameLog::CreateFolder(p.dup()),
        GameLog::RenameFolder(p, n) => GameLog::RenameFolder(p.dup(), n.clone()),
        GameLog::DeleteFolder(p) => GameLog::DeleteFolder(p.dup()),
        GameLog::MoveFolderItem(a, i, b) => GameLog::MoveFolderItem(
            a.dup(),
            copy_folder_item_id(i),
            b.dup(),
        ),
        GameLog::CreateNote(p, n) => GameLog::CreateNote(p.dup(), copy_note(n)),
        GameLog::EditNote(p, name, n) => GameLog::EditNote(p.dup(), name.clone(), copy_note(n)),
        GameLog::DeleteNote(p, name) => GameLog::DeleteNote(p.dup(), name.clone()),
        GameLog::CreateScene(p, s) => GameLog::CreateScene(p.dup(), copy_scene(s)),
        GameLog::EditScene(s) => GameLog::EditScene(copy_scene(s)),
        GameLog::DeleteScene(s) => GameLog::DeleteScene(*s),
        GameLog::CreateMap(p, m) => GameLog::CreateMap(p.dup(), copy_map(m)),
        GameLog::EditMap(m) => GameLog::EditMap(copy_map(m)),
        GameLog::DeleteMap(m) => GameLog::DeleteMap(*m),
        GameLog::CombatLog(c) => GameLog::CombatLog(*c),
        GameLog::CreatureLog(cid, cl) => GameLog::CreatureLog(*cid, copy_creature_log(cl)),
        GameLog::SetCreaturePos(s, c, p) => GameLog::SetCreaturePos(*s, *c, *p),
        GameLog::PathCreature(s, c, pts) => GameLog::PathCreature(*s, *c, copy_vec(pts)),
        GameLog::StartCombat(s, cs) => GameLog::StartCombat(*s, copy_vec(cs)),
        GameLog::StopCombat => GameLog::StopCombat,
        GameLog::CreateCreature(p, c) => GameLog::CreateCreature(p.dup(), copy_creature(c)),
        GameLog::EditCreature(c) => GameLog::EditCreature(copy_creature(c)),
        GameLog::DeleteCreature(c) => GameLog::DeleteCreature(*c),
        GameLog::AddCreatureToCombat(c) => GameLog::AddCreatureToCombat(*c),
        GameLog::RemoveCreatureFromCombat(c) => GameLog::RemoveCreatureFromCombat(*c),
        GameLog::Rollback(s, lx) => GameLog::Rollback(*s, *lx),
    }
}

/// The models of a sequence of game logs, in order.
pub open spec fn game_logs_view(ls: Seq<GameLog>) -> Seq<GameLogV> {
    ls.map_values(|l: GameLog| l@)
}

/// Wraps creature logs for one creature into game logs, in order.
pub fn creature_logs_into_game_logs(cid: CreatureID, ls: Vec<CreatureLog>) -> (r: Vec<GameLog>)
    ensures
        r@.len() == ls@.len(),
        forall|i: int| 0 <= i < ls@.len() ==> (#[trigger] r@[i])@ == GameLogV::CreatureLog(
            cid,
            ls@[i]@,
        ),
{
    let mut out: Vec<GameLog> = Vec::new();
    let mut i: usize = 0;
    while i < ls.len()
        invariant
            i <= ls.len(),
            out@.len() == i,
            forall|j: int| 0 <= j < i ==> (#[trigger] out@[j])@ == GameLogV::CreatureLog(
                cid,
                ls@[j]@,
            ),
        decreases ls.len() - i,
    {
        out.push(GameLog::CreatureLog(cid, copy_creature_log(&ls[i])));
        i = i + 1;
    }
    out
}

/// Wraps combat logs into game logs, in order.
pub fn combat_logs_into_game_logs(ls: Vec<CombatLog>) -> (r: Vec<GameLog>)
    ensures
        r@.len() == ls@.len(),
        forall|i: int| 0 <= i < ls@.len() ==> (#[trigger] r@[i])@ == GameLogV::CombatLog(ls@[i]),
{
    let mut out: Vec<GameLog> = Vec::new();
    let mut i: usize = 0;
    while i < ls.len()
        invariant
            i <= ls.len(),
            out@.len() == i,
            forall|j: int| 0 <= j < i ==> (#[trigger] out@[j])@ == GameLogV::CombatLog(ls@[j]),
        decreases ls.len() - i,
    {
        out.push(GameLog::CombatLog(ls[i]));
        i = i + 1;
    }
    out
}

} // verus!
