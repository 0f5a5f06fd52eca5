//! The command surface: everything a client can ask the engine to do.

use vstd::prelude::*;
use crate::creature::{Creature, CreatureCreation, CreatureCreationV, CreatureV};
use crate::folder::{FolderItemID, FolderItemIDV, FolderPath, Note, NoteV};
use crate::ids::{AbilityID, CreatureID, MapID, PlayerID, SceneID};
use crate::scene::{GameMap, MapCreation, MapCreationV, GameMapV, Scene, SceneCreation, SceneCreationV, SceneV};
use crate::skills::SkillLevel;
use crate::types::Point3;

verus! {

/// The target of an ability as chosen at play time by a player, validated
/// against the ability's [`crate::types::TargetSpec`].
#[derive(Clone, Copy, PartialEq, Eq, Structural, Debug)]
pub enum DecidedTarget {
    /// A creature in melee reach.
    Melee(CreatureID),
    /// A creature within the ability's range.
    Range(CreatureID),
    /// The actor itself.
    Actor,
}

/// A potential target for an ability.
#[derive(Clone, Copy, PartialEq, Eq, Debug)]
pub enum PotentialTarget {
    CreatureID(CreatureID),
    Point(Point3),
}

/// A client-issued request to change game state.
#[derive(Debug)]
pub enum GameCommand {
    /// Check an attribute without drawing randomness.
    SimpleAttributeCheck(CreatureID, crate::ids::AttrID, SkillLevel),
    /// Check an attribute with a percentile draw.
    RandomAttributeCheck(CreatureID, crate::ids::AttrID, SkillLevel),
    /// Create a folder, given segments leading to it.
    CreateFolder(FolderPath),
    /// Rename a folder.
    RenameFolder(FolderPath, String),
    /// Delete an empty folder.
    DeleteFolder(FolderPath),
    /// Move an item from one folder to another.
    MoveFolderItem(FolderPath, FolderItemID, FolderPath),
    /// Create a note inside a folder.
    CreateNote(FolderPath, Note),
    /// Edit (and possibly rename) a note inside a folder.
    EditNote(FolderPath, String, Note),
    /// Delete a note from a folder.
    DeleteNote(FolderPath, String),
    /// Create a scene.
    CreateScene(FolderPath, SceneCreation),
    /// Edit a scene; the id must match an existing scene.
    EditScene(Scene),
    /// Delete a scene.
    DeleteScene(SceneID),
    /// Create a map.
    CreateMap(FolderPath, MapCreation),
    /// Edit a map; the id must match an existing map.
    EditMap(GameMap),
    /// Delete a map.
    DeleteMap(MapID),
    /// Start a combat with the given creatures.
    StartCombat(SceneID, Vec<CreatureID>),
    /// Stop the current combat.
    StopCombat,
    /// Add a creature to the running combat.
    AddCreatureToCombat(CreatureID),
    /// Remove a creature from the running combat.
    RemoveCreatureFromCombat(CreatureID),
    /// Use an ability out of combat.
    ActCreature(SceneID, CreatureID, AbilityID, DecidedTarget),
    /// Make the current combat creature use an ability.
    CombatAct(AbilityID, DecidedTarget),
    /// Move the current combat creature to a point within its budget.
    PathCurrentCombatCreature(Point3),
    /// End the current creature's turn.
    Done,
    /// Move a creature to a position in the initiative order.
    ChangeCreatureInitiative(CreatureID, usize),
    /// Create a new creature.
    CreateCreature(FolderPath, CreatureCreation),
    /// Edit an existing creature.
    EditCreature(Creature),
    /// Assign a creature's position within a scene.
    SetCreaturePos(SceneID, CreatureID, Point3),
    /// Move a creature along a path within a scene.
    PathCreature(SceneID, CreatureID, Point3),
    /// Remove a creature from the game entirely.
    DeleteCreature(CreatureID),
    /// Register a player.
    RegisterPlayer(PlayerID),
    /// Give control of creatures to a player.
    GiveCreaturesToPlayer(PlayerID, Vec<CreatureID>),
    /// Remove a player from the game.
    UnregisterPlayer(PlayerID),
    /// Remove control of creatures from a player.
    RemoveCreaturesFromPlayer(PlayerID, Vec<CreatureID>),
    /// Move a player to a scene (or to no scene).
    SetPlayerScene(PlayerID, Option<SceneID>),
    /// Roll back to a snapshot and log index.
    Rollback(usize, usize),
}

/// The mathematical model of a [`GameCommand`].
pub enum GameCommandV {
    SimpleAttributeCheck(CreatureID, Seq<char>, SkillLevel),
    RandomAttributeCheck(CreatureID, Seq<char>, SkillLevel),
    CreateFolder(Seq<Seq<char>>),
    RenameFolder(Seq<Seq<char>>, Seq<char>),
    DeleteFolder(Seq<Seq<char>>),
    MoveFolderItem(Seq<Seq<char>>, FolderItemIDV, Seq<Seq<char>>),
    CreateNote(Seq<Seq<char>>, NoteV),
    EditNote(Seq<Seq<char>>, Seq<char>, NoteV),
    DeleteNote(Seq<Seq<char>>, Seq<char>),
    CreateScene(Seq<Seq<char>>, SceneCreationV),
    EditScene(SceneV),
    DeleteScene(SceneID),
    CreateMap(Seq<Seq<char>>, MapCreationV),
    EditMap(GameMapV),
    DeleteMap(MapID),
    StartCombat(SceneID, Seq<CreatureID>),
    StopCombat,
    AddCreatureToCombat(CreatureID),
    RemoveCreatureFromCombat(CreatureID),
    ActCreature(SceneID, CreatureID, Seq<char>, DecidedTarget),
    CombatAct(Seq<char>, DecidedTarget),
    PathCurrentCombatCreature(Point3),
    Done,
    ChangeCreatureInitiative(CreatureID, usize),
    CreateCreature(Seq<Seq<char>>, CreatureCreationV),
    EditCreature(CreatureV),
    SetCreaturePos(SceneID, CreatureID, Point3),
    PathCreature(SceneID, CreatureID, Point3),
    DeleteCreature(CreatureID),
    RegisterPlayer(Seq<char>),
    GiveCreaturesToPlayer(Seq<char>, Seq<CreatureID>),
    UnregisterPlayer(Seq<char>),
    RemoveCreaturesFromPlayer(Seq<char>, Seq<CreatureID>),
    SetPlayerScene(Seq<char>, Option<SceneID>),
    Rollback(usize, usize),
}

impl View for GameCommand {
    type V = GameCommandV;

    open spec fn view(&self) -> GameCommandV {
        match self {
            GameCommand::SimpleAttributeCheck(c, a, l) => GameCommandV::SimpleAttributeCheck(
                *c,
                a@,
                *l,
            ),
            GameCommand::RandomAttributeCheck(c, a, l) => GameCommandV::RandomAttributeCheck(
                *c,
                a@,
                *l,
            ),
            GameCommand::CreateFolder(p) => GameCommandV::CreateFolder(p@),
            GameCommand::RenameFolder(p, n) => GameCommandV::RenameFolder(p@, n@),
            GameCommand::DeleteFolder(p) => GameCommandV::DeleteFolder(p@),
            GameCommand::MoveFolderItem(a, i, b) => GameCommandV::MoveFolderItem(a@, i@, b@),
            GameCommand::CreateNote(p, n) => GameCommandV::CreateNote(p@, n@),
            GameCommand::EditNote(p, name, n) => GameCommandV::EditNote(p@, name@, n@),
            GameCommand::DeleteNote(p, name) => GameCommandV::DeleteNote(p@, name@),
            GameCommand::CreateScene(p, c) => GameCommandV::CreateScene(p@, c@),
            GameCommand::EditScene(s) => GameCommandV::EditScene(s@),
            GameCommand::DeleteScene(s) => GameCommandV::DeleteScene(*s),
            GameCommand::CreateMap(p, c) => GameCommandV::CreateMap(p@, c@),
            GameCommand::EditMap(m) => GameCommandV::EditMap(m@),
            GameCommand::DeleteMap(m) => GameCommandV::DeleteMap(*m),
            GameCommand::StartCombat(s, cs) => GameCommandV::StartCombat(*s, cs@),
            GameCommand::StopCombat => GameCommandV::StopCombat,
            GameCommand::AddCreatureToCombat(c) => GameCommandV::AddCreatureToCombat(*c),
            GameCommand::RemoveCreatureFromCombat(c) => GameCommandV::RemoveCreatureFromCombat(*c),
            GameCommand::ActCreature(s, c, a, t) => GameCommandV::ActCreature(*s, *c, a@, *t),
            GameCommand::CombatAct(a, t) => GameCommandV::CombatAct(a@, *t),
            GameCommand::PathCurrentCombatCreature(p) => GameCommandV::PathCurrentCombatCreature(
                *p,
            ),
            GameCommand::Done => GameCommandV::Done,
            GameCommand::ChangeCreatureInitiative(c, i) => GameCommandV::ChangeCreatureInitiative(
                *c,
                *i,
            ),
            GameCommand::CreateCreature(p, c) => GameCommandV::CreateCreature(p@, c@),
            GameCommand::EditCreature(c) => GameCommandV::EditCreature(c@),
            GameCommand::SetCreaturePos(s, c, p) => GameCommandV::SetCreaturePos(*s, *c, *p),
            GameCommand::PathCreature(s, c, p) => GameCommandV::PathCreature(*s, *c, *p),
            GameCommand::DeleteCreature(c) => GameCommandV::DeleteCreature(*c),
            GameCommand::RegisterPlayer(p) => GameCommandV::RegisterPlayer(p@),
            GameCommand::GiveCreaturesToPlayer(p, cs) => GameCommandV::GiveCreaturesToPlayer(
                p@,
                cs@,
            ),
            GameCommand::UnregisterPlayer(p) => GameCommandV::UnregisterPlayer(p@),
            GameCommand::RemoveCreaturesFromPlayer(p, cs) => {
                GameCommandV::RemoveCreaturesFromPlayer(p@, cs@)
            },
            GameCommand::SetPlayerScene(p, s) => GameCommandV::SetPlayerScene(p@, *s),
            GameCommand::Rollback(s, l) => GameCommandV::Rollback(*s, *l),
        }
    }
}

} // verus!

verus! {

/// A fresh copy of a command, equal in the model.
pub fn copy_command(c: &GameCommand) -> (r: GameCommand)
    ensures
        r@ == c@,
{
    match c {
        GameCommand::SimpleAttributeCheck(cid, a, l) => GameCommand::SimpleAttributeCheck(
            *cid,
            a.dup(),
            *l,
        ),
        GameCommand::RandomAttributeCheck(cid, a, l) => GameCommand::RandomAttributeCheck(
            *cid,
            a.dup(),
            *l,
        ),
        GameCommand::CreateFolder(p) => GameCommand::CreateFolder(p.dup()),
        GameCommand::RenameFolder(p, n) => GameCommand::RenameFolder(p.dup(), n.clone()),
        GameCommand::DeleteFolder(p) => GameCommand::DeleteFolder(p.dup()),
        GameCommand::MoveFolderItem(a, i, b) => GameCommand::MoveFolderItem(
            a.dup(),
            crate::folder::copy_folder_item_id(i),
            b.dup(),
        ),
        GameCommand::CreateNote(p, n) => GameCommand::CreateNote(
            p.dup(),
            crate::folder::copy_note(n),
        ),
        GameCommand::EditNote(p, name, n) => GameCommand::EditNote(
            p.dup(),
            name.clone(),
            crate::folder::copy_note(n),
        ),
        GameCommand::DeleteNote(p, name) => GameCommand::DeleteNote(p.dup(), name.clone()),
        GameCommand::CreateScene(p, sc) => GameCommand::CreateScene(
            p.dup(),
            SceneCreation { name: sc.name.clone(), map: sc.map },
        ),
        GameCommand::EditScene(s) => GameCommand::EditScene(crate::scene::copy_scene(s)),
        GameCommand::DeleteScene(s) => GameCommand::DeleteScene(*s),
        GameCommand::CreateMap(p, mc) => GameCommand::CreateMap(
            p.dup(),
            MapCreation { name: mc.name.clone(), terrain: crate::types::copy_vec(&mc.terrain) },
        ),
        GameCommand::EditMap(m) => GameCommand::EditMap(crate::scene::copy_map(m)),
        GameCommand::DeleteMap(m) => GameCommand::DeleteMap(*m),
        GameCommand::StartCombat(s, cs) => GameCommand::StartCombat(
            *s,
            crate::types::copy_vec(cs),
        ),
        GameCommand::StopCombat => GameCommand::StopCombat,
        GameCommand::AddCreatureToCombat(c2) => GameCommand::AddCreatureToCombat(*c2),
        GameCommand::RemoveCreatureFromCombat(c2) => GameCommand::RemoveCreatureFromCombat(*c2),
        GameCommand::ActCreature(s, c2, a, t) => GameCommand::ActCreature(*s, *c2, a.dup(), *t),
        GameCommand::CombatAct(a, t) => GameCommand::CombatAct(a.dup(), *t),
        GameCommand::PathCurrentCombatCreature(p) => GameCommand::PathCurrentCombatCreature(*p),
        GameCommand::Done => GameCommand::Done,
        GameCommand::ChangeCreatureInitiative(c2, i) => GameCommand::ChangeCreatureInitiative(
            *c2,
            *i,
        ),
        GameCommand::CreateCreature(p, cc) => GameCommand::CreateCreature(
            p.dup(),
            CreatureCreation {
                name: cc.name.clone(),
                class: cc.class.clone(),
                portrait_url: cc.portrait_url.clone(),
            },
        ),
        GameCommand::EditCreature(c2) => GameCommand::EditCreature(
            crate::creature::copy_creature(c2),
        ),
        GameCommand::SetCreaturePos(s, c2, p) => GameCommand::SetCreaturePos(*s, *c2, *p),
        GameCommand::PathCreature(s, c2, p) => GameCommand::PathCreature(*s, *c2, *p),
        GameCommand::DeleteCreature(c2) => GameCommand::DeleteCreature(*c2),
        GameCommand::RegisterPlayer(p) => GameCommand::RegisterPlayer(p.dup()),
        GameCommand::GiveCreaturesToPlayer(p, cs) => GameCommand::GiveCreaturesToPlayer(
            p.dup(),
            crate::types::copy_vec(cs),
        ),
        GameCommand::UnregisterPlayer(p) => GameCommand::UnregisterPlayer(p.dup()),
        GameCommand::RemoveCreaturesFromPlayer(p, cs) => GameCommand::RemoveCreaturesFromPlayer(
            p.dup(),
            crate::types::copy_vec(cs),
        ),
        GameCommand::SetPlayerScene(p, s) => GameCommand::SetPlayerScene(p.dup(), *s),
        GameCommand::Rollback(s, l) => GameCommand::Rollback(*s, *l),
    }
}

} // verus!
