//! The command executor: combat lifecycle, acting, movement, conditions,
//! attribute checks, folder bookkeeping and history rollback.

use pandt::abilities::{Ability, AbilityStatus, AppliedCondition, Class, Condition, Effect};
use pandt::app::App;
use pandt::command::{DecidedTarget, GameCommand};
use pandt::creature::Creature;
use pandt::dice::Dice;
use pandt::error::GameError;
use pandt::folder::{Folder, FolderPath, Note};
use pandt::game::Game;
use pandt::ids::{AbilityID, AttrID, CreatureID, MapID, PlayerID, SceneID};
use pandt::logs::{CombatLog, CreatureLog, GameLog};
use pandt::scene::{GameMap, Scene, SceneCreation};
use pandt::skills::SkillLevel;
use pandt::types::{ConditionDuration, Distance, Energy, HP, TargetSpec, TileSystem, Visibility};

fn cid(n: u128) -> CreatureID {
    CreatureID(n)
}

fn abid(s: &str) -> AbilityID {
    AbilityID::new(s).unwrap()
}

fn root() -> FolderPath {
    FolderPath(Vec::new())
}

fn make_creature(id: CreatureID, name: &str) -> Creature {
    Creature {
        id,
        name: name.to_string(),
        speed: Distance(1000),
        max_energy: Energy(10),
        cur_energy: Energy(10),
        abilities: vec![
            AbilityStatus { ability_id: abid("punch"), cooldown: 0 },
            AbilityStatus { ability_id: abid("heal"), cooldown: 0 },
            AbilityStatus { ability_id: abid("flurry"), cooldown: 0 },
        ],
        class: "rogue".to_string(),
        max_health: HP(10),
        cur_health: HP(10),
        conditions: Vec::new(),
        note: String::new(),
        portrait_url: String::new(),
        attributes: vec![(AttrID("dexterity".to_string()), SkillLevel::Skilled)],
    }
}

fn base_game() -> Game {
    let map = GameMap {
        id: MapID(100),
        name: "cave".to_string(),
        terrain: vec![(0, 0, 0), (1, 0, 0), (2, 0, 0), (0, 1, 0), (9, 0, 0)],
        specials: Vec::new(),
    };
    let scene = Scene {
        id: SceneID(200),
        name: "entry".to_string(),
        map: MapID(100),
        creatures: vec![
            (cid(1), ((0, 0, 0), Visibility::AllPlayers)),
            (cid(2), ((1, 0, 0), Visibility::AllPlayers)),
            (cid(3), ((9, 0, 0), Visibility::AllPlayers)),
        ],
        attribute_checks: Vec::new(),
    };
    let punch = Ability {
        name: "Punch".to_string(),
        target: TargetSpec::Melee,
        cost: Energy(0),
        effects: vec![Effect::Damage(Dice::flat(3))],
        usable_ooc: true,
    };
    let heal = Ability {
        name: "Heal".to_string(),
        target: TargetSpec::Range(Distance(500)),
        cost: Energy(0),
        effects: vec![Effect::Heal(Dice::flat(2))],
        usable_ooc: true,
    };
    let flurry = Ability {
        name: "Flurry".to_string(),
        target: TargetSpec::Melee,
        cost: Energy(20),
        effects: vec![Effect::Damage(Dice::flat(200))],
        usable_ooc: false,
    };
    let class = Class {
        abilities: vec![abid("punch"), abid("heal"), abid("flurry")],
        conditions: Vec::new(),
        color: "purple".to_string(),
    };
    let campaign_root = Folder {
        scenes: vec![SceneID(200)],
        creatures: vec![cid(1), cid(2), cid(3)],
        notes: Vec::new(),
        maps: vec![MapID(100)],
    };
    Game {
        current_combat: None,
        abilities: vec![
            (abid("punch"), punch),
            (abid("heal"), heal),
            (abid("flurry"), flurry),
        ],
        creatures: vec![
            make_creature(cid(1), "rogue one"),
            make_creature(cid(2), "rogue two"),
            make_creature(cid(3), "distant one"),
        ],
        maps: vec![map],
        classes: vec![("rogue".to_string(), class)],
        tile_system: TileSystem::DnD,
        scenes: vec![scene],
        campaign: vec![(root(), campaign_root)],
    }
}

fn in_combat(game: Game, order: Vec<CreatureID>) -> Game {
    let (g2, _) = game
        .perform_command(&GameCommand::StartCombat(SceneID(200), order))
        .unwrap();
    g2
}

#[test]
fn start_combat_requires_creatures() {
    let g = base_game();
    let r = g.perform_command(&GameCommand::StartCombat(SceneID(200), Vec::new()));
    assert!(matches!(r, Err(GameError::CombatMustHaveCreatures)));
    // The command failed atomically: the game the caller holds is untouched.
    assert!(g.current_combat.is_none());
}

#[test]
fn start_combat_twice_is_rejected() {
    let g = in_combat(base_game(), vec![cid(1), cid(2)]);
    let r = g.perform_command(&GameCommand::StartCombat(SceneID(200), vec![cid(1)]));
    assert!(matches!(r, Err(GameError::InvalidCommand(_))));
}

#[test]
fn done_advances_cursor_and_wraps() {
    let g = in_combat(base_game(), vec![cid(1), cid(2)]);
    assert_eq!(g.current_combat.as_ref().unwrap().cursor, 0);
    let (g, _) = g.perform_command(&GameCommand::Done).unwrap();
    assert_eq!(g.current_combat.as_ref().unwrap().cursor, 1);
    let (g, _) = g.perform_command(&GameCommand::Done).unwrap();
    // After the last creature the cursor wraps to the first.
    assert_eq!(g.current_combat.as_ref().unwrap().cursor, 0);
}

#[test]
fn done_resets_movement() {
    let g = in_combat(base_game(), vec![cid(1), cid(2)]);
    let (g, _) = g
        .perform_command(&GameCommand::PathCurrentCombatCreature((1, 0, 0)))
        .unwrap();
    assert_eq!(g.current_combat.as_ref().unwrap().movement_used, Distance(100));
    let (g, _) = g.perform_command(&GameCommand::Done).unwrap();
    assert_eq!(g.current_combat.as_ref().unwrap().movement_used, Distance(0));
}

#[test]
fn condition_expiry_on_turn_end() {
    let mut g = base_game();
    g.creatures[0].conditions.push((
        7,
        AppliedCondition { remaining: ConditionDuration::Duration(1), condition: Condition::Dead },
    ));
    let g = in_combat(g, vec![cid(1)]);
    let (g, logs) = g.perform_command(&GameCommand::Done).unwrap();
    // The same turn-end decrements the condition to zero and removes it.
    assert!(g.creatures[0].conditions.is_empty());
    assert!(logs.iter().any(|l| matches!(
        l,
        GameLog::CreatureLog(_, CreatureLog::DecrementConditionRemaining(7))
    )));
    assert!(logs.iter().any(|l| matches!(
        l,
        GameLog::CreatureLog(_, CreatureLog::RemoveCondition(7))
    )));
    assert!(logs.iter().any(|l| matches!(l, GameLog::CombatLog(CombatLog::EndTurn(_)))));
}

#[test]
fn interminate_conditions_survive_turn_end() {
    let mut g = base_game();
    g.creatures[0].conditions.push((
        3,
        AppliedCondition {
            remaining: ConditionDuration::Interminate,
            condition: Condition::DoubleMaxMovement,
        },
    ));
    let g = in_combat(g, vec![cid(1)]);
    let (g, _) = g.perform_command(&GameCommand::Done).unwrap();
    assert_eq!(g.creatures[0].conditions.len(), 1);
}

#[test]
fn combat_act_deals_damage_and_replays() {
    let g = in_combat(base_game(), vec![cid(1), cid(2)]);
    let (g2, logs) = g
        .perform_command(&GameCommand::CombatAct(abid("punch"), DecidedTarget::Melee(cid(2))))
        .unwrap();
    assert_eq!(g2.creatures[1].cur_health, HP(7));
    // Replay equivalence: folding the recorded logs over the prior state
    // reproduces the live result.
    let replayed = pandt::game::copy_game(&g).apply_logs(&logs).unwrap();
    assert_eq!(replayed.creatures[1].cur_health, HP(7));
    assert_eq!(replayed.current_combat.as_ref().unwrap().cursor, g2.current_combat.as_ref().unwrap().cursor);
}

#[test]
fn execution_is_deterministic_for_fixed_randomness() {
    let g = in_combat(base_game(), vec![cid(1), cid(2)]);
    let cmd = GameCommand::CombatAct(abid("punch"), DecidedTarget::Melee(cid(2)));
    let tape = vec![1u8, 1, 1];
    let (a1, logs1) = g.execute_command(&cmd, 42, &tape).unwrap();
    let (a2, logs2) = g.execute_command(&cmd, 42, &tape).unwrap();
    assert_eq!(a1.creatures[1].cur_health, a2.creatures[1].cur_health);
    assert_eq!(logs1.len(), logs2.len());
}

#[test]
fn damage_saturates_at_zero_health() {
    let mut g = base_game();
    g.creatures[0].cur_energy = Energy(30);
    let g = in_combat(g, vec![cid(1), cid(2)]);
    let (g2, _) = g
        .perform_command(&GameCommand::CombatAct(abid("flurry"), DecidedTarget::Melee(cid(2))))
        .unwrap();
    // 200 damage against 10 health saturates at zero.
    assert_eq!(g2.creatures[1].cur_health, HP(0));
    // The energy cost was deducted first.
    assert_eq!(g2.creatures[0].cur_energy, Energy(10));
}

#[test]
fn healing_clamps_to_max_health() {
    let mut g = base_game();
    g.creatures[1].cur_health = HP(9);
    let g = in_combat(g, vec![cid(1), cid(2)]);
    let (g2, _) = g
        .perform_command(&GameCommand::CombatAct(abid("heal"), DecidedTarget::Range(cid(2))))
        .unwrap();
    assert_eq!(g2.creatures[1].cur_health, HP(10));
}

#[test]
fn acting_needs_energy() {
    let g = in_combat(base_game(), vec![cid(1), cid(2)]);
    let r = g.perform_command(&GameCommand::CombatAct(abid("flurry"), DecidedTarget::Melee(cid(2))));
    assert!(matches!(r, Err(GameError::NotEnoughEnergy(Energy(20)))));
}

#[test]
fn acting_needs_the_ability() {
    let g = in_combat(base_game(), vec![cid(1), cid(2)]);
    let r = g.perform_command(&GameCommand::CombatAct(abid("fireball"), DecidedTarget::Melee(cid(2))));
    assert!(matches!(r, Err(GameError::NoAbility(_))));
}

#[test]
fn melee_requires_reach() {
    let g = in_combat(base_game(), vec![cid(1), cid(3)]);
    // The distant creature stands 9 tiles away, beyond one movement step.
    let r = g.perform_command(&GameCommand::CombatAct(abid("punch"), DecidedTarget::Melee(cid(3))));
    assert!(matches!(r, Err(GameError::CreatureOutOfRange(_))));
}

#[test]
fn mismatched_target_kind_is_rejected() {
    let g = in_combat(base_game(), vec![cid(1), cid(2)]);
    let r = g.perform_command(&GameCommand::CombatAct(abid("punch"), DecidedTarget::Actor));
    assert!(matches!(r, Err(GameError::InvalidTargetForTargetSpec(_, _))));
}

#[test]
fn incapacitated_creatures_cannot_act() {
    let mut g = base_game();
    g.creatures[0].conditions.push((
        1,
        AppliedCondition {
            remaining: ConditionDuration::Interminate,
            condition: Condition::Incapacitated,
        },
    ));
    let g = in_combat(g, vec![cid(1), cid(2)]);
    let r = g.perform_command(&GameCommand::CombatAct(abid("punch"), DecidedTarget::Melee(cid(2))));
    assert!(matches!(r, Err(GameError::CannotAct(_))));
}

#[test]
fn ooc_acting_respects_the_flag() {
    let g = base_game();
    // "flurry" is not usable out of combat.
    let r = g.perform_command(&GameCommand::ActCreature(
        SceneID(200),
        cid(1),
        abid("flurry"),
        DecidedTarget::Melee(cid(2)),
    ));
    assert!(matches!(r, Err(GameError::InvalidCommand(_))));
    // "punch" is.
    let r = g.perform_command(&GameCommand::ActCreature(
        SceneID(200),
        cid(1),
        abid("punch"),
        DecidedTarget::Melee(cid(2)),
    ));
    assert!(r.is_ok());
}

#[test]
fn movement_consumes_budget() {
    let g = in_combat(base_game(), vec![cid(1), cid(2)]);
    let (g, _) = g
        .perform_command(&GameCommand::PathCurrentCombatCreature((1, 0, 0)))
        .unwrap();
    assert_eq!(g.current_combat.as_ref().unwrap().movement_used, Distance(100));
    assert_eq!(g.scenes[0].creatures[0].1 .0, (1, 0, 0));
}

#[test]
fn movement_beyond_speed_fails() {
    let mut g = base_game();
    g.creatures[0].speed = Distance(50);
    let g = in_combat(g, vec![cid(1), cid(2)]);
    let r = g.perform_command(&GameCommand::PathCurrentCombatCreature((1, 0, 0)));
    assert!(matches!(r, Err(GameError::CannotMove(_))));
}

#[test]
fn double_max_movement_doubles_the_budget() {
    let mut g = base_game();
    g.creatures[0].speed = Distance(50);
    g.creatures[0].conditions.push((
        1,
        AppliedCondition {
            remaining: ConditionDuration::Interminate,
            condition: Condition::DoubleMaxMovement,
        },
    ));
    let g = in_combat(g, vec![cid(1), cid(2)]);
    let r = g.perform_command(&GameCommand::PathCurrentCombatCreature((1, 0, 0)));
    assert!(r.is_ok());
}

#[test]
fn movement_needs_open_terrain() {
    let g = in_combat(base_game(), vec![cid(1), cid(2)]);
    let r = g.perform_command(&GameCommand::PathCurrentCombatCreature((4, 4, 0)));
    assert!(matches!(r, Err(GameError::NoPathFound)));
}

#[test]
fn dead_creatures_cannot_move() {
    let mut g = base_game();
    g.creatures[0].conditions.push((
        1,
        AppliedCondition { remaining: ConditionDuration::Interminate, condition: Condition::Dead },
    ));
    let g = in_combat(g, vec![cid(1), cid(2)]);
    let r = g.perform_command(&GameCommand::PathCurrentCombatCreature((1, 0, 0)));
    assert!(matches!(r, Err(GameError::CannotMove(_))));
}

#[test]
fn initiative_out_of_bounds() {
    let g = in_combat(base_game(), vec![cid(1), cid(2)]);
    let r = g.perform_command(&GameCommand::ChangeCreatureInitiative(cid(2), 5));
    assert!(matches!(r, Err(GameError::InitiativeOutOfBounds(5))));
}

#[test]
fn initiative_reorders() {
    let g = in_combat(base_game(), vec![cid(1), cid(2)]);
    let (g, _) = g
        .perform_command(&GameCommand::ChangeCreatureInitiative(cid(2), 0))
        .unwrap();
    assert_eq!(g.current_combat.as_ref().unwrap().creatures, vec![cid(2), cid(1)]);
}

#[test]
fn removing_the_last_combatant_ends_combat() {
    let g = in_combat(base_game(), vec![cid(1)]);
    let (g, _) = g
        .perform_command(&GameCommand::RemoveCreatureFromCombat(cid(1)))
        .unwrap();
    assert!(g.current_combat.is_none());
}

#[test]
fn done_outside_combat_fails() {
    let g = base_game();
    let r = g.perform_command(&GameCommand::Done);
    assert!(matches!(r, Err(GameError::NotInCombat)));
}

#[test]
fn simple_attribute_check_is_deterministic() {
    let g = base_game();
    let (_, logs) = g
        .perform_command(&GameCommand::SimpleAttributeCheck(
            cid(1),
            AttrID("dexterity".to_string()),
            SkillLevel::Unskilled,
        ))
        .unwrap();
    assert!(matches!(
        logs[0],
        GameLog::SimpleAttributeCheckResult(_, _, _, true)
    ));
    let (_, logs) = g
        .perform_command(&GameCommand::SimpleAttributeCheck(
            cid(1),
            AttrID("dexterity".to_string()),
            SkillLevel::Supernatural,
        ))
        .unwrap();
    assert!(matches!(
        logs[0],
        GameLog::SimpleAttributeCheckResult(_, _, _, false)
    ));
}

#[test]
fn missing_attribute_is_reported() {
    let g = base_game();
    let r = g.perform_command(&GameCommand::SimpleAttributeCheck(
        cid(1),
        AttrID("charisma".to_string()),
        SkillLevel::Unskilled,
    ));
    assert!(matches!(r, Err(GameError::AttributeNotFound(_, _))));
}

#[test]
fn random_attribute_check_embeds_the_draw() {
    let g = base_game();
    // A skilled creature against a skilled difficulty sits at 75%.
    let cmd = GameCommand::RandomAttributeCheck(
        cid(1),
        AttrID("dexterity".to_string()),
        SkillLevel::Skilled,
    );
    let (_, logs) = g.execute_command(&cmd, 0, &vec![50u8]).unwrap();
    assert!(matches!(
        logs[0],
        GameLog::RandomAttributeCheckResult(_, _, _, 50, true)
    ));
    let (_, logs) = g.execute_command(&cmd, 0, &vec![90u8]).unwrap();
    assert!(matches!(
        logs[0],
        GameLog::RandomAttributeCheckResult(_, _, _, 90, false)
    ));
}

#[test]
fn folder_lifecycle() {
    let g = base_game();
    let sub = FolderPath(vec!["lore".to_string()]);
    let (g, _) = g.perform_command(&GameCommand::CreateFolder(sub.clone())).unwrap();
    let note = Note { name: "intro".to_string(), content: "once upon a time".to_string() };
    let (g, _) = g
        .perform_command(&GameCommand::CreateNote(sub.clone(), note))
        .unwrap();
    // A folder holding a note cannot be deleted.
    let r = g.perform_command(&GameCommand::DeleteFolder(sub.clone()));
    assert!(matches!(r, Err(GameError::FolderNotEmpty(_))));
    let (g, _) = g
        .perform_command(&GameCommand::DeleteNote(sub.clone(), "intro".to_string()))
        .unwrap();
    let (g, _) = g.perform_command(&GameCommand::DeleteFolder(sub.clone())).unwrap();
    assert_eq!(g.campaign.len(), 1);
}

#[test]
fn missing_note_is_reported() {
    let g = base_game();
    let r = g.perform_command(&GameCommand::DeleteNote(root(), "nowhere".to_string()));
    assert!(matches!(r, Err(GameError::NoteNotFound(_, _))));
}

#[test]
fn map_in_use_cannot_be_deleted() {
    let g = base_game();
    let r = g.perform_command(&GameCommand::DeleteMap(MapID(100)));
    assert!(matches!(r, Err(GameError::MapInUse(_, _))));
}

#[test]
fn scene_creation_uses_a_fresh_id() {
    let g = base_game();
    let creation = SceneCreation { name: "cellar".to_string(), map: MapID(100) };
    let (g, _) = g
        .perform_command(&GameCommand::CreateScene(root(), creation))
        .unwrap();
    assert_eq!(g.scenes.len(), 2);
    assert_eq!(g.scenes[1].name, "cellar");
    assert!(g.scenes[1].id != SceneID(200));
}

#[test]
fn players_are_managed_at_the_app_level() {
    let app = App::new(base_game());
    let (app, _) = app
        .perform_command(&GameCommand::RegisterPlayer(PlayerID("alice".to_string())))
        .unwrap();
    let r = app.perform_command(&GameCommand::RegisterPlayer(PlayerID("alice".to_string())));
    assert!(matches!(r, Err(GameError::PlayerAlreadyExists(_))));
}

#[test]
fn giving_creatures_requires_them_to_exist() {
    let app = App::new(base_game());
    let (app, _) = app
        .perform_command(&GameCommand::RegisterPlayer(PlayerID("alice".to_string())))
        .unwrap();
    // A failed command leaves the caller's session usable.
    let r = app.perform_command(&GameCommand::GiveCreaturesToPlayer(
        PlayerID("alice".to_string()),
        vec![cid(999)],
    ));
    assert!(matches!(r, Err(GameError::CreatureNotFound(_))));
    let (app, _) = app
        .perform_command(&GameCommand::GiveCreaturesToPlayer(
            PlayerID("alice".to_string()),
            vec![cid(1), cid(2)],
        ))
        .unwrap();
    assert_eq!(app.players[0].creatures, vec![cid(1), cid(2)]);
}

fn note_names(g: &Game) -> Vec<String> {
    g.campaign[0].1.notes.iter().map(|n| n.name.clone()).collect()
}

#[test]
fn rollback_is_idempotent() {
    let app = App::new(base_game());
    let n1 = Note { name: "first".to_string(), content: "one".to_string() };
    let n2 = Note { name: "second".to_string(), content: "two".to_string() };
    let (app, _) = app.perform_command(&GameCommand::CreateNote(root(), n1)).unwrap();
    let (app, _) = app.perform_command(&GameCommand::CreateNote(root(), n2)).unwrap();
    assert_eq!(note_names(&app.current_game), vec!["first", "second"]);
    // Roll back to just after the first note.
    let (app, _) = app.perform_command(&GameCommand::Rollback(0, 0)).unwrap();
    assert_eq!(note_names(&app.current_game), vec!["first"]);
    // The rollback was recorded for auditability.
    assert!(app.snapshots[0]
        .1
        .iter()
        .any(|l| matches!(l, GameLog::Rollback(0, 0))));
    // Rolling back to the same coordinates again yields the same state.
    let (app, _) = app.perform_command(&GameCommand::Rollback(0, 0)).unwrap();
    assert_eq!(note_names(&app.current_game), vec!["first"]);
}

#[test]
fn rollback_out_of_bounds_is_reported() {
    let app = App::new(base_game());
    let r = app.perform_command(&GameCommand::Rollback(5, 0));
    assert!(matches!(r, Err(GameError::HistoryNotFound(5, 0))));
}

#[test]
fn creature_creation_uses_class_defaults() {
    let g = base_game();
    let creation = pandt::creature::CreatureCreation {
        name: "newcomer".to_string(),
        class: "rogue".to_string(),
        portrait_url: String::new(),
    };
    let (g, _) = g
        .perform_command(&GameCommand::CreateCreature(root(), creation))
        .unwrap();
    assert_eq!(g.creatures.len(), 4);
    assert_eq!(g.creatures[3].name, "newcomer");
    assert_eq!(g.creatures[3].max_health, HP(10));
    assert_eq!(g.creatures[3].abilities.len(), 3);
    let r = g.perform_command(&GameCommand::CreateCreature(
        root(),
        pandt::creature::CreatureCreation {
            name: "x".to_string(),
            class: "wizard".to_string(),
            portrait_url: String::new(),
        },
    ));
    assert!(matches!(r, Err(GameError::ClassNotFound(_))));
}

#[test]
fn deleting_a_creature_scrubs_references() {
    let g = base_game();
    let (g, _) = g.perform_command(&GameCommand::DeleteCreature(cid(3))).unwrap();
    assert_eq!(g.creatures.len(), 2);
    assert!(g.scenes[0].creatures.iter().all(|(c, _)| *c != cid(3)));
    assert!(g.campaign[0].1.creatures.iter().all(|c| *c != cid(3)));
}

#[test]
fn creatures_in_combat_cannot_be_deleted() {
    let g = in_combat(base_game(), vec![cid(1), cid(2)]);
    let r = g.perform_command(&GameCommand::DeleteCreature(cid(1)));
    assert!(matches!(r, Err(GameError::InvalidCommand(_))));
}

#[test]
fn health_zero_does_not_imply_dead() {
    // Policy: reaching zero health does not automatically apply the Dead
    // condition; that is left to ability authoring.
    let mut g = base_game();
    g.creatures[0].cur_energy = Energy(30);
    let g = in_combat(g, vec![cid(1), cid(2)]);
    let (g2, _) = g
        .perform_command(&GameCommand::CombatAct(abid("flurry"), DecidedTarget::Melee(cid(2))))
        .unwrap();
    assert_eq!(g2.creatures[1].cur_health, HP(0));
    assert!(g2.creatures[1].conditions.is_empty());
}

#[test]
fn turn_end_bookkeeping_with_mixed_conditions() {
    // The general form: in one list, an indefinite condition survives,
    // a one-turn condition is decremented and removed in the same
    // transaction, and a longer one only ticks down.
    let mut g = base_game();
    g.creatures[0].conditions.push((
        1,
        AppliedCondition {
            remaining: ConditionDuration::Interminate,
            condition: Condition::DoubleMaxMovement,
        },
    ));
    g.creatures[0].conditions.push((
        2,
        AppliedCondition { remaining: ConditionDuration::Duration(1), condition: Condition::Dead },
    ));
    g.creatures[0].conditions.push((
        3,
        AppliedCondition {
            remaining: ConditionDuration::Duration(3),
            condition: Condition::Incapacitated,
        },
    ));
    let g = in_combat(g, vec![cid(1)]);
    let (g, _) = g.perform_command(&GameCommand::Done).unwrap();
    let conds = &g.creatures[0].conditions;
    assert_eq!(conds.len(), 2);
    assert!(matches!(conds[0].1.remaining, ConditionDuration::Interminate));
    assert_eq!(conds[1].0, 3);
    assert!(matches!(conds[1].1.remaining, ConditionDuration::Duration(2)));
}
