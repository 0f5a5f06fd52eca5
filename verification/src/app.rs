//! The app: the current game, its snapshot history, and the player table.
//!
//! The history is an append-ordered, bounded collection of (game snapshot,
//! log batch) pairs. Newly produced logs append to the most recent entry;
//! once a batch reaches a fixed cadence a fresh snapshot entry is started,
//! and the oldest entries are dropped beyond a fixed count. Rollback
//! reconstructs the game from a snapshot and a prefix of its batch,
//! discards all later history, and records itself as a log entry.

use vstd::prelude::*;
use crate::command::{GameCommand, GameCommandV};
use crate::error::{GameError, GameErrorV};
use crate::game::{
    Game, GameV, copy_game, find_creature, spec_apply_logs, spec_creature_index, spec_elem_index,
    spec_execute, spec_scene_table_index, find_scene, find_cid_list,
};
use crate::ids::{CreatureID, PlayerID, SceneID};
use crate::logs::{GameLog, GameLogV, copy_game_log, game_logs_view};

verus! {

/// How many logs a snapshot entry's batch holds before a fresh snapshot
/// entry is started.
pub const SNAPSHOT_CADENCE: usize = 100;

/// How many snapshot entries the history keeps before dropping the
/// oldest.
pub const MAX_SNAPSHOTS: usize = 20;

/// A player: who they are, which scene they watch, and the creatures they
/// control.
#[derive(Debug)]
pub struct Player {
    pub player_id: PlayerID,
    pub scene: Option<SceneID>,
    pub creatures: Vec<CreatureID>,
}

/// The mathematical model of a [`Player`].
pub struct PlayerV {
    pub player_id: Seq<char>,
    pub scene: Option<SceneID>,
    pub creatures: Seq<CreatureID>,
}

impl View for Player {
    type V = PlayerV;

    open spec fn view(&self) -> PlayerV {
        PlayerV { player_id: self.player_id@, scene: self.scene, creatures: self.creatures@ }
    }
}

impl Player {
    /// A newly registered player: no scene, no creatures.
    pub fn new(name: PlayerID) -> (r: Player)
        ensures
            r@.player_id == name@,
            r@.scene is None,
            r@.creatures == Seq::<CreatureID>::empty(),
    {
        Player { player_id: name, scene: None, creatures: Vec::new() }
    }
}

/// The index of a player (by id) in the player table.
pub open spec fn spec_player_index(ps: Seq<PlayerV>, pid: Seq<char>) -> Option<int>
    decreases ps.len(),
{
    if ps.len() == 0 {
        None
    } else if ps[0].player_id == pid {
        Some(0)
    } else {
        match spec_player_index(ps.drop_first(), pid) {
            Some(i) => Some(i + 1),
            None => None,
        }
    }
}

/// What the player lookup finds: the first player with the id.
pub proof fn lemma_player_index(ps: Seq<PlayerV>, pid: Seq<char>)
    ensures
        match spec_player_index(ps, pid) {
            Some(i) => 0 <= i < ps.len() && ps[i].player_id == pid,
            None => forall|i: int| 0 <= i < ps.len() ==> ps[i].player_id != pid,
        },
    decreases ps.len(),
{
    if ps.len() > 0 && ps[0].player_id != pid {
        lemma_player_index(ps.drop_first(), pid);
        match spec_player_index(ps.drop_first(), pid) {
            Some(i) => {
                assert(ps.drop_first()[i] == ps[i + 1]);
            },
            None => {
                assert forall|i: int| 0 <= i < ps.len() implies ps[i].player_id != pid by {
                    if i > 0 {
                        assert(ps.drop_first()[i - 1] == ps[i]);
                    }
                }
            },
        }
    }
}

/// Finds a player by id in the player table.
pub fn find_player(ps: &Vec<Player>, pid: &PlayerID) -> (r: Option<usize>)
    ensures
        match r {
            Some(i) => spec_player_index(ps@.map_values(|p: Player| p@), pid@) == Some(i as int)
                && i < ps@.len(),
            None => spec_player_index(ps@.map_values(|p: Player| p@), pid@) is None,
        },
{
    let ghost m = ps@.map_values(|p: Player| p@);
    let mut i: usize = 0;
    proof {
        assert(m.skip(0) =~= m);
    }
    while i < ps.len()
        invariant
            i <= ps.len(),
            m == ps@.map_values(|p: Player| p@),
            spec_player_index(m, pid@) == match spec_player_index(m.skip(i as int), pid@) {
                Some(k) => Some(k + i),
                None => None::<int>,
            },
        decreases ps.len() - i,
    {
        proof {
            assert(m.skip(i as int)[0] == m[i as int]);
        }
        if ps[i].player_id == *pid {
            return Some(i);
        }
        proof {
            assert(m.skip(i as int).drop_first() =~= m.skip(i + 1));
        }
        i = i + 1;
    }
    proof {
        assert(m.skip(i as int).len() == 0);
    }
    None
}

/// A fresh copy of a player, equal in the model.
pub fn copy_player(p: &Player) -> (r: Player)
    ensures
        r@ == p@,
{
    Player {
        player_id: p.player_id.dup(),
        scene: p.scene,
        creatures: crate::types::copy_vec(&p.creatures),
    }
}

/// A fresh copy of a log batch, equal in the model.
fn copy_logs(v: &Vec<GameLog>) -> (r: Vec<GameLog>)
    ensures
        game_logs_view(r@) == game_logs_view(v@),
{
    let mut out: Vec<GameLog> = Vec::new();
    let mut i: usize = 0;
    while i < v.len()
        invariant
            i <= v.len(),
            out@.len() == i,
            forall|j: int| 0 <= j < i ==> (#[trigger] out@[j])@ == v@[j]@,
        decreases v.len() - i,
    {
        out.push(copy_game_log(&v[i]));
        i = i + 1;
    }
    proof {
        assert(game_logs_view(out@) =~= game_logs_view(v@));
    }
    out
}

/// The app: current game, snapshot history, player table.
#[derive(Debug)]
pub struct App {
    pub current_game: Game,
    pub snapshots: Vec<(Game, Vec<GameLog>)>,
    pub players: Vec<Player>,
}

/// The mathematical model of an [`App`].
pub struct AppV {
    pub current_game: GameV,
    pub snapshots: Seq<(GameV, Seq<GameLogV>)>,
    pub players: Seq<PlayerV>,
}

impl View for App {
    type V = AppV;

    open spec fn view(&self) -> AppV {
        AppV {
            current_game: self.current_game@,
            snapshots: self.snapshots@.map_values(
                |p: (Game, Vec<GameLog>)| (p.0@, game_logs_view(p.1@)),
            ),
            players: self.players@.map_values(|p: Player| p@),
        }
    }
}

/// A fresh copy of an app, equal in the model.
pub fn copy_app(a: &App) -> (r: App)
    ensures
        r@ == a@,
{
    let mut snapshots: Vec<(Game, Vec<GameLog>)> = Vec::new();
    let mut i: usize = 0;
    while i < a.snapshots.len()
        invariant
            i <= a.snapshots.len(),
            snapshots@.len() == i,
            forall|j: int| 0 <= j < i ==> (#[trigger] snapshots@[j]).0@ == a.snapshots@[j].0@
                && game_logs_view(snapshots@[j].1@) == game_logs_view(a.snapshots@[j].1@),
        decreases a.snapshots.len() - i,
    {
        let entry = &a.snapshots[i];
        snapshots.push((copy_game(&entry.0), copy_logs(&entry.1)));
        i = i + 1;
    }
    let mut players: Vec<Player> = Vec::new();
    let mut k: usize = 0;
    while k < a.players.len()
        invariant
            k <= a.players.len(),
            players@.len() == k,
            forall|j: int| 0 <= j < k ==> (#[trigger] players@[j])@ == a.players@[j]@,
        decreases a.players.len() - k,
    {
        players.push(copy_player(&a.players[k]));
        k = k + 1;
    }
    let r = App { current_game: copy_game(&a.current_game), snapshots, players };
    proof {
        assert(r@.snapshots =~= a@.snapshots);
        assert(r@.players =~= a@.players);
    }
    r
}

/// The first of the given creatures that the game does not know, if any.
pub open spec fn spec_first_missing(g: GameV, cids: Seq<CreatureID>) -> Option<CreatureID>
    decreases cids.len(),
{
    if cids.len() == 0 {
        None
    } else if spec_creature_index(g.creatures, cids[0]) is None {
        Some(cids[0])
    } else {
        spec_first_missing(g, cids.drop_first())
    }
}

/// The first of the given creatures that the game does not know, if any.
fn first_missing(g: &Game, cids: &Vec<CreatureID>) -> (r: Option<CreatureID>)
    ensures
        r == spec_first_missing(g@, cids@),
{
    let mut i: usize = 0;
    proof {
        assert(cids@.skip(0) =~= cids@);
    }
    while i < cids.len()
        invariant
            i <= cids.len(),
            spec_first_missing(g@, cids@) == spec_first_missing(g@, cids@.skip(i as int)),
        decreases cids.len() - i,
    {
        proof {
            assert(cids@.skip(i as int)[0] == cids@[i as int]);
        }
        if find_creature(&g.creatures, cids[i]).is_none() {
            return Some(cids[i]);
        }
        proof {
            assert(cids@.skip(i as int).drop_first() =~= cids@.skip(i + 1));
        }
        i = i + 1;
    }
    proof {
        assert(cids@.skip(i as int).len() == 0);
    }
    None
}

/// A creature set with the given creatures added, skipping those already
/// present, in order.
pub open spec fn spec_add_cids(cs: Seq<CreatureID>, new: Seq<CreatureID>) -> Seq<CreatureID>
    decreases new.len(),
{
    if new.len() == 0 {
        cs
    } else {
        let cs1 = if spec_elem_index(cs, new[0]) is Some {
            cs
        } else {
            cs.push(new[0])
        };
        spec_add_cids(cs1, new.drop_first())
    }
}

/// A creature set with the given creatures removed, in order.
pub open spec fn spec_remove_cids(cs: Seq<CreatureID>, gone: Seq<CreatureID>) -> Seq<CreatureID>
    decreases gone.len(),
{
    if gone.len() == 0 {
        cs
    } else {
        let cs1 = match spec_elem_index(cs, gone[0]) {
            Some(i) => cs.remove(i),
            None => cs,
        };
        spec_remove_cids(cs1, gone.drop_first())
    }
}

/// Adds the given creatures to a set, skipping duplicates.
fn add_cids(cs: &mut Vec<CreatureID>, new: &Vec<CreatureID>)
    ensures
        final(cs)@ == spec_add_cids(old(cs)@, new@),
{
    let ghost cs0 = old(cs)@;
    let mut i: usize = 0;
    proof {
        assert(new@.skip(0) =~= new@);
    }
    while i < new.len()
        invariant
            i <= new.len(),
            spec_add_cids(cs0, new@) == spec_add_cids(cs@, new@.skip(i as int)),
        decreases new.len() - i,
    {
        proof {
            assert(new@.skip(i as int)[0] == new@[i as int]);
            assert(new@.skip(i as int).drop_first() =~= new@.skip(i + 1));
        }
        if find_cid_list(cs, new[i]).is_none() {
            cs.push(new[i]);
        }
        i = i + 1;
    }
    proof {
        assert(new@.skip(i as int).len() == 0);
    }
}

/// Removes the given creatures from a set.
fn remove_cids(cs: &mut Vec<CreatureID>, gone: &Vec<CreatureID>)
    ensures
        final(cs)@ == spec_remove_cids(old(cs)@, gone@),
{
    let ghost cs0 = old(cs)@;
    let mut i: usize = 0;
    proof {
        assert(gone@.skip(0) =~= gone@);
    }
    while i < gone.len()
        invariant
            i <= gone.len(),
            spec_remove_cids(cs0, gone@) == spec_remove_cids(cs@, gone@.skip(i as int)),
        decreases gone.len() - i,
    {
        proof {
            assert(gone@.skip(i as int)[0] == gone@[i as int]);
            assert(gone@.skip(i as int).drop_first() =~= gone@.skip(i + 1));
        }
        match find_cid_list(cs, gone[i]) {
            Some(k) => {
                cs.remove(k);
            },
            None => {},
        }
        i = i + 1;
    }
    proof {
        assert(gone@.skip(i as int).len() == 0);
    }
}

/// A player command applied to the app: player management changes only the
/// player table, never the game or its history.
pub open spec fn spec_player_command(app: AppV, c: GameCommandV) -> Result<AppV, GameErrorV> {
    match c {
        GameCommandV::RegisterPlayer(pid) => if spec_player_index(app.players, pid) is Some {
            Err(GameErrorV::PlayerAlreadyExists(pid))
        } else {
            Ok(
                AppV {
                    players: app.players.push(
                        PlayerV { player_id: pid, scene: None, creatures: Seq::empty() },
                    ),
                    ..app
                },
            )
        },
        GameCommandV::UnregisterPlayer(pid) => match spec_player_index(app.players, pid) {
            None => Err(GameErrorV::PlayerNotFound(pid)),
            Some(i) => Ok(AppV { players: app.players.remove(i), ..app }),
        },
        GameCommandV::GiveCreaturesToPlayer(pid, cids) => match spec_player_index(
            app.players,
            pid,
        ) {
            None => Err(GameErrorV::PlayerNotFound(pid)),
            Some(i) => match spec_first_missing(app.current_game, cids) {
                Some(cid) => Err(GameErrorV::CreatureNotFound(crate::ids::uuid_text(cid.0))),
                None => Ok(
                    AppV {
                        players: app.players.update(
                            i,
                            PlayerV {
                                creatures: spec_add_cids(app.players[i].creatures, cids),
                                ..app.players[i]
                            },
                        ),
                        ..app
                    },
                ),
            },
        },
        GameCommandV::RemoveCreaturesFromPlayer(pid, cids) => match spec_player_index(
            app.players,
            pid,
        ) {
            None => Err(GameErrorV::PlayerNotFound(pid)),
            Some(i) => Ok(
                AppV {
                    players: app.players.update(
                        i,
                        PlayerV {
                            creatures: spec_remove_cids(app.players[i].creatures, cids),
                            ..app.players[i]
                        },
                    ),
                    ..app
                },
            ),
        },
        GameCommandV::SetPlayerScene(pid, scene) => match spec_player_index(app.players, pid) {
            None => Err(GameErrorV::PlayerNotFound(pid)),
            Some(i) => match scene {
                Some(sid) => if spec_scene_table_index(app.current_game.scenes, sid) is None {
                    Err(GameErrorV::SceneNotFound(sid))
                } else {
                    Ok(
                        AppV {
                            players: app.players.update(
                                i,
                                PlayerV { scene: Some(sid), ..app.players[i] },
                            ),
                            ..app
                        },
                    )
                },
                None => Ok(
                    AppV {
                        players: app.players.update(
                            i,
                            PlayerV { scene: None, ..app.players[i] },
                        ),
                        ..app
                    },
                ),
            },
        },
        _ => Err(GameErrorV::BuggyProgram("not a player command"@)),
    }
}

/// Recording an executed command in the history: the logs append to the
/// most recent snapshot entry (started from the prior game when the
/// history is empty); a batch that reaches the cadence starts a fresh
/// snapshot; the oldest entry is dropped beyond the bound.
pub open spec fn spec_record(app: AppV, g2: GameV, logs: Seq<GameLogV>) -> AppV {
    let snaps0 = if app.snapshots.len() == 0 {
        seq![(app.current_game, Seq::<GameLogV>::empty())]
    } else {
        app.snapshots
    };
    let last = snaps0.len() - 1;
    let batch = snaps0[last].1 + logs;
    let snaps1 = snaps0.update(last, (snaps0[last].0, batch));
    let snaps2 = if batch.len() >= SNAPSHOT_CADENCE {
        snaps1.push((g2, Seq::<GameLogV>::empty()))
    } else {
        snaps1
    };
    let snaps3 = if snaps2.len() > MAX_SNAPSHOTS {
        snaps2.drop_first()
    } else {
        snaps2
    };
    AppV { current_game: g2, snapshots: snaps3, ..app }
}

/// Rolling back to a snapshot and log index: the game is rebuilt from the
/// snapshot by re-applying its logs up to and including the index, all
/// later history is discarded, and the rollback itself is recorded as a
/// log entry.
pub open spec fn spec_rollback(app: AppV, s: usize, l: usize) -> Result<AppV, GameErrorV> {
    if s >= app.snapshots.len() || l >= app.snapshots[s as int].1.len() {
        Err(GameErrorV::HistoryNotFound(s, l))
    } else {
        let snap = app.snapshots[s as int].0;
        let prefix = app.snapshots[s as int].1.take(l + 1);
        match spec_apply_logs(snap, prefix) {
            Err(e) => Err(e),
            Ok(g2) => Ok(
                AppV {
                    current_game: g2,
                    snapshots: app.snapshots.take(s + 1).update(
                        s as int,
                        (snap, prefix.push(GameLogV::Rollback(s, l))),
                    ),
                    ..app
                },
            ),
        }
    }
}

/// Rollback is idempotent: rolling back twice in a row to the same
/// coordinates yields the same app state, and in particular the same
/// game, both times.
pub proof fn lemma_rollback_idempotent(app: AppV, s: usize, l: usize)
    requires
        spec_rollback(app, s, l) is Ok,
    ensures
        match spec_rollback(app, s, l) {
            Ok(app2) => spec_rollback(app2, s, l) == Ok::<AppV, GameErrorV>(app2),
            Err(_) => false,
        },
{
    let app2 = spec_rollback(app, s, l)->Ok_0;
    let snap = app.snapshots[s as int].0;
    let prefix = app.snapshots[s as int].1.take(l + 1);
    assert(app2.snapshots[s as int].0 == snap);
    assert(app2.snapshots[s as int].1 == prefix.push(GameLogV::Rollback(s, l)));
    assert(app2.snapshots.len() == s + 1);
    assert(app2.snapshots[s as int].1.len() == l + 2);
    assert(app2.snapshots[s as int].1.take(l + 1) =~= prefix);
    let app3 = spec_rollback(app2, s, l)->Ok_0;
    assert(app3.current_game == app2.current_game);
    assert(app3.snapshots =~= app2.snapshots) by {
        assert(app2.snapshots.take(s + 1) =~= app2.snapshots);
    }
}

impl App {
    /// A fresh app around a game: one history entry holding the starting
    /// snapshot with an empty batch, and no players.
    pub fn new(game: Game) -> (r: App)
        ensures
            r@.current_game == game@,
            r@.snapshots.len() == 1,
            r@.snapshots[0].0 == game@,
            r@.snapshots[0].1 == Seq::<GameLogV>::empty(),
            r@.players == Seq::<PlayerV>::empty(),
    {
        let snap = copy_game(&game);
        let mut snapshots: Vec<(Game, Vec<GameLog>)> = Vec::new();
        snapshots.push((snap, Vec::new()));
        let r = App { current_game: game, snapshots, players: Vec::new() };
        proof {
            assert(r@.snapshots =~~= seq![(game@, Seq::<GameLogV>::empty())]);
            assert(r@.snapshots[0].1 =~= Seq::<GameLogV>::empty());
            assert(r@.players =~= Seq::<PlayerV>::empty());
        }
        r
    }

    /// Records an executed command's outcome in the history; see
    /// [`spec_record`].
    #[verifier::rlimit(100)]
    #[verifier::spinoff_prover]
    fn record(self, g2: Game, logs: &Vec<GameLog>) -> (r: App)
        ensures
            r@ == spec_record(self@, g2@, game_logs_view(logs@)),
    {
        let ghost app0 = self@;
        let mut app = self;
        if app.snapshots.len() == 0 {
            let snap = copy_game(&app.current_game);
            app.snapshots.push((snap, Vec::new()));
            proof {
                assert(app@.snapshots =~~= seq![(app0.current_game, Seq::<GameLogV>::empty())]);
            }
        }
        let ghost snaps0 = app@.snapshots;
        let last = app.snapshots.len() - 1;
        let mut entry = app.snapshots.remove(last);
        let ghost batch0 = game_logs_view(entry.1@);
        proof {
            assert(snaps0[last as int] == (entry.0@, batch0));
        }
        let mut i: usize = 0;
        while i < logs.len()
            invariant
                i <= logs.len(),
                last == snaps0.len() - 1,
                0 <= last < snaps0.len(),
                entry.0@ == snaps0[last as int].0,
                batch0 == snaps0[last as int].1,
                game_logs_view(entry.1@) =~= batch0 + game_logs_view(logs@).take(i as int),
            decreases logs.len() - i,
        {
            let ghost pre = game_logs_view(entry.1@);
            entry.1.push(copy_game_log(&logs[i]));
            proof {
                assert(game_logs_view(entry.1@) =~= pre.push(logs@[i as int]@));
                assert(game_logs_view(logs@).take(i + 1) =~= game_logs_view(logs@).take(
                    i as int,
                ).push(logs@[i as int]@));
                assert(game_logs_view(entry.1@) =~= batch0 + game_logs_view(logs@).take(i + 1));
            }
            i = i + 1;
        }
        proof {
            assert(game_logs_view(logs@).take(logs@.len() as int) =~= game_logs_view(logs@));
        }
        let batch_len = entry.1.len();
        let ghost entry0v = entry.0@;
        let ghost entry1v = game_logs_view(entry.1@);
        app.snapshots.insert(last, entry);
        proof {
            let lastg = snaps0.len() - 1;
            let batch = snaps0[lastg].1 + game_logs_view(logs@);
            assert(entry0v == snaps0[lastg].0);
            assert(entry1v == batch0 + game_logs_view(logs@));
            assert(entry1v == batch);
            assert(app@.snapshots[lastg] == (entry0v, entry1v));
            assert(app@.snapshots =~~= snaps0.update(lastg, (snaps0[lastg].0, batch)));
        }
        if batch_len >= SNAPSHOT_CADENCE {
            let snap2 = copy_game(&g2);
            app.snapshots.push((snap2, Vec::new()));
        }
        if app.snapshots.len() > MAX_SNAPSHOTS {
            let ghost pre = app@.snapshots;
            app.snapshots.remove(0);
            proof {
                assert(app@.snapshots =~~= pre.drop_first());
            }
        }
        app.current_game = g2;
        proof {
            assert(app@.snapshots =~~= spec_record(app0, g2@, game_logs_view(logs@)).snapshots);
            assert(app@.players =~= spec_record(app0, g2@, game_logs_view(logs@)).players);
        }
        app
    }

    /// Rolls back to a snapshot and log index; see [`spec_rollback`].
    #[verifier::rlimit(100)]
    #[verifier::spinoff_prover]
    pub fn rollback(&self, s: usize, l: usize) -> (r: Result<App, GameError>)
        ensures
            match r {
                Ok(app2) => spec_rollback(self@, s, l) == Ok::<AppV, GameErrorV>(app2@),
                Err(e) => spec_rollback(self@, s, l) == Err::<AppV, GameErrorV>(e@),
            },
    {
        let ghost app0 = self@;
        if s >= self.snapshots.len() || l >= self.snapshots[s].1.len() {
            proof {
                assert(s < app0.snapshots.len() ==> app0.snapshots[s as int].1.len()
                    == self.snapshots@[s as int].1@.len());
            }
            return Err(GameError::HistoryNotFound(s, l));
        }
        proof {
            assert(app0.snapshots[s as int].1.len() == self.snapshots@[s as int].1@.len());
        }
        let mut app = copy_app(self);
        proof {
            assert(app.snapshots@.len() == self.snapshots@.len());
            assert(app@.snapshots =~= app0.snapshots.take(app.snapshots@.len() as int));
        }
        // Discard all later snapshot entries.
        while app.snapshots.len() > s + 1
            invariant
                s < app.snapshots@.len(),
                app.snapshots@.len() <= app0.snapshots.len(),
                app@.players == app0.players,
                app.snapshots@.map_values(|p: (Game, Vec<GameLog>)| (p.0@, game_logs_view(p.1@)))
                    =~~= app0.snapshots.take(app.snapshots@.len() as int),
            decreases app.snapshots@.len(),
        {
            let ghost pre = app.snapshots@.map_values(
                |p: (Game, Vec<GameLog>)| (p.0@, game_logs_view(p.1@)),
            );
            let ghost n0 = app.snapshots@.len() as int;
            app.snapshots.pop();
            proof {
                assert(app.snapshots@.map_values(
                    |p: (Game, Vec<GameLog>)| (p.0@, game_logs_view(p.1@)),
                ) =~~= pre.drop_last());
                assert(pre == app0.snapshots.take(n0));
                assert(pre.drop_last() =~= app0.snapshots.take(n0).drop_last());
                assert(app0.snapshots.take(n0).drop_last() =~= app0.snapshots.take(n0 - 1));
            }
        }
        let ghost pre_map = app.snapshots@.map_values(
            |p: (Game, Vec<GameLog>)| (p.0@, game_logs_view(p.1@)),
        );
        let mut entry = app.snapshots.remove(s);
        proof {
            assert(pre_map == app0.snapshots.take(s + 1));
            assert(pre_map[s as int] == app0.snapshots[s as int]);
            assert((entry.0@, game_logs_view(entry.1@)) == pre_map[s as int]);
            assert(app0.snapshots[s as int].1.take(entry.1@.len() as int)
                =~= app0.snapshots[s as int].1);
        }
        // Truncate the batch to the prefix up to and including `l`.
        while entry.1.len() > l + 1
            invariant
                s < app0.snapshots.len(),
                l < entry.1@.len(),
                entry.1@.len() <= app0.snapshots[s as int].1.len(),
                entry.0@ == app0.snapshots[s as int].0,
                game_logs_view(entry.1@) =~= app0.snapshots[s as int].1.take(
                    entry.1@.len() as int,
                ),
            decreases entry.1@.len(),
        {
            let ghost pre = game_logs_view(entry.1@);
            let ghost n0 = entry.1@.len() as int;
            entry.1.pop();
            proof {
                assert(game_logs_view(entry.1@) =~= pre.drop_last());
                assert(pre == app0.snapshots[s as int].1.take(n0));
                assert(pre.drop_last() =~= app0.snapshots[s as int].1.take(n0).drop_last());
                assert(app0.snapshots[s as int].1.take(n0).drop_last() =~= app0.snapshots[
                    s as int
                ].1.take(n0 - 1));
            }
        }
        proof {
            assert(game_logs_view(entry.1@) =~= app0.snapshots[s as int].1.take(l + 1));
        }
        let g2 = match copy_game(&entry.0).apply_logs(&entry.1) {
            Ok(g2) => g2,
            Err(e) => {
                return Err(e);
            },
        };
        entry.1.push(GameLog::Rollback(s, l));
        proof {
            assert(game_logs_view(entry.1@) =~= app0.snapshots[s as int].1.take(l + 1).push(
                GameLogV::Rollback(s, l),
            ));
        }
        app.snapshots.insert(s, entry);
        app.current_game = g2;
        proof {
            assert(app@.snapshots =~~= app0.snapshots.take(s + 1).update(
                s as int,
                (
                    app0.snapshots[s as int].0,
                    app0.snapshots[s as int].1.take(l + 1).push(GameLogV::Rollback(s, l)),
                ),
            ));
            assert(app@.players =~= app0.players);
        }
        Ok(app)
    }

    /// Processes one command: player management changes the player table,
    /// rollback rewrites history, and every other command executes against
    /// the current game, with the emitted logs appended to the history.
    /// The returned logs always replay: folding them over the prior game
    /// reproduces the new current game.
    #[verifier::rlimit(100)]
    #[verifier::spinoff_prover]
    pub fn perform_command(&self, cmd: &GameCommand) -> (r: Result<(App, Vec<GameLog>), GameError>)
        ensures
            match r {
                Ok((app2, logs)) => match cmd@ {
                    GameCommandV::RegisterPlayer(_)
                    | GameCommandV::GiveCreaturesToPlayer(_, _)
                    | GameCommandV::UnregisterPlayer(_)
                    | GameCommandV::RemoveCreaturesFromPlayer(_, _)
                    | GameCommandV::SetPlayerScene(_, _) => spec_player_command(self@, cmd@)
                        == Ok::<AppV, GameErrorV>(app2@) && logs@.len() == 0,
                    GameCommandV::Rollback(s, l) => spec_rollback(self@, s, l) == Ok::<
                        AppV,
                        GameErrorV,
                    >(app2@) && logs@.len() == 0,
                    _ => spec_apply_logs(self@.current_game, game_logs_view(logs@)) == Ok::<
                        GameV,
                        GameErrorV,
                    >(app2@.current_game) && app2@ == spec_record(
                        self@,
                        app2@.current_game,
                        game_logs_view(logs@),
                    ) && (exists|fresh: u128, tape: Seq<u8>|
                        crate::game::plan_shaped(self@.current_game, cmd@, tape) && spec_execute(
                            self@.current_game,
                            cmd@,
                            fresh,
                            tape,
                        ) == Ok::<(GameV, Seq<GameLogV>), GameErrorV>(
                            (app2@.current_game, game_logs_view(logs@)),
                        )),
                },
                Err(e) => match cmd@ {
                    GameCommandV::RegisterPlayer(_)
                    | GameCommandV::GiveCreaturesToPlayer(_, _)
                    | GameCommandV::UnregisterPlayer(_)
                    | GameCommandV::RemoveCreaturesFromPlayer(_, _)
                    | GameCommandV::SetPlayerScene(_, _) => spec_player_command(self@, cmd@)
                        == Err::<AppV, GameErrorV>(e@),
                    GameCommandV::Rollback(s, l) => spec_rollback(self@, s, l) == Err::<
                        AppV,
                        GameErrorV,
                    >(e@),
                    _ => exists|fresh: u128, tape: Seq<u8>|
                        crate::game::plan_shaped(self@.current_game, cmd@, tape) && spec_execute(
                            self@.current_game,
                            cmd@,
                            fresh,
                            tape,
                        ) == Err::<(GameV, Seq<GameLogV>), GameErrorV>(e@),
                },
            },
    {
        match cmd {
            GameCommand::RegisterPlayer(pid) => {
                match find_player(&self.players, pid) {
                    Some(_) => Err(GameError::PlayerAlreadyExists(pid.dup())),
                    None => {
                        let ghost app0 = self@;
                        let mut app = copy_app(self);
                        app.players.push(Player::new(pid.dup()));
                        proof {
                            assert(app@.players =~= app0.players.push(
                                PlayerV {
                                    player_id: pid@,
                                    scene: None,
                                    creatures: Seq::empty(),
                                },
                            ));
                            assert(app@.snapshots =~= app0.snapshots);
                        }
                        Ok((app, Vec::new()))
                    },
                }
            },
            GameCommand::UnregisterPlayer(pid) => {
                match find_player(&self.players, pid) {
                    None => Err(GameError::PlayerNotFound(pid.dup())),
                    Some(i) => {
                        let ghost app0 = self@;
                        let mut app = copy_app(self);
                        app.players.remove(i);
                        proof {
                            assert(app@.players =~= app0.players.remove(i as int));
                            assert(app@.snapshots =~= app0.snapshots);
                        }
                        Ok((app, Vec::new()))
                    },
                }
            },
            GameCommand::GiveCreaturesToPlayer(pid, cids) => {
                match find_player(&self.players, pid) {
                    None => Err(GameError::PlayerNotFound(pid.dup())),
                    Some(i) => {
                        match first_missing(&self.current_game, cids) {
                            Some(cid) => Err(GameError::CreatureNotFound(cid.to_string())),
                            None => {
                                let ghost app0 = self@;
                                let mut app = copy_app(self);
                                let mut p = app.players.remove(i);
                                add_cids(&mut p.creatures, cids);
                                let ghost pv = p@;
                                app.players.insert(i, p);
                                proof {
                                    assert(pv == PlayerV {
                                        creatures: spec_add_cids(
                                            app0.players[i as int].creatures,
                                            cids@,
                                        ),
                                        ..app0.players[i as int]
                                    });
                                    assert(app@.players =~= app0.players.update(i as int, pv));
                                    assert(app@.snapshots =~= app0.snapshots);
                                }
                                Ok((app, Vec::new()))
                            },
                        }
                    },
                }
            },
            GameCommand::RemoveCreaturesFromPlayer(pid, cids) => {
                match find_player(&self.players, pid) {
                    None => Err(GameError::PlayerNotFound(pid.dup())),
                    Some(i) => {
                        let ghost app0 = self@;
                        let mut app = copy_app(self);
                        let mut p = app.players.remove(i);
                        remove_cids(&mut p.creatures, cids);
                        let ghost pv = p@;
                        app.players.insert(i, p);
                        proof {
                            assert(pv == PlayerV {
                                creatures: spec_remove_cids(
                                    app0.players[i as int].creatures,
                                    cids@,
                                ),
                                ..app0.players[i as int]
                            });
                            assert(app@.players =~= app0.players.update(i as int, pv));
                            assert(app@.snapshots =~= app0.snapshots);
                        }
                        Ok((app, Vec::new()))
                    },
                }
            },
            GameCommand::SetPlayerScene(pid, scene) => {
                match find_player(&self.players, pid) {
                    None => Err(GameError::PlayerNotFound(pid.dup())),
                    Some(i) => {
                        match scene {
                            Some(sid) => {
                                if find_scene(&self.current_game.scenes, *sid).is_none() {
                                    return Err(GameError::SceneNotFound(*sid));
                                }
                            },
                            None => {},
                        }
                        let ghost app0 = self@;
                        let mut app = copy_app(self);
                        let mut p = app.players.remove(i);
                        p.scene = match scene {
                            Some(sid) => Some(*sid),
                            None => None,
                        };
                        let ghost pv = p@;
                        app.players.insert(i, p);
                        proof {
                            assert(app@.players =~= app0.players.update(i as int, pv));
                            assert(app@.snapshots =~= app0.snapshots);
                        }
                        Ok((app, Vec::new()))
                    },
                }
            },
            GameCommand::Rollback(s, l) => {
                match self.rollback(*s, *l) {
                    Ok(app2) => Ok((app2, Vec::new())),
                    Err(e) => Err(e),
                }
            },
            _ => {
                let ghost app0 = self@;
                let (g2, logs) = match self.current_game.perform_command(cmd) {
                    Ok(t) => t,
                    Err(e) => {
                        return Err(e);
                    },
                };
                let app2 = copy_app(self).record(g2, &logs);
                Ok((app2, logs))
            },
        }
    }
}

} // verus!
