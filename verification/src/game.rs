//! The game state and the pure log-application core.
//!
//! A [`Game`] holds everything a session is about: the ability catalog,
//! the creature, map and scene tables, the class catalog, the campaign
//! folder tree and the running combat. Applying a single log entry to a
//! game is a pure, total function: folding the same log sequence over the
//! same starting state always reproduces the same resulting state.

use vstd::prelude::*;
use crate::abilities::{Ability, AbilityV, Class, ClassV};
use crate::combat::{Combat, CombatV, copy_combat, spec_apply_combat_log, spec_cid_index};
use crate::creature::{
    Creature, CreatureV, apply_creature_log, copy_creature, spec_apply_creature_log,
};
use crate::error::{GameError, GameErrorV};
use crate::folder::{Folder, FolderV, FolderItemID, FolderItemIDV, FolderPath, Note, NoteV, copy_folder, copy_note};
use crate::ids::{AbilityID, CreatureID, MapID, SceneID};
use crate::logs::{GameLog, GameLogV, game_logs_view};
use crate::scene::{GameMap, GameMapV, Scene, SceneV, copy_map, copy_scene};
use crate::types::TileSystem;

verus! {

/// The full state of one game session.
#[derive(Debug)]
pub struct Game {
    /// The running combat, if any.
    pub current_combat: Option<Combat>,
    /// The ability catalog.
    pub abilities: Vec<(AbilityID, Ability)>,
    /// The creature table.
    pub creatures: Vec<Creature>,
    /// The map table.
    pub maps: Vec<GameMap>,
    /// The class catalog.
    pub classes: Vec<(String, Class)>,
    /// The tile/movement cost model in use.
    pub tile_system: TileSystem,
    /// The scene table.
    pub scenes: Vec<Scene>,
    /// The campaign folder hierarchy, keyed by path.
    pub campaign: Vec<(FolderPath, Folder)>,
}

/// The mathematical model of a [`Game`].
pub struct GameV {
    pub current_combat: Option<CombatV>,
    pub abilities: Seq<(Seq<char>, AbilityV)>,
    pub creatures: Seq<CreatureV>,
    pub maps: Seq<GameMapV>,
    pub classes: Seq<(Seq<char>, ClassV)>,
    pub tile_system: TileSystem,
    pub scenes: Seq<SceneV>,
    pub campaign: Seq<(Seq<Seq<char>>, FolderV)>,
}

impl View for Game {
    type V = GameV;

    open spec fn view(&self) -> GameV {
        GameV {
            current_combat: match self.current_combat {
                Some(c) => Some(c@),
                None => None,
            },
            abilities: self.abilities@.map_values(|p: (AbilityID, Ability)| (p.0@, p.1@)),
            creatures: self.creatures@.map_values(|c: Creature| c@),
            maps: self.maps@.map_values(|m: GameMap| m@),
            classes: self.classes@.map_values(|p: (String, Class)| (p.0@, p.1@)),
            tile_system: self.tile_system,
            scenes: self.scenes@.map_values(|s: Scene| s@),
            campaign: self.campaign@.map_values(|p: (FolderPath, Folder)| (p.0@, p.1@)),
        }
    }
}

/// The index of a creature (by id) in the creature table.
pub open spec fn spec_creature_index(cs: Seq<CreatureV>, cid: CreatureID) -> Option<int>
    decreases cs.len(),
{
    if cs.len() == 0 {
        None
    } else if cs[0].id == cid {
        Some(0)
    } else {
        match spec_creature_index(cs.drop_first(), cid) {
            Some(i) => Some(i + 1),
            None => None,
        }
    }
}

/// What the creature lookup finds: the first creature with the id.
pub proof fn lemma_creature_index(cs: Seq<CreatureV>, cid: CreatureID)
    ensures
        match spec_creature_index(cs, cid) {
            Some(i) => 0 <= i < cs.len() && cs[i].id == cid,
            None => forall|i: int| 0 <= i < cs.len() ==> cs[i].id != cid,
        },
    decreases cs.len(),
{
    if cs.len() > 0 && cs[0].id != cid {
        lemma_creature_index(cs.drop_first(), cid);
        match spec_creature_index(cs.drop_first(), cid) {
            Some(i) => {
                assert(cs.drop_first()[i] == cs[i + 1]);
            },
            None => {
                assert forall|i: int| 0 <= i < cs.len() implies cs[i].id != cid by {
                    if i > 0 {
                        assert(cs.drop_first()[i - 1] == cs[i]);
                    }
                }
            },
        }
    }
}

/// Finds a creature by id in the creature table.
pub fn find_creature(cs: &Vec<Creature>, cid: CreatureID) -> (r: Option<usize>)
    ensures
        match r {
            Some(i) => spec_creature_index(cs@.map_values(|c: Creature| c@), cid) == Some(i as int)
                && i < cs@.len(),
            None => spec_creature_index(cs@.map_values(|c: Creature| c@), cid) is None,
        },
{
    let ghost m = cs@.map_values(|c: Creature| c@);
    let mut i: usize = 0;
    proof {
        assert(m.skip(0) =~= m);
    }
    while i < cs.len()
        invariant
            i <= cs.len(),
            m == cs@.map_values(|c: Creature| c@),
            spec_creature_index(m, cid) == match spec_creature_index(m.skip(i as int), cid) {
                Some(k) => Some(k + i),
                None => None::<int>,
            },
        decreases cs.len() - i,
    {
        proof {
            assert(m.skip(i as int)[0] == m[i as int]);
        }
        if cs[i].id == cid {
            return Some(i);
        }
        proof {
            assert(m.skip(i as int).drop_first() =~= m.skip(i + 1));
        }
        i = i + 1;
    }
    proof {
        assert(m.skip(i as int).len() == 0);
    }
    None
}

/// The index of a scene (by id) in the scene table.
pub open spec fn spec_scene_table_index(ss: Seq<SceneV>, sid: SceneID) -> Option<int>
    decreases ss.len(),
{
    if ss.len() == 0 {
        None
    } else if ss[0].id == sid {
        Some(0)
    } else {
        match spec_scene_table_index(ss.drop_first(), sid) {
            Some(i) => Some(i + 1),
            None => None,
        }
    }
}

/// What the scene lookup finds: the first scene with the id.
pub proof fn lemma_scene_table_index(ss: Seq<SceneV>, sid: SceneID)
    ensures
        match spec_scene_table_index(ss, sid) {
            Some(i) => 0 <= i < ss.len() && ss[i].id == sid,
            None => forall|i: int| 0 <= i < ss.len() ==> ss[i].id != sid,
        },
    decreases ss.len(),
{
    if ss.len() > 0 && ss[0].id != sid {
        lemma_scene_table_index(ss.drop_first(), sid);
        match spec_scene_table_index(ss.drop_first(), sid) {
            Some(i) => {
                assert(ss.drop_first()[i] == ss[i + 1]);
            },
            None => {
                assert forall|i: int| 0 <= i < ss.len() implies ss[i].id != sid by {
                    if i > 0 {
                        assert(ss.drop_first()[i - 1] == ss[i]);
                    }
                }
            },
        }
    }
}

/// Finds a scene by id in the scene table.
pub fn find_scene(ss: &Vec<Scene>, sid: SceneID) -> (r: Option<usize>)
    ensures
        match r {
            Some(i) => spec_scene_table_index(ss@.map_values(|s: Scene| s@), sid) == Some(i as int)
                && i < ss@.len(),
            None => spec_scene_table_index(ss@.map_values(|s: Scene| s@), sid) is None,
        },
{
    let ghost m = ss@.map_values(|s: Scene| s@);
    let mut i: usize = 0;
    proof {
        assert(m.skip(0) =~= m);
    }
    while i < ss.len()
        invariant
            i <= ss.len(),
            m == ss@.map_values(|s: Scene| s@),
            spec_scene_table_index(m, sid) == match spec_scene_table_index(m.skip(i as int), sid) {
                Some(k) => Some(k + i),
                None => None::<int>,
            },
        decreases ss.len() - i,
    {
        proof {
            assert(m.skip(i as int)[0] == m[i as int]);
        }
        if ss[i].id == sid {
            return Some(i);
        }
        proof {
            assert(m.skip(i as int).drop_first() =~= m.skip(i + 1));
        }
        i = i + 1;
    }
    proof {
        assert(m.skip(i as int).len() == 0);
    }
    None
}

/// The index of a map (by id) in the map table.
pub open spec fn spec_map_table_index(ms: Seq<GameMapV>, mid: MapID) -> Option<int>
    decreases ms.len(),
{
    if ms.len() == 0 {
        None
    } else if ms[0].id == mid {
        Some(0)
    } else {
        match spec_map_table_index(ms.drop_first(), mid) {
            Some(i) => Some(i + 1),
            None => None,
        }
    }
}

/// What the map lookup finds: the first map with the id.
pub proof fn lemma_map_table_index(ms: Seq<GameMapV>, mid: MapID)
    ensures
        match spec_map_table_index(ms, mid) {
            Some(i) => 0 <= i < ms.len() && ms[i].id == mid,
            None => forall|i: int| 0 <= i < ms.len() ==> ms[i].id != mid,
        },
    decreases ms.len(),
{
    if ms.len() > 0 && ms[0].id != mid {
        lemma_map_table_index(ms.drop_first(), mid);
        match spec_map_table_index(ms.drop_first(), mid) {
            Some(i) => {
                assert(ms.drop_first()[i] == ms[i + 1]);
            },
            None => {
                assert forall|i: int| 0 <= i < ms.len() implies ms[i].id != mid by {
                    if i > 0 {
                        assert(ms.drop_first()[i - 1] == ms[i]);
                    }
                }
            },
        }
    }
}

/// Finds a map by id in the map table.
pub fn find_map(ms: &Vec<GameMap>, mid: MapID) -> (r: Option<usize>)
    ensures
        match r {
            Some(i) => spec_map_table_index(ms@.map_values(|m: GameMap| m@), mid) == Some(i as int)
                && i < ms@.len(),
            None => spec_map_table_index(ms@.map_values(|m: GameMap| m@), mid) is None,
        },
{
    let ghost m = ms@.map_values(|x: GameMap| x@);
    let mut i: usize = 0;
    proof {
        assert(m.skip(0) =~= m);
    }
    while i < ms.len()
        invariant
            i <= ms.len(),
            m == ms@.map_values(|x: GameMap| x@),
            spec_map_table_index(m, mid) == match spec_map_table_index(m.skip(i as int), mid) {
                Some(k) => Some(k + i),
                None => None::<int>,
            },
        decreases ms.len() - i,
    {
        proof {
            assert(m.skip(i as int)[0] == m[i as int]);
        }
        if ms[i].id == mid {
            return Some(i);
        }
        proof {
            assert(m.skip(i as int).drop_first() =~= m.skip(i + 1));
        }
        i = i + 1;
    }
    proof {
        assert(m.skip(i as int).len() == 0);
    }
    None
}

/// The index of a named entry in an association list keyed by text, such
/// as the class catalog or the ability catalog.
pub open spec fn spec_named_index<T>(es: Seq<(Seq<char>, T)>, name: Seq<char>) -> Option<int>
    decreases es.len(),
{
    if es.len() == 0 {
        None
    } else if es[0].0 == name {
        Some(0)
    } else {
        match spec_named_index(es.drop_first(), name) {
            Some(i) => Some(i + 1),
            None => None,
        }
    }
}

/// What the named lookup finds: the first entry with the name.
pub proof fn lemma_named_index<T>(es: Seq<(Seq<char>, T)>, name: Seq<char>)
    ensures
        match spec_named_index(es, name) {
            Some(i) => 0 <= i < es.len() && es[i].0 == name,
            None => forall|i: int| 0 <= i < es.len() ==> es[i].0 != name,
        },
    decreases es.len(),
{
    if es.len() > 0 && es[0].0 != name {
        lemma_named_index(es.drop_first(), name);
        match spec_named_index(es.drop_first(), name) {
            Some(i) => {
                assert(es.drop_first()[i] == es[i + 1]);
            },
            None => {
                assert forall|i: int| 0 <= i < es.len() implies es[i].0 != name by {
                    if i > 0 {
                        assert(es.drop_first()[i - 1] == es[i]);
                    }
                }
            },
        }
    }
}

/// Finds a class by name in the class catalog.
pub fn find_class(cs: &Vec<(String, Class)>, name: &String) -> (r: Option<usize>)
    ensures
        match r {
            Some(i) => spec_named_index(
                cs@.map_values(|p: (String, Class)| (p.0@, p.1@)),
                name@,
            ) == Some(i as int) && i < cs@.len(),
            None => spec_named_index(
                cs@.map_values(|p: (String, Class)| (p.0@, p.1@)),
                name@,
            ) is None,
        },
{
    let ghost m = cs@.map_values(|p: (String, Class)| (p.0@, p.1@));
    let mut i: usize = 0;
    proof {
        assert(m.skip(0) =~= m);
    }
    while i < cs.len()
        invariant
            i <= cs.len(),
            m == cs@.map_values(|p: (String, Class)| (p.0@, p.1@)),
            spec_named_index(m, name@) == match spec_named_index(m.skip(i as int), name@) {
                Some(k) => Some(k + i),
                None => None::<int>,
            },
        decreases cs.len() - i,
    {
        proof {
            assert(m.skip(i as int)[0] == m[i as int]);
        }
        if cs[i].0 == *name {
            return Some(i);
        }
        proof {
            assert(m.skip(i as int).drop_first() =~= m.skip(i + 1));
        }
        i = i + 1;
    }
    proof {
        assert(m.skip(i as int).len() == 0);
    }
    None
}

/// Finds an ability by id in the ability catalog.
pub fn find_ability(abs: &Vec<(AbilityID, Ability)>, abid: &AbilityID) -> (r: Option<usize>)
    ensures
        match r {
            Some(i) => spec_named_index(
                abs@.map_values(|p: (AbilityID, Ability)| (p.0@, p.1@)),
                abid@,
            ) == Some(i as int) && i < abs@.len(),
            None => spec_named_index(
                abs@.map_values(|p: (AbilityID, Ability)| (p.0@, p.1@)),
                abid@,
            ) is None,
        },
{
    let ghost m = abs@.map_values(|p: (AbilityID, Ability)| (p.0@, p.1@));
    let mut i: usize = 0;
    proof {
        assert(m.skip(0) =~= m);
    }
    while i < abs.len()
        invariant
            i <= abs.len(),
            m == abs@.map_values(|p: (AbilityID, Ability)| (p.0@, p.1@)),
            spec_named_index(m, abid@) == match spec_named_index(m.skip(i as int), abid@) {
                Some(k) => Some(k + i),
                None => None::<int>,
            },
        decreases abs.len() - i,
    {
        proof {
            assert(m.skip(i as int)[0] == m[i as int]);
        }
        if abs[i].0 == *abid {
            return Some(i);
        }
        proof {
            assert(m.skip(i as int).drop_first() =~= m.skip(i + 1));
        }
        i = i + 1;
    }
    proof {
        assert(m.skip(i as int).len() == 0);
    }
    None
}

/// The index of a folder (by path) in the campaign tree.
pub open spec fn spec_folder_index(fs: Seq<(Seq<Seq<char>>, FolderV)>, path: Seq<Seq<char>>) -> Option<int>
    decreases fs.len(),
{
    if fs.len() == 0 {
        None
    } else if fs[0].0 == path {
        Some(0)
    } else {
        match spec_folder_index(fs.drop_first(), path) {
            Some(i) => Some(i + 1),
            None => None,
        }
    }
}

/// What the folder lookup finds: the first entry with the path.
pub proof fn lemma_folder_index(fs: Seq<(Seq<Seq<char>>, FolderV)>, path: Seq<Seq<char>>)
    ensures
        match spec_folder_index(fs, path) {
            Some(i) => 0 <= i < fs.len() && fs[i].0 == path,
            None => forall|i: int| 0 <= i < fs.len() ==> fs[i].0 != path,
        },
    decreases fs.len(),
{
    if fs.len() > 0 && fs[0].0 != path {
        lemma_folder_index(fs.drop_first(), path);
        match spec_folder_index(fs.drop_first(), path) {
            Some(i) => {
                assert(fs.drop_first()[i] == fs[i + 1]);
            },
            None => {
                assert forall|i: int| 0 <= i < fs.len() implies fs[i].0 != path by {
                    if i > 0 {
                        assert(fs.drop_first()[i - 1] == fs[i]);
                    }
                }
            },
        }
    }
}

/// Finds a folder by path in the campaign tree.
pub fn find_folder(fs: &Vec<(FolderPath, Folder)>, path: &FolderPath) -> (r: Option<usize>)
    ensures
        match r {
            Some(i) => spec_folder_index(
                fs@.map_values(|p: (FolderPath, Folder)| (p.0@, p.1@)),
                path@,
            ) == Some(i as int) && i < fs@.len(),
            None => spec_folder_index(
                fs@.map_values(|p: (FolderPath, Folder)| (p.0@, p.1@)),
                path@,
            ) is None,
        },
{
    let ghost m = fs@.map_values(|p: (FolderPath, Folder)| (p.0@, p.1@));
    let mut i: usize = 0;
    proof {
        assert(m.skip(0) =~= m);
    }
    while i < fs.len()
        invariant
            i <= fs.len(),
            m == fs@.map_values(|p: (FolderPath, Folder)| (p.0@, p.1@)),
            spec_folder_index(m, path@) == match spec_folder_index(m.skip(i as int), path@) {
                Some(k) => Some(k + i),
                None => None::<int>,
            },
        decreases fs.len() - i,
    {
        proof {
            assert(m.skip(i as int)[0] == m[i as int]);
        }
        if fs[i].0 == *path {
            return Some(i);
        }
        proof {
            assert(m.skip(i as int).drop_first() =~= m.skip(i + 1));
        }
        i = i + 1;
    }
    proof {
        assert(m.skip(i as int).len() == 0);
    }
    None
}

/// The index of a note (by name) in a folder's note list.
pub open spec fn spec_note_index(ns: Seq<NoteV>, name: Seq<char>) -> Option<int>
    decreases ns.len(),
{
    if ns.len() == 0 {
        None
    } else if ns[0].name == name {
        Some(0)
    } else {
        match spec_note_index(ns.drop_first(), name) {
            Some(i) => Some(i + 1),
            None => None,
        }
    }
}

/// What the note lookup finds: the first note with the name.
pub proof fn lemma_note_index(ns: Seq<NoteV>, name: Seq<char>)
    ensures
        match spec_note_index(ns, name) {
            Some(i) => 0 <= i < ns.len() && ns[i].name == name,
            None => forall|i: int| 0 <= i < ns.len() ==> ns[i].name != name,
        },
    decreases ns.len(),
{
    if ns.len() > 0 && ns[0].name != name {
        lemma_note_index(ns.drop_first(), name);
        match spec_note_index(ns.drop_first(), name) {
            Some(i) => {
                assert(ns.drop_first()[i] == ns[i + 1]);
            },
            None => {
                assert forall|i: int| 0 <= i < ns.len() implies ns[i].name != name by {
                    if i > 0 {
                        assert(ns.drop_first()[i - 1] == ns[i]);
                    }
                }
            },
        }
    }
}

/// Finds a note by name in a folder's note list.
pub fn find_note(ns: &Vec<Note>, name: &String) -> (r: Option<usize>)
    ensures
        match r {
            Some(i) => spec_note_index(ns@.map_values(|n: Note| n@), name@) == Some(i as int) && i
                < ns@.len(),
            None => spec_note_index(ns@.map_values(|n: Note| n@), name@) is None,
        },
{
    let ghost m = ns@.map_values(|n: Note| n@);
    let mut i: usize = 0;
    proof {
        assert(m.skip(0) =~= m);
    }
    while i < ns.len()
        invariant
            i <= ns.len(),
            m == ns@.map_values(|n: Note| n@),
            spec_note_index(m, name@) == match spec_note_index(m.skip(i as int), name@) {
                Some(k) => Some(k + i),
                None => None::<int>,
            },
        decreases ns.len() - i,
    {
        proof {
            assert(m.skip(i as int)[0] == m[i as int]);
        }
        if ns[i].name == *name {
            return Some(i);
        }
        proof {
            assert(m.skip(i as int).drop_first() =~= m.skip(i + 1));
        }
        i = i + 1;
    }
    proof {
        assert(m.skip(i as int).len() == 0);
    }
    None
}

} // verus!

verus! {

/// The index of an id in a plain id list.
pub open spec fn spec_elem_index<T>(s: Seq<T>, x: T) -> Option<int>
    decreases s.len(),
{
    if s.len() == 0 {
        None
    } else if s[0] == x {
        Some(0)
    } else {
        match spec_elem_index(s.drop_first(), x) {
            Some(i) => Some(i + 1),
            None => None,
        }
    }
}

/// What the id lookup finds: the first entry equal to the id.
pub proof fn lemma_elem_index<T>(s: Seq<T>, x: T)
    ensures
        match spec_elem_index(s, x) {
            Some(i) => 0 <= i < s.len() && s[i] == x,
            None => forall|i: int| 0 <= i < s.len() ==> s[i] != x,
        },
    decreases s.len(),
{
    if s.len() > 0 && s[0] != x {
        lemma_elem_index(s.drop_first(), x);
        match spec_elem_index(s.drop_first(), x) {
            Some(i) => {
                assert(s.drop_first()[i] == s[i + 1]);
            },
            None => {
                assert forall|i: int| 0 <= i < s.len() implies s[i] != x by {
                    if i > 0 {
                        assert(s.drop_first()[i - 1] == s[i]);
                    }
                }
            },
        }
    }
}

/// Finds a scene id in a plain id list.
pub fn find_sid(s: &Vec<SceneID>, x: SceneID) -> (r: Option<usize>)
    ensures
        match r {
            Some(i) => spec_elem_index(s@, x) == Some(i as int) && i < s@.len(),
            None => spec_elem_index(s@, x) is None,
        },
{
    let mut i: usize = 0;
    proof {
        assert(s@.skip(0) =~= s@);
    }
    while i < s.len()
        invariant
            i <= s.len(),
            spec_elem_index(s@, x) == match spec_elem_index(s@.skip(i as int), x) {
                Some(k) => Some(k + i),
                None => None::<int>,
            },
        decreases s.len() - i,
    {
        proof {
            assert(s@.skip(i as int)[0] == s@[i as int]);
        }
        if s[i] == x {
            return Some(i);
        }
        proof {
            assert(s@.skip(i as int).drop_first() =~= s@.skip(i + 1));
        }
        i = i + 1;
    }
    proof {
        assert(s@.skip(i as int).len() == 0);
    }
    None
}

/// Finds a map id in a plain id list.
pub fn find_mid(s: &Vec<MapID>, x: MapID) -> (r: Option<usize>)
    ensures
        match r {
            Some(i) => spec_elem_index(s@, x) == Some(i as int) && i < s@.len(),
            None => spec_elem_index(s@, x) is None,
        },
{
    let mut i: usize = 0;
    proof {
        assert(s@.skip(0) =~= s@);
    }
    while i < s.len()
        invariant
            i <= s.len(),
            spec_elem_index(s@, x) == match spec_elem_index(s@.skip(i as int), x) {
                Some(k) => Some(k + i),
                None => None::<int>,
            },
        decreases s.len() - i,
    {
        proof {
            assert(s@.skip(i as int)[0] == s@[i as int]);
        }
        if s[i] == x {
            return Some(i);
        }
        proof {
            assert(s@.skip(i as int).drop_first() =~= s@.skip(i + 1));
        }
        i = i + 1;
    }
    proof {
        assert(s@.skip(i as int).len() == 0);
    }
    None
}

/// Finds a creature id in a plain id list.
pub fn find_cid_list(s: &Vec<CreatureID>, x: CreatureID) -> (r: Option<usize>)
    ensures
        match r {
            Some(i) => spec_elem_index(s@, x) == Some(i as int) && i < s@.len(),
            None => spec_elem_index(s@, x) is None,
        },
{
    let mut i: usize = 0;
    proof {
        assert(s@.skip(0) =~= s@);
    }
    while i < s.len()
        invariant
            i <= s.len(),
            spec_elem_index(s@, x) == match spec_elem_index(s@.skip(i as int), x) {
                Some(k) => Some(k + i),
                None => None::<int>,
            },
        decreases s.len() - i,
    {
        proof {
            assert(s@.skip(i as int)[0] == s@[i as int]);
        }
        if s[i] == x {
            return Some(i);
        }
        proof {
            assert(s@.skip(i as int).drop_first() =~= s@.skip(i + 1));
        }
        i = i + 1;
    }
    proof {
        assert(s@.skip(i as int).len() == 0);
    }
    None
}

/// A scene with a creature's placement removed, if it was placed.
pub open spec fn spec_scrub_scene(s: SceneV, cid: CreatureID) -> SceneV {
    match crate::scene::spec_scene_index(s.creatures, cid) {
        Some(i) => SceneV { creatures: s.creatures.remove(i), ..s },
        None => s,
    }
}

/// A folder with a creature reference removed, if present.
pub open spec fn spec_scrub_folder_creature(f: FolderV, cid: CreatureID) -> FolderV {
    match spec_elem_index(f.creatures, cid) {
        Some(i) => FolderV { creatures: f.creatures.remove(i), ..f },
        None => f,
    }
}

/// A folder with a scene reference removed, if present.
pub open spec fn spec_scrub_folder_scene(f: FolderV, sid: SceneID) -> FolderV {
    match spec_elem_index(f.scenes, sid) {
        Some(i) => FolderV { scenes: f.scenes.remove(i), ..f },
        None => f,
    }
}

/// A folder with a map reference removed, if present.
pub open spec fn spec_scrub_folder_map(f: FolderV, mid: MapID) -> FolderV {
    match spec_elem_index(f.maps, mid) {
        Some(i) => FolderV { maps: f.maps.remove(i), ..f },
        None => f,
    }
}

/// Removes a creature's placement from every scene.
fn scrub_scenes(scenes: &mut Vec<Scene>, cid: CreatureID)
    ensures
        final(scenes)@.map_values(|s: Scene| s@) == old(scenes)@.map_values(|s: Scene| s@)
            .map_values(|s: SceneV| spec_scrub_scene(s, cid)),
{
    let ghost m0 = scenes@.map_values(|s: Scene| s@);
    let mut i: usize = 0;
    while i < scenes.len()
        invariant
            i <= scenes.len(),
            scenes@.len() == m0.len(),
            m0 == old(scenes)@.map_values(|s: Scene| s@),
            forall|j: int| 0 <= j < i ==> (#[trigger] scenes@[j])@ == spec_scrub_scene(m0[j], cid),
            forall|j: int| i <= j < m0.len() ==> (#[trigger] scenes@[j])@ == m0[j],
        decreases scenes.len() - i,
    {
        match scenes[i].find_creature_index(cid) {
            Some(k) => {
                proof {
                    crate::scene::lemma_scene_index(scenes@[i as int]@.creatures, cid);
                }
                let mut s = scenes.remove(i);
                s.creatures.remove(k);
                scenes.insert(i, s);
            },
            None => {},
        }
        i = i + 1;
    }
    proof {
        assert(scenes@.map_values(|s: Scene| s@) =~= m0.map_values(
            |s: SceneV| spec_scrub_scene(s, cid),
        ));
    }
}

/// Removes a creature reference from every campaign folder.
fn scrub_folders_creature(campaign: &mut Vec<(FolderPath, Folder)>, cid: CreatureID)
    ensures
        final(campaign)@.map_values(|p: (FolderPath, Folder)| (p.0@, p.1@)) == old(campaign)@
            .map_values(|p: (FolderPath, Folder)| (p.0@, p.1@)).map_values(
            |e: (Seq<Seq<char>>, FolderV)| (e.0, spec_scrub_folder_creature(e.1, cid)),
        ),
{
    let ghost m0 = campaign@.map_values(|p: (FolderPath, Folder)| (p.0@, p.1@));
    let mut i: usize = 0;
    while i < campaign.len()
        invariant
            i <= campaign.len(),
            campaign@.len() == m0.len(),
            m0 == old(campaign)@.map_values(|p: (FolderPath, Folder)| (p.0@, p.1@)),
            forall|j: int| 0 <= j < i ==> (#[trigger] campaign@[j]).0@ == m0[j].0 && campaign@[j].1@
                == spec_scrub_folder_creature(m0[j].1, cid),
            forall|j: int| i <= j < m0.len() ==> (#[trigger] campaign@[j]).0@ == m0[j].0
                && campaign@[j].1@ == m0[j].1,
        decreases campaign.len() - i,
    {
        match find_cid_list(&campaign[i].1.creatures, cid) {
            Some(k) => {
                let mut e = campaign.remove(i);
                e.1.creatures.remove(k);
                campaign.insert(i, e);
            },
            None => {},
        }
        i = i + 1;
    }
    proof {
        assert(campaign@.map_values(|p: (FolderPath, Folder)| (p.0@, p.1@)) =~= m0.map_values(
            |e: (Seq<Seq<char>>, FolderV)| (e.0, spec_scrub_folder_creature(e.1, cid)),
        ));
    }
}

/// Removes a scene reference from every campaign folder.
fn scrub_folders_scene(campaign: &mut Vec<(FolderPath, Folder)>, sid: SceneID)
    ensures
        final(campaign)@.map_values(|p: (FolderPath, Folder)| (p.0@, p.1@)) == old(campaign)@
            .map_values(|p: (FolderPath, Folder)| (p.0@, p.1@)).map_values(
            |e: (Seq<Seq<char>>, FolderV)| (e.0, spec_scrub_folder_scene(e.1, sid)),
        ),
{
    let ghost m0 = campaign@.map_values(|p: (FolderPath, Folder)| (p.0@, p.1@));
    let mut i: usize = 0;
    while i < campaign.len()
        invariant
            i <= campaign.len(),
            campaign@.len() == m0.len(),
            m0 == old(campaign)@.map_values(|p: (FolderPath, Folder)| (p.0@, p.1@)),
            forall|j: int| 0 <= j < i ==> (#[trigger] campaign@[j]).0@ == m0[j].0 && campaign@[j].1@
                == spec_scrub_folder_scene(m0[j].1, sid),
            forall|j: int| i <= j < m0.len() ==> (#[trigger] campaign@[j]).0@ == m0[j].0
                && campaign@[j].1@ == m0[j].1,
        decreases campaign.len() - i,
    {
        match find_sid(&campaign[i].1.scenes, sid) {
            Some(k) => {
                let mut e = campaign.remove(i);
                e.1.scenes.remove(k);
                campaign.insert(i, e);
            },
            None => {},
        }
        i = i + 1;
    }
    proof {
        assert(campaign@.map_values(|p: (FolderPath, Folder)| (p.0@, p.1@)) =~= m0.map_values(
            |e: (Seq<Seq<char>>, FolderV)| (e.0, spec_scrub_folder_scene(e.1, sid)),
        ));
    }
}

/// Removes a map reference from every campaign folder.
fn scrub_folders_map(campaign: &mut Vec<(FolderPath, Folder)>, mid: MapID)
    ensures
        final(campaign)@.map_values(|p: (FolderPath, Folder)| (p.0@, p.1@)) == old(campaign)@
            .map_values(|p: (FolderPath, Folder)| (p.0@, p.1@)).map_values(
            |e: (Seq<Seq<char>>, FolderV)| (e.0, spec_scrub_folder_map(e.1, mid)),
        ),
{
    let ghost m0 = campaign@.map_values(|p: (FolderPath, Folder)| (p.0@, p.1@));
    let mut i: usize = 0;
    while i < campaign.len()
        invariant
            i <= campaign.len(),
            campaign@.len() == m0.len(),
            m0 == old(campaign)@.map_values(|p: (FolderPath, Folder)| (p.0@, p.1@)),
            forall|j: int| 0 <= j < i ==> (#[trigger] campaign@[j]).0@ == m0[j].0 && campaign@[j].1@
                == spec_scrub_folder_map(m0[j].1, mid),
            forall|j: int| i <= j < m0.len() ==> (#[trigger] campaign@[j]).0@ == m0[j].0
                && campaign@[j].1@ == m0[j].1,
        decreases campaign.len() - i,
    {
        match find_mid(&campaign[i].1.maps, mid) {
            Some(k) => {
                let mut e = campaign.remove(i);
                e.1.maps.remove(k);
                campaign.insert(i, e);
            },
            None => {},
        }
        i = i + 1;
    }
    proof {
        assert(campaign@.map_values(|p: (FolderPath, Folder)| (p.0@, p.1@)) =~= m0.map_values(
            |e: (Seq<Seq<char>>, FolderV)| (e.0, spec_scrub_folder_map(e.1, mid)),
        ));
    }
}

/// Whether `prefix` is a (not necessarily proper) prefix of `path`.
pub open spec fn spec_path_prefix(prefix: Seq<Seq<char>>, path: Seq<Seq<char>>) -> bool {
    prefix.len() <= path.len() && path.take(prefix.len() as int) == prefix
}

/// An entry re-rooted from `oldp` to `newp` when it sits under `oldp`.
pub open spec fn spec_repath_entry(
    e: (Seq<Seq<char>>, FolderV),
    oldp: Seq<Seq<char>>,
    newp: Seq<Seq<char>>,
) -> (Seq<Seq<char>>, FolderV) {
    if spec_path_prefix(oldp, e.0) {
        (newp + e.0.skip(oldp.len() as int), e.1)
    } else {
        e
    }
}

/// Whether `prefix` is a prefix of `path`.
fn is_path_prefix(prefix: &FolderPath, path: &FolderPath) -> (r: bool)
    ensures
        r == spec_path_prefix(prefix@, path@),
{
    if prefix.0.len() > path.0.len() {
        proof {
            assert(prefix@.len() == prefix.0@.len());
            assert(path@.len() == path.0@.len());
        }
        return false;
    }
    let mut i: usize = 0;
    while i < prefix.0.len()
        invariant
            i <= prefix.0.len(),
            prefix.0.len() <= path.0.len(),
            forall|j: int| 0 <= j < i ==> path@[j] == prefix@[j],
        decreases prefix.0.len() - i,
    {
        if path.0[i] != prefix.0[i] {
            proof {
                assert(path@[i as int] == path.0@[i as int]@);
                assert(prefix@[i as int] == prefix.0@[i as int]@);
                assert(path@.take(prefix@.len() as int)[i as int] == path@[i as int]);
            }
            return false;
        }
        proof {
            assert(path@[i as int] == path.0@[i as int]@);
            assert(prefix@[i as int] == prefix.0@[i as int]@);
        }
        i = i + 1;
    }
    proof {
        assert(path@.take(prefix@.len() as int) =~= prefix@);
    }
    true
}

/// Re-roots every campaign entry under `oldp` to sit under `newp`.
fn repath_campaign(campaign: &mut Vec<(FolderPath, Folder)>, oldp: &FolderPath, newp: &FolderPath)
    ensures
        final(campaign)@.map_values(|p: (FolderPath, Folder)| (p.0@, p.1@)) == old(campaign)@
            .map_values(|p: (FolderPath, Folder)| (p.0@, p.1@)).map_values(
            |e: (Seq<Seq<char>>, FolderV)| spec_repath_entry(e, oldp@, newp@),
        ),
{
    let ghost m0 = campaign@.map_values(|p: (FolderPath, Folder)| (p.0@, p.1@));
    let mut i: usize = 0;
    while i < campaign.len()
        invariant
            i <= campaign.len(),
            campaign@.len() == m0.len(),
            m0 == old(campaign)@.map_values(|p: (FolderPath, Folder)| (p.0@, p.1@)),
            forall|j: int| 0 <= j < i ==> ((#[trigger] campaign@[j]).0@, campaign@[j].1@)
                == spec_repath_entry(m0[j], oldp@, newp@),
            forall|j: int| i <= j < m0.len() ==> (#[trigger] campaign@[j]).0@ == m0[j].0
                && campaign@[j].1@ == m0[j].1,
        decreases campaign.len() - i,
    {
        if is_path_prefix(oldp, &campaign[i].0) {
            let mut e = campaign.remove(i);
            let mut fresh = newp.dup();
            let mut k: usize = oldp.0.len();
            while k < e.0.0.len()
                invariant
                    oldp.0.len() <= k <= e.0.0.len(),
                    fresh@ == newp@ + e.0@.subrange(oldp.0@.len() as int, k as int),
                decreases e.0.0.len() - k,
            {
                proof {
                    assert(e.0@[k as int] == e.0.0@[k as int]@);
                    assert(newp@ + e.0@.subrange(oldp.0@.len() as int, k + 1) =~= (newp@
                        + e.0@.subrange(oldp.0@.len() as int, k as int)).push(e.0@[k as int]));
                }
                fresh.0.push(e.0.0[k].clone());
                proof {
                    assert(fresh@ =~= newp@ + e.0@.subrange(oldp.0@.len() as int, k + 1));
                }
                k = k + 1;
            }
            proof {
                assert(e.0@.subrange(oldp.0@.len() as int, e.0@.len() as int) =~= e.0@.skip(
                    oldp@.len() as int,
                ));
            }
            e.0 = fresh;
            campaign.insert(i, e);
        }
        i = i + 1;
    }
    proof {
        assert(campaign@.map_values(|p: (FolderPath, Folder)| (p.0@, p.1@)) =~= m0.map_values(
            |e: (Seq<Seq<char>>, FolderV)| spec_repath_entry(e, oldp@, newp@),
        ));
    }
}

/// Whether the campaign holds a proper descendant of `path`.
pub open spec fn spec_has_child(fs: Seq<(Seq<Seq<char>>, FolderV)>, path: Seq<Seq<char>>) -> bool {
    exists|i: int| 0 <= i < fs.len() && spec_path_prefix(path, (#[trigger] fs[i]).0) && fs[i].0.len()
        > path.len()
}

/// Whether the campaign holds a proper descendant of `path`.
fn has_child(campaign: &Vec<(FolderPath, Folder)>, path: &FolderPath) -> (r: bool)
    ensures
        r == spec_has_child(campaign@.map_values(|p: (FolderPath, Folder)| (p.0@, p.1@)), path@),
{
    let ghost m = campaign@.map_values(|p: (FolderPath, Folder)| (p.0@, p.1@));
    let mut i: usize = 0;
    while i < campaign.len()
        invariant
            i <= campaign.len(),
            m == campaign@.map_values(|p: (FolderPath, Folder)| (p.0@, p.1@)),
            forall|j: int| 0 <= j < i ==> !(spec_path_prefix(path@, (#[trigger] m[j]).0) && m[j].0.len()
                > path@.len()),
        decreases campaign.len() - i,
    {
        if is_path_prefix(path, &campaign[i].0) && campaign[i].0.0.len() > path.0.len() {
            proof {
                assert(m[i as int].0 == campaign@[i as int].0@);
                assert(m[i as int].0.len() == campaign@[i as int].0.0@.len());
                assert(path@.len() == path.0@.len());
            }
            return true;
        }
        proof {
            assert(m[i as int].0 == campaign@[i as int].0@);
            assert(m[i as int].0.len() == campaign@[i as int].0.0@.len());
            assert(path@.len() == path.0@.len());
        }
        i = i + 1;
    }
    false
}

} // verus!

verus! {

/// The scene ids of every scene bound to the given map, in table order.
pub open spec fn spec_scenes_using_map(ss: Seq<SceneV>, mid: MapID) -> Seq<SceneID>
    decreases ss.len(),
{
    if ss.len() == 0 {
        Seq::empty()
    } else {
        spec_scenes_using_map(ss.drop_last(), mid) + if ss.last().map == mid {
            seq![ss.last().id]
        } else {
            Seq::empty()
        }
    }
}

/// Collects the scenes bound to a map.
fn scenes_using_map(ss: &Vec<Scene>, mid: MapID) -> (r: Vec<SceneID>)
    ensures
        r@ == spec_scenes_using_map(ss@.map_values(|s: Scene| s@), mid),
{
    let ghost m = ss@.map_values(|s: Scene| s@);
    let mut out: Vec<SceneID> = Vec::new();
    let mut i: usize = 0;
    proof {
        assert(m.take(0) =~= Seq::<SceneV>::empty());
        assert(out@ =~= spec_scenes_using_map(m.take(0), mid));
    }
    while i < ss.len()
        invariant
            i <= ss.len(),
            m == ss@.map_values(|s: Scene| s@),
            out@ == spec_scenes_using_map(m.take(i as int), mid),
        decreases ss.len() - i,
    {
        proof {
            assert(m.take(i + 1).drop_last() =~= m.take(i as int));
            assert(m.take(i + 1).last() == m[i as int]);
        }
        if ss[i].map == mid {
            out.push(ss[i].id);
            proof {
                assert(out@ =~= spec_scenes_using_map(m.take(i as int), mid).push(
                    m[i as int].id,
                ));
                assert(spec_scenes_using_map(m.take(i + 1), mid) =~= spec_scenes_using_map(
                    m.take(i as int),
                    mid,
                ).push(m[i as int].id));
            }
        } else {
            proof {
                assert(spec_scenes_using_map(m.take(i + 1), mid) =~= spec_scenes_using_map(
                    m.take(i as int),
                    mid,
                ));
            }
        }
        i = i + 1;
    }
    proof {
        assert(m.take(m.len() as int) =~= m);
    }
    out
}

/// Updating an entry's folder contents, keeping its path, does not change
/// where any path is found.
pub proof fn lemma_folder_index_update_same_path(
    fs: Seq<(Seq<Seq<char>>, FolderV)>,
    i: int,
    f2: FolderV,
    path: Seq<Seq<char>>,
)
    requires
        0 <= i < fs.len(),
    ensures
        spec_folder_index(fs.update(i, (fs[i].0, f2)), path) == spec_folder_index(fs, path),
    decreases fs.len(),
{
    let fs2 = fs.update(i, (fs[i].0, f2));
    assert(fs2[0].0 == fs[0].0);
    if i == 0 {
        assert(fs2.drop_first() =~= fs.drop_first());
    } else {
        assert(fs2.drop_first() =~= fs.drop_first().update(i - 1, (fs.drop_first()[i - 1].0, f2)));
        lemma_folder_index_update_same_path(fs.drop_first(), i - 1, f2, path);
    }
}

/// Moving an item between two folders: the item leaves the source folder
/// and joins the destination folder; a subfolder is re-rooted with its
/// whole subtree.
pub open spec fn spec_move_item(
    g: GameV,
    from: Seq<Seq<char>>,
    item: FolderItemIDV,
    to: Seq<Seq<char>>,
) -> Result<GameV, GameErrorV> {
    match spec_folder_index(g.campaign, from) {
        None => Err(GameErrorV::FolderNotFound(from)),
        Some(fi) => match spec_folder_index(g.campaign, to) {
            None => Err(GameErrorV::FolderNotFound(to)),
            Some(_ti) => match item {
                FolderItemIDV::SceneID(sid) => match spec_elem_index(
                    g.campaign[fi].1.scenes,
                    sid,
                ) {
                    None => Err(GameErrorV::SceneNotFound(sid)),
                    Some(k) => {
                        let c1 = g.campaign.update(
                            fi,
                            (
                                from,
                                FolderV { scenes: g.campaign[fi].1.scenes.remove(k), ..g.campaign[fi].1 },
                            ),
                        );
                        let ti = spec_folder_index(c1, to)->Some_0;
                        Ok(
                            GameV {
                                campaign: c1.update(
                                    ti,
                                    (to, FolderV { scenes: c1[ti].1.scenes.push(sid), ..c1[ti].1 }),
                                ),
                                ..g
                            },
                        )
                    },
                },
                FolderItemIDV::MapID(mid) => match spec_elem_index(g.campaign[fi].1.maps, mid) {
                    None => Err(GameErrorV::MapNotFound(mid)),
                    Some(k) => {
                        let c1 = g.campaign.update(
                            fi,
                            (
                                from,
                                FolderV { maps: g.campaign[fi].1.maps.remove(k), ..g.campaign[fi].1 },
                            ),
                        );
                        let ti = spec_folder_index(c1, to)->Some_0;
                        Ok(
                            GameV {
                                campaign: c1.update(
                                    ti,
                                    (to, FolderV { maps: c1[ti].1.maps.push(mid), ..c1[ti].1 }),
                                ),
                                ..g
                            },
                        )
                    },
                },
                FolderItemIDV::CreatureID(cid) => match spec_elem_index(
                    g.campaign[fi].1.creatures,
                    cid,
                ) {
                    None => Err(GameErrorV::CreatureNotFound(crate::ids::uuid_text(cid.0))),
                    Some(k) => {
                        let c1 = g.campaign.update(
                            fi,
                            (
                                from,
                                FolderV {
                                    creatures: g.campaign[fi].1.creatures.remove(k),
                                    ..g.campaign[fi].1
                                },
                            ),
                        );
                        let ti = spec_folder_index(c1, to)->Some_0;
                        Ok(
                            GameV {
                                campaign: c1.update(
                                    ti,
                                    (
                                        to,
                                        FolderV { creatures: c1[ti].1.creatures.push(cid), ..c1[ti].1 },
                                    ),
                                ),
                                ..g
                            },
                        )
                    },
                },
                FolderItemIDV::NoteID(name) => match spec_note_index(
                    g.campaign[fi].1.notes,
                    name,
                ) {
                    None => Err(GameErrorV::NoteNotFound(from, name)),
                    Some(k) => {
                        let note = g.campaign[fi].1.notes[k];
                        let c1 = g.campaign.update(
                            fi,
                            (
                                from,
                                FolderV { notes: g.campaign[fi].1.notes.remove(k), ..g.campaign[fi].1 },
                            ),
                        );
                        let ti = spec_folder_index(c1, to)->Some_0;
                        Ok(
                            GameV {
                                campaign: c1.update(
                                    ti,
                                    (to, FolderV { notes: c1[ti].1.notes.push(note), ..c1[ti].1 }),
                                ),
                                ..g
                            },
                        )
                    },
                },
                FolderItemIDV::SubfolderID(name) => {
                    let oldp = from.push(name);
                    let newp = to.push(name);
                    if spec_folder_index(g.campaign, oldp) is None {
                        Err(GameErrorV::FolderNotFound(oldp))
                    } else if spec_folder_index(g.campaign, newp) is Some {
                        Err(GameErrorV::FolderAlreadyExists(newp))
                    } else {
                        Ok(
                            GameV {
                                campaign: g.campaign.map_values(
                                    |e: (Seq<Seq<char>>, FolderV)| spec_repath_entry(e, oldp, newp),
                                ),
                                ..g
                            },
                        )
                    }
                },
            },
        },
    }
}

/// How one game log folds into the game: the single-step replay function.
///
/// Check results and rollback markers leave the state unchanged; every
/// other entry makes exactly the change it records. Folder bookkeeping
/// fails on dangling paths; table edits fail on unknown or duplicate ids.
pub open spec fn spec_apply_log(g: GameV, l: GameLogV) -> Result<GameV, GameErrorV> {
    match l {
        GameLogV::SimpleAttributeCheckResult(_cid, _a, _lvl, _ok) => Ok(g),
        GameLogV::RandomAttributeCheckResult(_cid, _a, _lvl, _d, _ok) => Ok(g),
        GameLogV::Rollback(_s, _l) => Ok(g),
        GameLogV::CreateFolder(p) => if spec_folder_index(g.campaign, p) is Some {
            Err(GameErrorV::FolderAlreadyExists(p))
        } else if p.len() > 0 && spec_folder_index(g.campaign, p.drop_last()) is None {
            Err(GameErrorV::FolderNotFound(p.drop_last()))
        } else {
            Ok(
                GameV {
                    campaign: g.campaign.push(
                        (
                            p,
                            FolderV {
                                scenes: Seq::empty(),
                                creatures: Seq::empty(),
                                notes: Seq::empty(),
                                maps: Seq::empty(),
                            },
                        ),
                    ),
                    ..g
                },
            )
        },
        GameLogV::RenameFolder(p, newname) => if p.len() == 0 {
            Err(GameErrorV::BuggyProgram("the root folder cannot be renamed"@))
        } else if spec_folder_index(g.campaign, p) is None {
            Err(GameErrorV::FolderNotFound(p))
        } else if spec_folder_index(g.campaign, p.drop_last().push(newname)) is Some {
            Err(GameErrorV::FolderAlreadyExists(p.drop_last().push(newname)))
        } else {
            Ok(
                GameV {
                    campaign: g.campaign.map_values(
                        |e: (Seq<Seq<char>>, FolderV)| spec_repath_entry(
                            e,
                            p,
                            p.drop_last().push(newname),
                        ),
                    ),
                    ..g
                },
            )
        },
        GameLogV::DeleteFolder(p) => if p.len() == 0 {
            Err(GameErrorV::BuggyProgram("the root folder cannot be deleted"@))
        } else {
            match spec_folder_index(g.campaign, p) {
                None => Err(GameErrorV::FolderNotFound(p)),
                Some(i) => if !g.campaign[i].1.is_empty() || spec_has_child(g.campaign, p) {
                    Err(GameErrorV::FolderNotEmpty(p))
                } else {
                    Ok(GameV { campaign: g.campaign.remove(i), ..g })
                },
            }
        },
        GameLogV::MoveFolderItem(from, item, to) => spec_move_item(g, from, item, to),
        GameLogV::CreateNote(p, n) => match spec_folder_index(g.campaign, p) {
            None => Err(GameErrorV::FolderNotFound(p)),
            Some(i) => {
                let f = g.campaign[i].1;
                let f2 = match spec_note_index(f.notes, n.name) {
                    Some(k) => FolderV { notes: f.notes.update(k, n), ..f },
                    None => FolderV { notes: f.notes.push(n), ..f },
                };
                Ok(GameV { campaign: g.campaign.update(i, (p, f2)), ..g })
            },
        },
        GameLogV::EditNote(p, name, n) => match spec_folder_index(g.campaign, p) {
            None => Err(GameErrorV::FolderNotFound(p)),
            Some(i) => {
                let f = g.campaign[i].1;
                match spec_note_index(f.notes, name) {
                    None => Err(GameErrorV::NoteNotFound(p, name)),
                    Some(k) => Ok(
                        GameV {
                            campaign: g.campaign.update(
                                i,
                                (p, FolderV { notes: f.notes.update(k, n), ..f }),
                            ),
                            ..g
                        },
                    ),
                }
            },
        },
        GameLogV::DeleteNote(p, name) => match spec_folder_index(g.campaign, p) {
            None => Err(GameErrorV::FolderNotFound(p)),
            Some(i) => {
                let f = g.campaign[i].1;
                match spec_note_index(f.notes, name) {
                    None => Err(GameErrorV::NoteNotFound(p, name)),
                    Some(k) => Ok(
                        GameV {
                            campaign: g.campaign.update(
                                i,
                                (p, FolderV { notes: f.notes.remove(k), ..f }),
                            ),
                            ..g
                        },
                    ),
                }
            },
        },
        GameLogV::CreateScene(p, s) => match spec_folder_index(g.campaign, p) {
            None => Err(GameErrorV::FolderNotFound(p)),
            Some(i) => if spec_scene_table_index(g.scenes, s.id) is Some {
                Err(GameErrorV::SceneAlreadyExists(s.id))
            } else {
                let f = g.campaign[i].1;
                Ok(
                    GameV {
                        scenes: g.scenes.push(s),
                        campaign: g.campaign.update(
                            i,
                            (p, FolderV { scenes: f.scenes.push(s.id), ..f }),
                        ),
                        ..g
                    },
                )
            },
        },
        GameLogV::EditScene(s) => match spec_scene_table_index(g.scenes, s.id) {
            None => Err(GameErrorV::SceneNotFound(s.id)),
            Some(i) => Ok(GameV { scenes: g.scenes.update(i, s), ..g }),
        },
        GameLogV::DeleteScene(sid) => match spec_scene_table_index(g.scenes, sid) {
            None => Err(GameErrorV::SceneNotFound(sid)),
            Some(i) => if match g.current_combat {
                Some(c) => c.scene == sid,
                None => false,
            } {
                Err(GameErrorV::SceneInUse(sid))
            } else {
                Ok(
                    GameV {
                        scenes: g.scenes.remove(i),
                        campaign: g.campaign.map_values(
                            |e: (Seq<Seq<char>>, FolderV)| (
                                e.0,
                                spec_scrub_folder_scene(e.1, sid),
                            ),
                        ),
                        ..g
                    },
                )
            },
        },
        GameLogV::CreateMap(p, m) => match spec_folder_index(g.campaign, p) {
            None => Err(GameErrorV::FolderNotFound(p)),
            Some(i) => if spec_map_table_index(g.maps, m.id) is Some {
                Err(GameErrorV::MapAlreadyExists(m.id))
            } else {
                let f = g.campaign[i].1;
                Ok(
                    GameV {
                        maps: g.maps.push(m),
                        campaign: g.campaign.update(
                            i,
                            (p, FolderV { maps: f.maps.push(m.id), ..f }),
                        ),
                        ..g
                    },
                )
            },
        },
        GameLogV::EditMap(m) => match spec_map_table_index(g.maps, m.id) {
            None => Err(GameErrorV::MapNotFound(m.id)),
            Some(i) => Ok(GameV { maps: g.maps.update(i, m), ..g }),
        },
        GameLogV::DeleteMap(mid) => match spec_map_table_index(g.maps, mid) {
            None => Err(GameErrorV::MapNotFound(mid)),
            Some(i) => if spec_scenes_using_map(g.scenes, mid).len() > 0 {
                Err(GameErrorV::MapInUse(mid, spec_scenes_using_map(g.scenes, mid)))
            } else {
                Ok(
                    GameV {
                        maps: g.maps.remove(i),
                        campaign: g.campaign.map_values(
                            |e: (Seq<Seq<char>>, FolderV)| (e.0, spec_scrub_folder_map(e.1, mid)),
                        ),
                        ..g
                    },
                )
            },
        },
        GameLogV::CombatLog(cl) => match g.current_combat {
            None => Err(GameErrorV::NotInCombat),
            Some(c) => match spec_apply_combat_log(c, cl) {
                Ok(c2) => Ok(GameV { current_combat: Some(c2), ..g }),
                Err(e) => Err(e),
            },
        },
        GameLogV::CreatureLog(cid, cl) => match spec_creature_index(g.creatures, cid) {
            None => Err(GameErrorV::CreatureNotFound(crate::ids::uuid_text(cid.0))),
            Some(i) => match spec_apply_creature_log(g.creatures[i], cl) {
                Ok(c2) => Ok(GameV { creatures: g.creatures.update(i, c2), ..g }),
                Err(e) => Err(e),
            },
        },
        GameLogV::SetCreaturePos(sid, cid, pt) => match spec_scene_table_index(g.scenes, sid) {
            None => Err(GameErrorV::SceneNotFound(sid)),
            Some(i) => {
                let s = g.scenes[i];
                match crate::scene::spec_scene_index(s.creatures, cid) {
                    None => Err(GameErrorV::CreatureNotFound(crate::ids::uuid_text(cid.0))),
                    Some(k) => Ok(
                        GameV {
                            scenes: g.scenes.update(
                                i,
                                SceneV {
                                    creatures: s.creatures.update(k, (cid, (pt, s.creatures[k].1.1))),
                                    ..s
                                },
                            ),
                            ..g
                        },
                    ),
                }
            },
        },
        GameLogV::PathCreature(sid, cid, pts) => match spec_scene_table_index(g.scenes, sid) {
            None => Err(GameErrorV::SceneNotFound(sid)),
            Some(i) => if pts.len() == 0 {
                Err(GameErrorV::BuggyProgram("a path must hold at least one point"@))
            } else {
                let s = g.scenes[i];
                match crate::scene::spec_scene_index(s.creatures, cid) {
                    None => Err(GameErrorV::CreatureNotFound(crate::ids::uuid_text(cid.0))),
                    Some(k) => Ok(
                        GameV {
                            scenes: g.scenes.update(
                                i,
                                SceneV {
                                    creatures: s.creatures.update(
                                        k,
                                        (cid, (pts.last(), s.creatures[k].1.1)),
                                    ),
                                    ..s
                                },
                            ),
                            ..g
                        },
                    ),
                }
            },
        },
        GameLogV::StartCombat(sid, cids) => if cids.len() == 0 {
            Err(GameErrorV::CombatMustHaveCreatures)
        } else {
            Ok(
                GameV {
                    current_combat: Some(
                        CombatV {
                            scene: sid,
                            creatures: cids,
                            cursor: 0,
                            movement_used: crate::types::Distance(0),
                        },
                    ),
                    ..g
                },
            )
        },
        GameLogV::StopCombat => match g.current_combat {
            None => Err(GameErrorV::NotInCombat),
            Some(_) => Ok(GameV { current_combat: None, ..g }),
        },
        GameLogV::AddCreatureToCombat(cid) => match g.current_combat {
            None => Err(GameErrorV::NotInCombat),
            Some(c) => if spec_cid_index(c.creatures, cid) is Some {
                Err(GameErrorV::AlreadyInCombat(cid))
            } else {
                Ok(
                    GameV {
                        current_combat: Some(CombatV { creatures: c.creatures.push(cid), ..c }),
                        ..g
                    },
                )
            },
        },
        GameLogV::RemoveCreatureFromCombat(cid) => match g.current_combat {
            None => Err(GameErrorV::NotInCombat),
            Some(c) => match spec_cid_index(c.creatures, cid) {
                None => Err(GameErrorV::CreatureNotFound(crate::ids::uuid_text(cid.0))),
                Some(i) => {
                    let cs2 = c.creatures.remove(i);
                    if cs2.len() == 0 {
                        Ok(GameV { current_combat: None, ..g })
                    } else {
                        let cur2: usize = if i < c.cursor {
                            (c.cursor - 1) as usize
                        } else if (c.cursor as int) < cs2.len() {
                            c.cursor
                        } else {
                            0
                        };
                        Ok(
                            GameV {
                                current_combat: Some(
                                    CombatV { creatures: cs2, cursor: cur2, ..c },
                                ),
                                ..g
                            },
                        )
                    }
                },
            },
        },
        GameLogV::CreateCreature(p, c) => match spec_folder_index(g.campaign, p) {
            None => Err(GameErrorV::FolderNotFound(p)),
            Some(i) => if spec_creature_index(g.creatures, c.id) is Some {
                Err(GameErrorV::CreatureAlreadyExists(c.id))
            } else {
                let f = g.campaign[i].1;
                Ok(
                    GameV {
                        creatures: g.creatures.push(c),
                        campaign: g.campaign.update(
                            i,
                            (p, FolderV { creatures: f.creatures.push(c.id), ..f }),
                        ),
                        ..g
                    },
                )
            },
        },
        GameLogV::EditCreature(c) => match spec_creature_index(g.creatures, c.id) {
            None => Err(GameErrorV::CreatureNotFound(crate::ids::uuid_text(c.id.0))),
            Some(i) => Ok(GameV { creatures: g.creatures.update(i, c), ..g }),
        },
        GameLogV::DeleteCreature(cid) => match spec_creature_index(g.creatures, cid) {
            None => Err(GameErrorV::CreatureNotFound(crate::ids::uuid_text(cid.0))),
            Some(i) => Ok(
                GameV {
                    creatures: g.creatures.remove(i),
                    scenes: g.scenes.map_values(|s: SceneV| spec_scrub_scene(s, cid)),
                    campaign: g.campaign.map_values(
                        |e: (Seq<Seq<char>>, FolderV)| (
                            e.0,
                            spec_scrub_folder_creature(e.1, cid),
                        ),
                    ),
                    ..g
                },
            ),
        },
    }
}

/// Folding a sequence of game logs, in order, over a game.
pub open spec fn spec_apply_logs(g: GameV, ls: Seq<GameLogV>) -> Result<GameV, GameErrorV>
    decreases ls.len(),
{
    if ls.len() == 0 {
        Ok(g)
    } else {
        match spec_apply_log(g, ls[0]) {
            Ok(g2) => spec_apply_logs(g2, ls.drop_first()),
            Err(e) => Err(e),
        }
    }
}

} // verus!

verus! {

impl Game {
    /// Applies one log entry to the game: the single-step replay function.
    /// The result is exactly [`spec_apply_log`] of the models.
    pub fn apply_log(self, l: &GameLog) -> (r: Result<Game, GameError>)
        ensures
            match r {
                Ok(g2) => spec_apply_log(self@, l@) == Ok::<GameV, GameErrorV>(g2@),
                Err(e) => spec_apply_log(self@, l@) == Err::<GameV, GameErrorV>(e@),
            },
    {
        match l {
            GameLog::SimpleAttributeCheckResult(_, _, _, _) => Ok(self),
            GameLog::RandomAttributeCheckResult(_, _, _, _, _) => Ok(self),
            GameLog::Rollback(_, _) => Ok(self),
            GameLog::CreateFolder(..) | GameLog::RenameFolder(..) | GameLog::DeleteFolder(..) | GameLog::MoveFolderItem(..) | GameLog::CreateNote(..) | GameLog::EditNote(..) | GameLog::DeleteNote(..) => self.apply_log_folder(l),
            GameLog::CreateScene(..) | GameLog::EditScene(..) | GameLog::DeleteScene(..) | GameLog::SetCreaturePos(..) | GameLog::PathCreature(..) => self.apply_log_scene(l),
            GameLog::CreateMap(..) | GameLog::EditMap(..) | GameLog::DeleteMap(..) => self.apply_log_map(l),
            GameLog::StartCombat(..) | GameLog::StopCombat | GameLog::AddCreatureToCombat(..) | GameLog::RemoveCreatureFromCombat(..) | GameLog::CombatLog(..) => self.apply_log_combat(l),
            GameLog::CreatureLog(..) | GameLog::CreateCreature(..) | GameLog::EditCreature(..) | GameLog::DeleteCreature(..) => self.apply_log_creature(l),
        }
    }

    /// Applies the folder bookkeeping log entries; see [`spec_apply_log`].
    #[verifier::rlimit(100)]
    #[verifier::spinoff_prover]
    #[verifier::loop_isolation(false)]
    fn apply_log_folder(self, l: &GameLog) -> (r: Result<Game, GameError>)
        requires
            l@ is CreateFolder || l@ is RenameFolder || l@ is DeleteFolder || l@ is MoveFolderItem || l@ is CreateNote || l@ is EditNote || l@ is DeleteNote,
        ensures
            match r {
                Ok(g2) => spec_apply_log(self@, l@) == Ok::<GameV, GameErrorV>(g2@),
                Err(e) => spec_apply_log(self@, l@) == Err::<GameV, GameErrorV>(e@),
            },
    {
        let ghost g0 = self@;
        match l {
            GameLog::CreateFolder(p) => {
                match find_folder(&self.campaign, p) {
                    Some(_) => Err(GameError::FolderAlreadyExists(p.dup())),
                    None => {
                        if p.0.len() > 0 {
                            let parent = p.parent();
                            if find_folder(&self.campaign, &parent).is_none() {
                                return Err(GameError::FolderNotFound(parent));
                            }
                        }
                        let mut g = self;
                        g.campaign.push((p.dup(), crate::folder::Folder::new()));
                        proof {
                            assert(g@.campaign =~= g0.campaign.push(
                                (
                                    p@,
                                    FolderV {
                                        scenes: Seq::empty(),
                                        creatures: Seq::empty(),
                                        notes: Seq::empty(),
                                        maps: Seq::empty(),
                                    },
                                ),
                            ));
                        }
                        Ok(g)
                    },
                }
            },
            GameLog::RenameFolder(p, newname) => {
                if p.0.len() == 0 {
                    proof {
                        assert(p@.len() == 0);
                    }
                    return Err(
                        GameError::BuggyProgram("the root folder cannot be renamed".to_string()),
                    );
                }
                proof {
                    assert(p@.len() > 0);
                }
                if find_folder(&self.campaign, p).is_none() {
                    return Err(GameError::FolderNotFound(p.dup()));
                }
                let newpath = p.parent().child(newname);
                if find_folder(&self.campaign, &newpath).is_some() {
                    return Err(GameError::FolderAlreadyExists(newpath));
                }
                let mut g = self;
                repath_campaign(&mut g.campaign, p, &newpath);
                Ok(g)
            },
            GameLog::DeleteFolder(p) => {
                if p.0.len() == 0 {
                    proof {
                        assert(p@.len() == 0);
                    }
                    return Err(
                        GameError::BuggyProgram("the root folder cannot be deleted".to_string()),
                    );
                }
                proof {
                    assert(p@.len() > 0);
                }
                match find_folder(&self.campaign, p) {
                    None => Err(GameError::FolderNotFound(p.dup())),
                    Some(i) => {
                        let f = &self.campaign[i].1;
                        if f.scenes.len() > 0 || f.creatures.len() > 0 || f.notes.len() > 0
                            || f.maps.len() > 0 || has_child(&self.campaign, p) {
                            proof {
                                assert(g0.campaign[i as int].1 == self.campaign@[i as int].1@);
                                assert(g0.campaign[i as int].1.notes.len() == self.campaign@[
                                    i as int
                                ].1.notes@.len());
                            }
                            Err(GameError::FolderNotEmpty(p.dup()))
                        } else {
                            proof {
                                assert(g0.campaign[i as int].1 == self.campaign@[i as int].1@);
                                assert(g0.campaign[i as int].1.notes.len() == self.campaign@[
                                    i as int
                                ].1.notes@.len());
                                assert(g0.campaign[i as int].1.is_empty());
                            }
                            let mut g = self;
                            g.campaign.remove(i);
                            proof {
                                assert(g@.campaign =~= g0.campaign.remove(i as int));
                            }
                            Ok(g)
                        }
                    },
                }
            },
            GameLog::MoveFolderItem(from, item, to) => self.move_folder_item(from, item, to),
            GameLog::CreateNote(p, n) => {
                match find_folder(&self.campaign, p) {
                    None => Err(GameError::FolderNotFound(p.dup())),
                    Some(i) => {
                        proof {
                            lemma_folder_index(g0.campaign, p@);
                        }
                        let mut g = self;
                        let mut e = g.campaign.remove(i);
                        match find_note(&e.1.notes, &n.name) {
                            Some(k) => {
                                e.1.notes.remove(k);
                                e.1.notes.insert(k, copy_note(n));
                            },
                            None => {
                                e.1.notes.push(copy_note(n));
                            },
                        }
                        g.campaign.insert(i, e);
                        proof {
                            let f = g0.campaign[i as int].1;
                            let f2 = match spec_note_index(f.notes, n@.name) {
                                Some(k) => FolderV { notes: f.notes.update(k, n@), ..f },
                                None => FolderV { notes: f.notes.push(n@), ..f },
                            };
                            assert(g@.campaign[i as int].1.notes =~= f2.notes);
                            assert(g@.campaign =~= g0.campaign.update(i as int, (p@, f2)));
                        }
                        Ok(g)
                    },
                }
            },
            GameLog::EditNote(p, name, n) => {
                match find_folder(&self.campaign, p) {
                    None => Err(GameError::FolderNotFound(p.dup())),
                    Some(i) => {
                        proof {
                            lemma_folder_index(g0.campaign, p@);
                        }
                        match find_note(&self.campaign[i].1.notes, name) {
                            None => Err(GameError::NoteNotFound(p.dup(), name.clone())),
                            Some(k) => {
                                let mut g = self;
                                let mut e = g.campaign.remove(i);
                                e.1.notes.remove(k);
                                e.1.notes.insert(k, copy_note(n));
                                g.campaign.insert(i, e);
                                proof {
                                    let f = g0.campaign[i as int].1;
                                    let f2 = FolderV { notes: f.notes.update(k as int, n@), ..f };
                                    assert(g@.campaign[i as int].1.notes =~= f2.notes);
                                    assert(g@.campaign =~= g0.campaign.update(i as int, (p@, f2)));
                                }
                                Ok(g)
                            },
                        }
                    },
                }
            },
            GameLog::DeleteNote(p, name) => {
                match find_folder(&self.campaign, p) {
                    None => Err(GameError::FolderNotFound(p.dup())),
                    Some(i) => {
                        proof {
                            lemma_folder_index(g0.campaign, p@);
                        }
                        match find_note(&self.campaign[i].1.notes, name) {
                            None => Err(GameError::NoteNotFound(p.dup(), name.clone())),
                            Some(k) => {
                                let mut g = self;
                                let mut e = g.campaign.remove(i);
                                e.1.notes.remove(k);
                                g.campaign.insert(i, e);
                                proof {
                                    let f = g0.campaign[i as int].1;
                                    let f2 = FolderV { notes: f.notes.remove(k as int), ..f };
                                    assert(g@.campaign[i as int].1.notes =~= f2.notes);
                                    assert(g@.campaign =~= g0.campaign.update(i as int, (p@, f2)));
                                }
                                Ok(g)
                            },
                        }
                    },
                }
            },
            _ => {
                proof {
                    assert(false);
                }
                Err(GameError::BuggyProgram("unreachable log dispatch".to_string()))
            },
        }
    }


    /// Applies the scene table and placement log entries; see [`spec_apply_log`].
    #[verifier::rlimit(100)]
    #[verifier::spinoff_prover]
    #[verifier::loop_isolation(false)]
    fn apply_log_scene(self, l: &GameLog) -> (r: Result<Game, GameError>)
        requires
            l@ is CreateScene || l@ is EditScene || l@ is DeleteScene || l@ is SetCreaturePos || l@ is PathCreature,
        ensures
            match r {
                Ok(g2) => spec_apply_log(self@, l@) == Ok::<GameV, GameErrorV>(g2@),
                Err(e) => spec_apply_log(self@, l@) == Err::<GameV, GameErrorV>(e@),
            },
    {
        let ghost g0 = self@;
        match l {
            GameLog::CreateScene(p, s) => {
                match find_folder(&self.campaign, p) {
                    None => Err(GameError::FolderNotFound(p.dup())),
                    Some(i) => {
                        proof {
                            lemma_folder_index(g0.campaign, p@);
                        }
                        if find_scene(&self.scenes, s.id).is_some() {
                            return Err(GameError::SceneAlreadyExists(s.id));
                        }
                        let mut g = self;
                        g.scenes.push(copy_scene(s));
                        let mut e = g.campaign.remove(i);
                        e.1.scenes.push(s.id);
                        g.campaign.insert(i, e);
                        proof {
                            let f = g0.campaign[i as int].1;
                            assert(g@.scenes =~= g0.scenes.push(s@));
                            assert(g@.campaign =~= g0.campaign.update(
                                i as int,
                                (p@, FolderV { scenes: f.scenes.push(s@.id), ..f }),
                            ));
                        }
                        Ok(g)
                    },
                }
            },
            GameLog::EditScene(s) => {
                match find_scene(&self.scenes, s.id) {
                    None => Err(GameError::SceneNotFound(s.id)),
                    Some(i) => {
                        let mut g = self;
                        g.scenes.remove(i);
                        g.scenes.insert(i, copy_scene(s));
                        proof {
                            assert(g@.scenes =~= g0.scenes.update(i as int, s@));
                        }
                        Ok(g)
                    },
                }
            },
            GameLog::DeleteScene(sid) => {
                match find_scene(&self.scenes, *sid) {
                    None => Err(GameError::SceneNotFound(*sid)),
                    Some(i) => {
                        let in_combat = match &self.current_combat {
                            Some(c) => c.scene == *sid,
                            None => false,
                        };
                        if in_combat {
                            return Err(GameError::SceneInUse(*sid));
                        }
                        let mut g = self;
                        g.scenes.remove(i);
                        scrub_folders_scene(&mut g.campaign, *sid);
                        proof {
                            assert(g@.scenes =~= g0.scenes.remove(i as int));
                            assert(g@.campaign =~= g0.campaign.map_values(
                                |e: (Seq<Seq<char>>, FolderV)| (
                                    e.0,
                                    spec_scrub_folder_scene(e.1, *sid),
                                ),
                            ));
                        }
                        Ok(g)
                    },
                }
            },
            GameLog::SetCreaturePos(sid, cid, pt) => {
                match find_scene(&self.scenes, *sid) {
                    None => Err(GameError::SceneNotFound(*sid)),
                    Some(i) => {
                        let mut g = self;
                        let s = g.scenes.remove(i);
                        match s.set_pos(*cid, *pt) {
                            Ok(s2) => {
                                proof {
                                    crate::scene::lemma_scene_index(s@.creatures, *cid);
                                }
                                g.scenes.insert(i, s2);
                                proof {
                                    assert(g@.scenes =~= g0.scenes.update(
                                        i as int,
                                        g@.scenes[i as int],
                                    ));
                                }
                                Ok(g)
                            },
                            Err(e) => Err(e),
                        }
                    },
                }
            },
            GameLog::PathCreature(sid, cid, pts) => {
                match find_scene(&self.scenes, *sid) {
                    None => Err(GameError::SceneNotFound(*sid)),
                    Some(i) => {
                        if pts.len() == 0 {
                            return Err(
                                GameError::BuggyProgram(
                                    "a path must hold at least one point".to_string(),
                                ),
                            );
                        }
                        let dest = pts[pts.len() - 1];
                        let mut g = self;
                        let s = g.scenes.remove(i);
                        match s.set_pos(*cid, dest) {
                            Ok(s2) => {
                                proof {
                                    crate::scene::lemma_scene_index(s@.creatures, *cid);
                                }
                                g.scenes.insert(i, s2);
                                proof {
                                    assert(g@.scenes =~= g0.scenes.update(
                                        i as int,
                                        g@.scenes[i as int],
                                    ));
                                }
                                Ok(g)
                            },
                            Err(e) => Err(e),
                        }
                    },
                }
            },
            _ => {
                proof {
                    assert(false);
                }
                Err(GameError::BuggyProgram("unreachable log dispatch".to_string()))
            },
        }
    }


    /// Applies the map table log entries; see [`spec_apply_log`].
    #[verifier::rlimit(100)]
    #[verifier::spinoff_prover]
    #[verifier::loop_isolation(false)]
    fn apply_log_map(self, l: &GameLog) -> (r: Result<Game, GameError>)
        requires
            l@ is CreateMap || l@ is EditMap || l@ is DeleteMap,
        ensures
            match r {
                Ok(g2) => spec_apply_log(self@, l@) == Ok::<GameV, GameErrorV>(g2@),
                Err(e) => spec_apply_log(self@, l@) == Err::<GameV, GameErrorV>(e@),
            },
    {
        let ghost g0 = self@;
        match l {
            GameLog::CreateMap(p, m) => {
                match find_folder(&self.campaign, p) {
                    None => Err(GameError::FolderNotFound(p.dup())),
                    Some(i) => {
                        proof {
                            lemma_folder_index(g0.campaign, p@);
                        }
                        if find_map(&self.maps, m.id).is_some() {
                            return Err(GameError::MapAlreadyExists(m.id));
                        }
                        let mut g = self;
                        g.maps.push(copy_map(m));
                        let mut e = g.campaign.remove(i);
                        e.1.maps.push(m.id);
                        g.campaign.insert(i, e);
                        proof {
                            let f = g0.campaign[i as int].1;
                            assert(g@.maps =~= g0.maps.push(m@));
                            assert(g@.campaign =~= g0.campaign.update(
                                i as int,
                                (p@, FolderV { maps: f.maps.push(m@.id), ..f }),
                            ));
                        }
                        Ok(g)
                    },
                }
            },
            GameLog::EditMap(m) => {
                match find_map(&self.maps, m.id) {
                    None => Err(GameError::MapNotFound(m.id)),
                    Some(i) => {
                        let mut g = self;
                        g.maps.remove(i);
                        g.maps.insert(i, copy_map(m));
                        proof {
                            assert(g@.maps =~= g0.maps.update(i as int, m@));
                        }
                        Ok(g)
                    },
                }
            },
            GameLog::DeleteMap(mid) => {
                match find_map(&self.maps, *mid) {
                    None => Err(GameError::MapNotFound(*mid)),
                    Some(i) => {
                        let users = scenes_using_map(&self.scenes, *mid);
                        if users.len() > 0 {
                            return Err(GameError::MapInUse(*mid, users));
                        }
                        let mut g = self;
                        g.maps.remove(i);
                        scrub_folders_map(&mut g.campaign, *mid);
                        proof {
                            assert(g@.maps =~= g0.maps.remove(i as int));
                            assert(g@.campaign =~= g0.campaign.map_values(
                                |e: (Seq<Seq<char>>, FolderV)| (
                                    e.0,
                                    spec_scrub_folder_map(e.1, *mid),
                                ),
                            ));
                        }
                        Ok(g)
                    },
                }
            },
            _ => {
                proof {
                    assert(false);
                }
                Err(GameError::BuggyProgram("unreachable log dispatch".to_string()))
            },
        }
    }


    /// Applies the combat lifecycle log entries; see [`spec_apply_log`].
    #[verifier::rlimit(100)]
    #[verifier::spinoff_prover]
    #[verifier::loop_isolation(false)]
    fn apply_log_combat(self, l: &GameLog) -> (r: Result<Game, GameError>)
        requires
            l@ is StartCombat || l@ is StopCombat || l@ is AddCreatureToCombat || l@ is RemoveCreatureFromCombat || l@ is CombatLog,
        ensures
            match r {
                Ok(g2) => spec_apply_log(self@, l@) == Ok::<GameV, GameErrorV>(g2@),
                Err(e) => spec_apply_log(self@, l@) == Err::<GameV, GameErrorV>(e@),
            },
    {
        let ghost g0 = self@;
        match l {
            GameLog::StartCombat(sid, cids) => {
                if cids.len() == 0 {
                    return Err(GameError::CombatMustHaveCreatures);
                }
                let mut g = self;
                g.current_combat = Some(
                    Combat {
                        scene: *sid,
                        creatures: crate::types::copy_vec(cids),
                        cursor: 0,
                        movement_used: crate::types::Distance(0),
                    },
                );
                Ok(g)
            },
            GameLog::StopCombat => {
                let mut g = self;
                match g.current_combat {
                    None => Err(GameError::NotInCombat),
                    Some(_) => {
                        g.current_combat = None;
                        Ok(g)
                    },
                }
            },
            GameLog::AddCreatureToCombat(cid) => {
                let mut g = self;
                match g.current_combat {
                    None => Err(GameError::NotInCombat),
                    Some(c) => {
                        if crate::combat::find_cid(&c.creatures, *cid).is_some() {
                            return Err(GameError::AlreadyInCombat(*cid));
                        }
                        let mut c = c;
                        c.creatures.push(*cid);
                        g.current_combat = Some(c);
                        Ok(g)
                    },
                }
            },
            GameLog::RemoveCreatureFromCombat(cid) => {
                let mut g = self;
                match g.current_combat {
                    None => Err(GameError::NotInCombat),
                    Some(c) => {
                        match crate::combat::find_cid(&c.creatures, *cid) {
                            None => Err(GameError::CreatureNotFound(cid.to_string())),
                            Some(i) => {
                                let mut c = c;
                                c.creatures.remove(i);
                                if c.creatures.len() == 0 {
                                    g.current_combat = None;
                                    Ok(g)
                                } else {
                                    c.cursor = if i < c.cursor {
                                        c.cursor - 1
                                    } else if c.cursor < c.creatures.len() {
                                        c.cursor
                                    } else {
                                        0
                                    };
                                    g.current_combat = Some(c);
                                    Ok(g)
                                }
                            },
                        }
                    },
                }
            },
            GameLog::CombatLog(cl) => {
                let mut g = self;
                match g.current_combat {
                    None => Err(GameError::NotInCombat),
                    Some(c) => {
                        match crate::combat::apply_combat_log(c, cl) {
                            Ok(c2) => {
                                g.current_combat = Some(c2);
                                Ok(g)
                            },
                            Err(e) => Err(e),
                        }
                    },
                }
            },
            _ => {
                proof {
                    assert(false);
                }
                Err(GameError::BuggyProgram("unreachable log dispatch".to_string()))
            },
        }
    }


    /// Applies the creature table log entries; see [`spec_apply_log`].
    #[verifier::rlimit(100)]
    #[verifier::spinoff_prover]
    #[verifier::loop_isolation(false)]
    fn apply_log_creature(self, l: &GameLog) -> (r: Result<Game, GameError>)
        requires
            l@ is CreatureLog || l@ is CreateCreature || l@ is EditCreature || l@ is DeleteCreature,
        ensures
            match r {
                Ok(g2) => spec_apply_log(self@, l@) == Ok::<GameV, GameErrorV>(g2@),
                Err(e) => spec_apply_log(self@, l@) == Err::<GameV, GameErrorV>(e@),
            },
    {
        let ghost g0 = self@;
        match l {
            GameLog::CreatureLog(cid, cl) => {
                match find_creature(&self.creatures, *cid) {
                    None => Err(GameError::CreatureNotFound(cid.to_string())),
                    Some(i) => {
                        let mut g = self;
                        let c = g.creatures.remove(i);
                        match crate::creature::apply_creature_log(c, cl) {
                            Ok(c2) => {
                                g.creatures.insert(i, c2);
                                proof {
                                    assert(g@.creatures =~= g0.creatures.update(
                                        i as int,
                                        g@.creatures[i as int],
                                    ));
                                }
                                Ok(g)
                            },
                            Err(e) => Err(e),
                        }
                    },
                }
            },
            GameLog::CreateCreature(p, c) => {
                match find_folder(&self.campaign, p) {
                    None => Err(GameError::FolderNotFound(p.dup())),
                    Some(i) => {
                        proof {
                            lemma_folder_index(g0.campaign, p@);
                        }
                        if find_creature(&self.creatures, c.id).is_some() {
                            return Err(GameError::CreatureAlreadyExists(c.id));
                        }
                        let mut g = self;
                        g.creatures.push(copy_creature(c));
                        let mut e = g.campaign.remove(i);
                        e.1.creatures.push(c.id);
                        g.campaign.insert(i, e);
                        proof {
                            let f = g0.campaign[i as int].1;
                            assert(g@.creatures =~= g0.creatures.push(c@));
                            assert(g@.campaign =~= g0.campaign.update(
                                i as int,
                                (p@, FolderV { creatures: f.creatures.push(c@.id), ..f }),
                            ));
                        }
                        Ok(g)
                    },
                }
            },
            GameLog::EditCreature(c) => {
                match find_creature(&self.creatures, c.id) {
                    None => Err(GameError::CreatureNotFound(c.id.to_string())),
                    Some(i) => {
                        let mut g = self;
                        g.creatures.remove(i);
                        g.creatures.insert(i, copy_creature(c));
                        proof {
                            assert(g@.creatures =~= g0.creatures.update(i as int, c@));
                        }
                        Ok(g)
                    },
                }
            },
            GameLog::DeleteCreature(cid) => {
                match find_creature(&self.creatures, *cid) {
                    None => Err(GameError::CreatureNotFound(cid.to_string())),
                    Some(i) => {
                        let mut g = self;
                        g.creatures.remove(i);
                        scrub_scenes(&mut g.scenes, *cid);
                        scrub_folders_creature(&mut g.campaign, *cid);
                        proof {
                            assert(g@.creatures =~= g0.creatures.remove(i as int));
                            assert(g@.scenes =~= g0.scenes.map_values(
                                |s: SceneV| spec_scrub_scene(s, *cid),
                            ));
                            assert(g@.campaign =~= g0.campaign.map_values(
                                |e: (Seq<Seq<char>>, FolderV)| (
                                    e.0,
                                    spec_scrub_folder_creature(e.1, *cid),
                                ),
                            ));
                        }
                        Ok(g)
                    },
                }
            },
            _ => {
                proof {
                    assert(false);
                }
                Err(GameError::BuggyProgram("unreachable log dispatch".to_string()))
            },
        }
    }

    /// Moves an item between folders; see [`spec_move_item`].
    #[verifier::rlimit(100)]
    #[verifier::spinoff_prover]
    fn move_folder_item(self, from: &FolderPath, item: &FolderItemID, to: &FolderPath) -> (r:
        Result<Game, GameError>)
        ensures
            match r {
                Ok(g2) => spec_move_item(self@, from@, item@, to@) == Ok::<GameV, GameErrorV>(g2@),
                Err(e) => spec_move_item(self@, from@, item@, to@) == Err::<GameV, GameErrorV>(e@),
            },
    {
        let ghost g0 = self@;
        let fi = match find_folder(&self.campaign, from) {
            None => {
                return Err(GameError::FolderNotFound(from.dup()));
            },
            Some(fi) => fi,
        };
        proof {
            lemma_folder_index(g0.campaign, from@);
        }
        if find_folder(&self.campaign, to).is_none() {
            return Err(GameError::FolderNotFound(to.dup()));
        }
        match item {
            FolderItemID::SceneID(sid) => {
                match find_sid(&self.campaign[fi].1.scenes, *sid) {
                    None => Err(GameError::SceneNotFound(*sid)),
                    Some(k) => {
                        let mut g = self;
                        let mut e = g.campaign.remove(fi);
                        e.1.scenes.remove(k);
                        g.campaign.insert(fi, e);
                        let ghost c1 = g@.campaign;
                        proof {
                            let f = g0.campaign[fi as int].1;
                            assert(c1 =~= g0.campaign.update(
                                fi as int,
                                (from@, FolderV { scenes: f.scenes.remove(k as int), ..f }),
                            ));
                        }
                        let ti = match find_folder(&g.campaign, to) {
                            None => {
                                proof {
                                    lemma_folder_index_update_same_path(
                                        g0.campaign,
                                        fi as int,
                                        c1[fi as int].1,
                                        to@,
                                    );
                                    assert(g0.campaign[fi as int].0 == from@);
                                    assert(c1 =~= g0.campaign.update(
                                        fi as int,
                                        (g0.campaign[fi as int].0, c1[fi as int].1),
                                    ));
                                    assert(false);
                                }
                                return Err(
                                    GameError::BuggyProgram(
                                        "a folder vanished while moving an item".to_string(),
                                    ),
                                );
                            },
                            Some(ti) => ti,
                        };
                        proof {
                            lemma_folder_index(c1, to@);
                        }
                        let mut e2 = g.campaign.remove(ti);
                        e2.1.scenes.push(*sid);
                        g.campaign.insert(ti, e2);
                        proof {
                            let tf = c1[ti as int].1;
                            assert(g@.campaign =~= c1.update(
                                ti as int,
                                (to@, FolderV { scenes: tf.scenes.push(*sid), ..tf }),
                            ));
                        }
                        Ok(g)
                    },
                }
            },
            FolderItemID::MapID(mid) => {
                match find_mid(&self.campaign[fi].1.maps, *mid) {
                    None => Err(GameError::MapNotFound(*mid)),
                    Some(k) => {
                        let mut g = self;
                        let mut e = g.campaign.remove(fi);
                        e.1.maps.remove(k);
                        g.campaign.insert(fi, e);
                        let ghost c1 = g@.campaign;
                        proof {
                            let f = g0.campaign[fi as int].1;
                            assert(c1 =~= g0.campaign.update(
                                fi as int,
                                (from@, FolderV { maps: f.maps.remove(k as int), ..f }),
                            ));
                        }
                        let ti = match find_folder(&g.campaign, to) {
                            None => {
                                proof {
                                    lemma_folder_index_update_same_path(
                                        g0.campaign,
                                        fi as int,
                                        c1[fi as int].1,
                                        to@,
                                    );
                                    assert(g0.campaign[fi as int].0 == from@);
                                    assert(c1 =~= g0.campaign.update(
                                        fi as int,
                                        (g0.campaign[fi as int].0, c1[fi as int].1),
                                    ));
                                    assert(false);
                                }
                                return Err(
                                    GameError::BuggyProgram(
                                        "a folder vanished while moving an item".to_string(),
                                    ),
                                );
                            },
                            Some(ti) => ti,
                        };
                        proof {
                            lemma_folder_index(c1, to@);
                        }
                        let mut e2 = g.campaign.remove(ti);
                        e2.1.maps.push(*mid);
                        g.campaign.insert(ti, e2);
                        proof {
                            let tf = c1[ti as int].1;
                            assert(g@.campaign =~= c1.update(
                                ti as int,
                                (to@, FolderV { maps: tf.maps.push(*mid), ..tf }),
                            ));
                        }
                        Ok(g)
                    },
                }
            },
            FolderItemID::CreatureID(cid) => {
                match find_cid_list(&self.campaign[fi].1.creatures, *cid) {
                    None => Err(GameError::CreatureNotFound(cid.to_string())),
                    Some(k) => {
                        let mut g = self;
                        let mut e = g.campaign.remove(fi);
                        e.1.creatures.remove(k);
                        g.campaign.insert(fi, e);
                        let ghost c1 = g@.campaign;
                        proof {
                            let f = g0.campaign[fi as int].1;
                            assert(c1 =~= g0.campaign.update(
                                fi as int,
                                (from@, FolderV { creatures: f.creatures.remove(k as int), ..f }),
                            ));
                        }
                        let ti = match find_folder(&g.campaign, to) {
                            None => {
                                proof {
                                    lemma_folder_index_update_same_path(
                                        g0.campaign,
                                        fi as int,
                                        c1[fi as int].1,
                                        to@,
                                    );
                                    assert(g0.campaign[fi as int].0 == from@);
                                    assert(c1 =~= g0.campaign.update(
                                        fi as int,
                                        (g0.campaign[fi as int].0, c1[fi as int].1),
                                    ));
                                    assert(false);
                                }
                                return Err(
                                    GameError::BuggyProgram(
                                        "a folder vanished while moving an item".to_string(),
                                    ),
                                );
                            },
                            Some(ti) => ti,
                        };
                        proof {
                            lemma_folder_index(c1, to@);
                        }
                        let mut e2 = g.campaign.remove(ti);
                        e2.1.creatures.push(*cid);
                        g.campaign.insert(ti, e2);
                        proof {
                            let tf = c1[ti as int].1;
                            assert(g@.campaign =~= c1.update(
                                ti as int,
                                (to@, FolderV { creatures: tf.creatures.push(*cid), ..tf }),
                            ));
                        }
                        Ok(g)
                    },
                }
            },
            FolderItemID::NoteID(name) => {
                match find_note(&self.campaign[fi].1.notes, name) {
                    None => Err(GameError::NoteNotFound(from.dup(), name.clone())),
                    Some(k) => {
                        let mut g = self;
                        let mut e = g.campaign.remove(fi);
                        let note = e.1.notes.remove(k);
                        g.campaign.insert(fi, e);
                        let ghost c1 = g@.campaign;
                        let ghost nv = note@;
                        proof {
                            let f = g0.campaign[fi as int].1;
                            assert(nv == f.notes[k as int]);
                            assert(g@.campaign[fi as int].1.notes =~= f.notes.remove(k as int));
                            assert(c1 =~= g0.campaign.update(
                                fi as int,
                                (from@, FolderV { notes: f.notes.remove(k as int), ..f }),
                            ));
                        }
                        let ti = match find_folder(&g.campaign, to) {
                            None => {
                                proof {
                                    lemma_folder_index_update_same_path(
                                        g0.campaign,
                                        fi as int,
                                        c1[fi as int].1,
                                        to@,
                                    );
                                    assert(g0.campaign[fi as int].0 == from@);
                                    assert(c1 =~= g0.campaign.update(
                                        fi as int,
                                        (g0.campaign[fi as int].0, c1[fi as int].1),
                                    ));
                                    assert(false);
                                }
                                return Err(
                                    GameError::BuggyProgram(
                                        "a folder vanished while moving an item".to_string(),
                                    ),
                                );
                            },
                            Some(ti) => ti,
                        };
                        proof {
                            lemma_folder_index(c1, to@);
                        }
                        let mut e2 = g.campaign.remove(ti);
                        e2.1.notes.push(note);
                        g.campaign.insert(ti, e2);
                        proof {
                            let tf = c1[ti as int].1;
                            assert(g@.campaign[ti as int].1.notes =~= tf.notes.push(nv));
                            assert(g@.campaign =~= c1.update(
                                ti as int,
                                (to@, FolderV { notes: tf.notes.push(nv), ..tf }),
                            ));
                        }
                        Ok(g)
                    },
                }
            },
            FolderItemID::SubfolderID(name) => {
                let oldp = from.child(name);
                let newp = to.child(name);
                if find_folder(&self.campaign, &oldp).is_none() {
                    return Err(GameError::FolderNotFound(oldp));
                }
                if find_folder(&self.campaign, &newp).is_some() {
                    return Err(GameError::FolderAlreadyExists(newp));
                }
                let mut g = self;
                repath_campaign(&mut g.campaign, &oldp, &newp);
                Ok(g)
            },
        }
    }

    /// Folds a sequence of log entries over the game, in order: the replay
    /// function. The result is exactly [`spec_apply_logs`] of the models.
    #[verifier::loop_isolation(false)]
    pub fn apply_logs(self, ls: &Vec<GameLog>) -> (r: Result<Game, GameError>)
        ensures
            match r {
                Ok(g2) => spec_apply_logs(self@, game_logs_view(ls@)) == Ok::<GameV, GameErrorV>(
                    g2@,
                ),
                Err(e) => spec_apply_logs(self@, game_logs_view(ls@)) == Err::<GameV, GameErrorV>(
                    e@,
                ),
            },
    {
        let ghost lv = game_logs_view(ls@);
        let ghost gv0 = self@;
        let mut g = self;
        let mut i: usize = 0;
        proof {
            assert(lv.skip(0) =~= lv);
        }
        while i < ls.len()
            invariant
                i <= ls.len(),
                lv == game_logs_view(ls@),
                spec_apply_logs(g@, lv.skip(i as int)) == spec_apply_logs(gv0, lv),
            decreases ls.len() - i,
        {
            proof {
                assert(lv.skip(i as int)[0] == lv[i as int]);
                assert(lv[i as int] == ls@[i as int]@);
                assert(lv.skip(i as int).drop_first() =~= lv.skip(i + 1));
            }
            match g.apply_log(&ls[i]) {
                Ok(g2) => {
                    g = g2;
                },
                Err(e) => {
                    proof {
                        assert(spec_apply_logs(g@, lv.skip(i as int)) == Err::<GameV, GameErrorV>(
                            e@,
                        ));
                    }
                    return Err(e);
                },
            }
            i = i + 1;
        }
        proof {
            assert(lv.skip(i as int).len() == 0);
        }
        Ok(g)
    }
}

} // verus!

verus! {

/// Melee reach: one movement step, in centimeters.
pub const MELEE_RANGE_CM: u32 = 100;

/// Default speed of a newly created creature, in centimeters per move.
pub const DEFAULT_SPEED_CM: u32 = 1000;

/// Default maximum health of a newly created creature.
pub const DEFAULT_HEALTH: u8 = 10;

/// Default maximum energy of a newly created creature.
pub const DEFAULT_ENERGY: u8 = 10;

/// Checks a window of drawn die faces: the window must exist and every
/// value must lie on a face of the die.
pub open spec fn spec_take_rolls(tape: Seq<u8>, pos: int, num: u8, size: u8) -> Result<
    (Seq<u8>, int),
    GameErrorV,
> {
    if pos + num > tape.len() || size == 0 {
        Err(GameErrorV::BuggyProgram("the drawn randomness does not fit the dice"@))
    } else {
        let window = tape.subrange(pos, pos + num);
        if crate::dice::rolls_valid(window, size) {
            Ok((window, crate::dice::spec_sum(window)))
        } else {
            Err(GameErrorV::BuggyProgram("a drawn value lies off the die"@))
        }
    }
}

/// Takes a window of drawn die faces off the tape.
fn take_rolls(tape: &Vec<u8>, pos: usize, num: u8, size: u8) -> (r: Result<
    (Vec<u8>, u32),
    GameError,
>)
    ensures
        match r {
            Ok((vals, sum)) => spec_take_rolls(tape@, pos as int, num, size) == Ok::<
                _,
                GameErrorV,
            >((vals@, sum as int)) && pos + num <= tape@.len() <= usize::MAX && sum <= 65025,
            Err(e) => spec_take_rolls(tape@, pos as int, num, size) == Err::<
                (Seq<u8>, int),
                GameErrorV,
            >(e@),
        },
{
    if size == 0 || num as usize > tape.len() || pos > tape.len() - num as usize {
        return Err(
            GameError::BuggyProgram("the drawn randomness does not fit the dice".to_string()),
        );
    }
    let ghost window = tape@.subrange(pos as int, pos + num);
    let tlen = tape.len();
    let mut vals: Vec<u8> = Vec::new();
    let mut sum: u32 = 0;
    let mut i: usize = 0;
    while i < num as usize
        invariant
            i <= num as usize,
            pos + num <= tlen,
            tlen == tape@.len(),
            size >= 1,
            window == tape@.subrange(pos as int, pos + num),
            vals@ =~= window.take(i as int),
            crate::dice::rolls_valid(vals@, size),
            sum == crate::dice::spec_sum(vals@),
            sum <= 255 * (i as u32),
        decreases num - i,
    {
        let v = tape[pos + i];
        proof {
            assert(window[i as int] == tape@[pos + i]);
        }
        if v < 1 || v > size {
            proof {
                assert(window[i as int] == v);
                assert(!crate::dice::rolls_valid(window, size));
            }
            return Err(GameError::BuggyProgram("a drawn value lies off the die".to_string()));
        }
        proof {
            assert(vals@.push(v).drop_last() =~= vals@);
            assert(window.take(i + 1).drop_last() =~= window.take(i as int));
            assert(window.take(i + 1) =~= vals@.push(v));
        }
        sum = sum + (v as u32);
        vals.push(v);
        i = i + 1;
    }
    proof {
        assert(vals@ =~= window);
        assert(crate::dice::rolls_valid(window, size));
        assert(255 * (num as u32) <= 65025) by (nonlinear_arith)
            requires
                num <= 255,
        ;
    }
    Ok((vals, sum))
}

/// The damage or healing amount of a dice sum plus a flat bonus, capped
/// at the top of the 8-bit range.
pub open spec fn spec_capped_amount(sum: int, bonus: u8) -> u8 {
    if sum + bonus <= u8::MAX {
        (sum + bonus) as u8
    } else {
        u8::MAX
    }
}

/// Resolving a flattened effect list against a target: the creature logs
/// it produces, together with the tape position and the count of fresh
/// condition ids consumed. `buff` is the actor's damage bonus and `base`
/// the target's next fresh condition id.
pub open spec fn spec_resolve_effects(
    effs: Seq<crate::abilities::EffectV>,
    buff: u8,
    base: int,
    tape: Seq<u8>,
    pos: int,
    k: int,
) -> Result<(Seq<crate::logs::CreatureLogV>, int, int), GameErrorV>
    decreases effs.len(),
{
    if effs.len() == 0 {
        Ok((Seq::empty(), pos, k))
    } else {
        let step: Result<(Seq<crate::logs::CreatureLogV>, int, int), GameErrorV> = match effs[0] {
            crate::abilities::EffectV::Damage(dice) => match spec_take_rolls(
                tape,
                pos,
                dice.num,
                dice.size,
            ) {
                Ok((vals, sum)) => Ok(
                    (
                        seq![
                            crate::logs::CreatureLogV::Damage(
                                crate::types::HP(spec_capped_amount(sum, buff)),
                                vals,
                            ),
                        ],
                        pos + dice.num,
                        k,
                    ),
                ),
                Err(e) => Err(e),
            },
            crate::abilities::EffectV::Heal(dice) => match spec_take_rolls(
                tape,
                pos,
                dice.num,
                dice.size,
            ) {
                Ok((vals, sum)) => Ok(
                    (
                        seq![
                            crate::logs::CreatureLogV::Heal(
                                crate::types::HP(spec_capped_amount(sum, 0)),
                                vals,
                            ),
                        ],
                        pos + dice.num,
                        k,
                    ),
                ),
                Err(e) => Err(e),
            },
            crate::abilities::EffectV::GenerateEnergy(e) => Ok(
                (seq![crate::logs::CreatureLogV::GenerateEnergy(e)], pos, k),
            ),
            crate::abilities::EffectV::ApplyCondition(dur, cond) => if base + k >= usize::MAX {
                Err(GameErrorV::BuggyProgram("condition ids exhausted"@))
            } else {
                Ok(
                    (
                        seq![
                            crate::logs::CreatureLogV::ApplyCondition(
                                (base + k) as usize,
                                dur,
                                cond,
                            ),
                        ],
                        pos,
                        k + 1,
                    ),
                )
            },
            crate::abilities::EffectV::MultiEffect(_) => Err(
                GameErrorV::BuggyProgram("an unflattened effect reached resolution"@),
            ),
        };
        match step {
            Err(e) => Err(e),
            Ok((logs0, pos1, k1)) => match spec_resolve_effects(
                effs.drop_first(),
                buff,
                base,
                tape,
                pos1,
                k1,
            ) {
                Ok((rest, pos2, k2)) => Ok((logs0 + rest, pos2, k2)),
                Err(e) => Err(e),
            },
        }
    }
}

/// The models of a sequence of creature logs, in order.
pub open spec fn creature_logs_view(ls: Seq<crate::logs::CreatureLog>) -> Seq<
    crate::logs::CreatureLogV,
> {
    ls.map_values(|l: crate::logs::CreatureLog| l@)
}

/// Resolves a flattened effect list against a target; see
/// [`spec_resolve_effects`].
#[verifier::rlimit(100)]
#[verifier::spinoff_prover]
#[verifier::loop_isolation(false)]
fn resolve_effects(
    effs: &Vec<crate::abilities::Effect>,
    buff: u8,
    base: usize,
    tape: &Vec<u8>,
    pos0: usize,
    k0: usize,
) -> (r: Result<(Vec<crate::logs::CreatureLog>, usize, usize), GameError>)
    ensures
        match r {
            Ok((logs, p, k)) => spec_resolve_effects(
                crate::abilities::effects_view(effs@),
                buff,
                base as int,
                tape@,
                pos0 as int,
                k0 as int,
            ) == Ok::<_, GameErrorV>((creature_logs_view(logs@), p as int, k as int)),
            Err(e) => spec_resolve_effects(
                crate::abilities::effects_view(effs@),
                buff,
                base as int,
                tape@,
                pos0 as int,
                k0 as int,
            ) == Err::<(Seq<crate::logs::CreatureLogV>, int, int), GameErrorV>(e@),
        },
{
    let ghost ev = crate::abilities::effects_view(effs@);
    let mut out: Vec<crate::logs::CreatureLog> = Vec::new();
    let mut pos: usize = pos0;
    let mut k: usize = k0;
    let mut i: usize = 0;
    proof {
        crate::abilities::lemma_effects_view_len(effs@);
        assert(ev.skip(0) =~= ev);
        assert(creature_logs_view(out@) =~= Seq::<crate::logs::CreatureLogV>::empty());
    }
    while i < effs.len()
        invariant
            i <= effs.len(),
            ev == crate::abilities::effects_view(effs@),
            ev.len() == effs@.len(),
            spec_resolve_effects(ev, buff, base as int, tape@, pos0 as int, k0 as int) == match
                spec_resolve_effects(ev.skip(i as int), buff, base as int, tape@, pos as int, k as int) {
                Ok((rest, p2, k2)) => Ok::<_, GameErrorV>(
                    (creature_logs_view(out@) + rest, p2, k2),
                ),
                Err(e) => Err::<(Seq<crate::logs::CreatureLogV>, int, int), GameErrorV>(e),
            },
        decreases effs.len() - i,
    {
        let ghost out_pre = out@;
        proof {
            assert(ev.skip(i as int)[0] == ev[i as int]);
            crate::abilities::lemma_effects_view_index(effs@, i as int);
            assert(ev.skip(i as int).drop_first() =~= ev.skip(i + 1));
        }
        let eff = &effs[i];
        match eff {
            crate::abilities::Effect::Damage(dice) => {
                match take_rolls(tape, pos, dice.num, dice.size) {
                    Ok((vals, sum)) => {
                        let amt: u8 = if sum + (buff as u32) <= 255 {
                            (sum + (buff as u32)) as u8
                        } else {
                            255
                        };
                        let ghost pre = out@;
                        out.push(crate::logs::CreatureLog::Damage(crate::types::HP(amt), vals));
                        proof {
                            assert(creature_logs_view(out@) =~= creature_logs_view(pre).push(
                                out@.last()@,
                            ));
                        }
                        pos = pos + dice.num as usize;
                    },
                    Err(e) => {
                        return Err(e);
                    },
                }
            },
            crate::abilities::Effect::Heal(dice) => {
                match take_rolls(tape, pos, dice.num, dice.size) {
                    Ok((vals, sum)) => {
                        let amt: u8 = if sum <= 255 {
                            sum as u8
                        } else {
                            255
                        };
                        let ghost pre = out@;
                        out.push(crate::logs::CreatureLog::Heal(crate::types::HP(amt), vals));
                        proof {
                            assert(creature_logs_view(out@) =~= creature_logs_view(pre).push(
                                out@.last()@,
                            ));
                        }
                        pos = pos + dice.num as usize;
                    },
                    Err(e) => {
                        return Err(e);
                    },
                }
            },
            crate::abilities::Effect::GenerateEnergy(e) => {
                let ghost pre = out@;
                out.push(crate::logs::CreatureLog::GenerateEnergy(*e));
                proof {
                    assert(creature_logs_view(out@) =~= creature_logs_view(pre).push(
                        out@.last()@,
                    ));
                }
            },
            crate::abilities::Effect::ApplyCondition(dur, cond) => {
                if base >= usize::MAX - k {
                    return Err(GameError::BuggyProgram("condition ids exhausted".to_string()));
                }
                let ghost pre = out@;
                out.push(
                    crate::logs::CreatureLog::ApplyCondition(
                        base + k,
                        *dur,
                        crate::abilities::copy_condition(cond),
                    ),
                );
                proof {
                    assert(creature_logs_view(out@) =~= creature_logs_view(pre).push(
                        out@.last()@,
                    ));
                }
                k = k + 1;
            },
            crate::abilities::Effect::MultiEffect(_) => {
                return Err(
                    GameError::BuggyProgram(
                        "an unflattened effect reached resolution".to_string(),
                    ),
                );
            },
        }
        proof {
            let lv_pre = creature_logs_view(out_pre);
            let l0 = seq![out@.last()@];
            assert(creature_logs_view(out@) =~= lv_pre + l0);
            match spec_resolve_effects(ev.skip(i + 1), buff, base as int, tape@, pos as int, k as int) {
                Ok((rest, p2, k2)) => {
                    assert((lv_pre + l0) + rest =~= lv_pre + (l0 + rest));
                },
                Err(_) => {},
            }
        }
        i = i + 1;
    }
    proof {
        assert(ev.skip(i as int).len() == 0);
        assert(creature_logs_view(out@) + Seq::<crate::logs::CreatureLogV>::empty()
            =~= creature_logs_view(out@));
    }
    Ok((out, pos, k))
}

} // verus!

verus! {

/// The creature a creation request builds: engine defaults for the
/// numeric fields, the class's ability table at zero cooldown, and the
/// class's permanent conditions applied indefinitely under ids counted
/// from zero.
pub open spec fn spec_build_creature(
    id: CreatureID,
    cc: crate::creature::CreatureCreationV,
    class: ClassV,
) -> CreatureV {
    CreatureV {
        id,
        name: cc.name,
        speed: crate::types::Distance(DEFAULT_SPEED_CM),
        max_energy: crate::types::Energy(DEFAULT_ENERGY),
        cur_energy: crate::types::Energy(DEFAULT_ENERGY),
        abilities: class.abilities.map_values(
            |a: Seq<char>| crate::abilities::AbilityStatusV { ability_id: a, cooldown: 0 },
        ),
        class: cc.class,
        max_health: crate::types::HP(DEFAULT_HEALTH),
        cur_health: crate::types::HP(DEFAULT_HEALTH),
        conditions: Seq::new(
            class.conditions.len(),
            |i: int| (
                i as usize,
                crate::abilities::AppliedConditionV {
                    remaining: crate::types::ConditionDuration::Interminate,
                    condition: class.conditions[i],
                },
            ),
        ),
        note: Seq::empty(),
        portrait_url: cc.portrait_url,
        attributes: Seq::empty(),
    }
}

/// Builds the creature a creation request describes.
#[verifier::loop_isolation(false)]
pub fn build_creature(id: CreatureID, cc: &crate::creature::CreatureCreation, class: &Class) -> (r:
    Creature)
    ensures
        r@ == spec_build_creature(id, cc@, class@),
{
    let mut abilities: Vec<crate::abilities::AbilityStatus> = Vec::new();
    let mut i: usize = 0;
    while i < class.abilities.len()
        invariant
            i <= class.abilities.len(),
            abilities@.len() == i,
            forall|j: int| 0 <= j < i ==> (#[trigger] abilities@[j])@
                == (crate::abilities::AbilityStatusV {
                ability_id: class@.abilities[j],
                cooldown: 0,
            }),
        decreases class.abilities.len() - i,
    {
        proof {
            assert(class@.abilities[i as int] == class.abilities@[i as int]@);
        }
        abilities.push(
            crate::abilities::AbilityStatus {
                ability_id: class.abilities[i].dup(),
                cooldown: 0,
            },
        );
        i = i + 1;
    }
    let mut conditions: Vec<(crate::types::ConditionID, crate::abilities::AppliedCondition)> =
        Vec::new();
    let mut k: usize = 0;
    while k < class.conditions.len()
        invariant
            k <= class.conditions.len(),
            conditions@.len() == k,
            forall|j: int| 0 <= j < k ==> (#[trigger] conditions@[j]).0 == j && conditions@[j].1@
                == (crate::abilities::AppliedConditionV {
                remaining: crate::types::ConditionDuration::Interminate,
                condition: class@.conditions[j],
            }),
        decreases class.conditions.len() - k,
    {
        proof {
            crate::abilities::lemma_conditions_view_index(class.conditions@, k as int);
        }
        conditions.push(
            (
                k,
                crate::abilities::AppliedCondition {
                    remaining: crate::types::ConditionDuration::Interminate,
                    condition: crate::abilities::copy_condition(&class.conditions[k]),
                },
            ),
        );
        k = k + 1;
    }
    let r = Creature {
        id,
        name: cc.name.clone(),
        speed: crate::types::Distance(DEFAULT_SPEED_CM),
        max_energy: crate::types::Energy(DEFAULT_ENERGY),
        cur_energy: crate::types::Energy(DEFAULT_ENERGY),
        abilities,
        class: cc.class.clone(),
        max_health: crate::types::HP(DEFAULT_HEALTH),
        cur_health: crate::types::HP(DEFAULT_HEALTH),
        conditions,
        note: String::new(),
        portrait_url: cc.portrait_url.clone(),
        attributes: Vec::new(),
    };
    proof {
        crate::abilities::lemma_conditions_view_len(class.conditions@);
        assert(r@.abilities =~= spec_build_creature(id, cc@, class@).abilities);
        assert(r@.conditions =~= spec_build_creature(id, cc@, class@).conditions);
        assert(r@.attributes =~= spec_build_creature(id, cc@, class@).attributes);
        assert(r@.note =~= spec_build_creature(id, cc@, class@).note);
    }
    r
}

/// Validating a chosen creature target against a scene: the target must
/// be a known creature, both actor and target must be placed in the
/// scene, the target must lie within `range` centimeters of the actor,
/// and the target's tile must be open terrain on the scene's map.
pub open spec fn spec_check_target(
    g: GameV,
    scene: SceneV,
    actor: CreatureV,
    tid: CreatureID,
    range: u32,
) -> Result<CreatureID, GameErrorV> {
    if spec_creature_index(g.creatures, tid) is None {
        Err(GameErrorV::CreatureNotFound(crate::ids::uuid_text(tid.0)))
    } else {
        match crate::scene::spec_scene_pos(scene, actor.id) {
            None => Err(GameErrorV::CreatureNotFound(crate::ids::uuid_text(actor.id.0))),
            Some(apos) => match crate::scene::spec_scene_pos(scene, tid) {
                None => Err(GameErrorV::CreatureNotFound(crate::ids::uuid_text(tid.0))),
                Some(tpos) => if crate::scene::spec_point_distance(apos, tpos, g.tile_system)
                    > range {
                    Err(GameErrorV::CreatureOutOfRange(tid))
                } else {
                    match spec_map_table_index(g.maps, scene.map) {
                        None => Err(GameErrorV::MapNotFound(scene.map)),
                        Some(mi) => if !g.maps[mi].terrain.contains(tpos) {
                            Err(GameErrorV::InvalidTarget(tid))
                        } else {
                            Ok(tid)
                        },
                    }
                },
            },
        }
    }
}

/// Acting with an ability: validation and the ordered logs it produces.
/// The energy cost is deducted first; the ability's flattened effects then
/// resolve against the decided target in list order, with the drawn die
/// faces embedded in the logs.
pub open spec fn spec_gen_act(
    g: GameV,
    cmd: crate::command::GameCommandV,
    scene_id: SceneID,
    actor_id: CreatureID,
    abid: Seq<char>,
    target: crate::command::DecidedTarget,
    in_combat: bool,
    tape: Seq<u8>,
) -> Result<Seq<GameLogV>, GameErrorV> {
    match spec_scene_table_index(g.scenes, scene_id) {
        None => Err(GameErrorV::SceneNotFound(scene_id)),
        Some(si) => match spec_creature_index(g.creatures, actor_id) {
            None => Err(GameErrorV::CreatureNotFound(crate::ids::uuid_text(actor_id.0))),
            Some(ai) => {
                let actor = g.creatures[ai];
                if !actor.can_act() {
                    Err(GameErrorV::CannotAct(actor_id))
                } else {
                    match spec_named_index(g.abilities, abid) {
                        None => Err(GameErrorV::NoAbility(abid)),
                        Some(abi) => {
                            let ability = g.abilities[abi].1;
                            if !in_combat && !ability.usable_ooc {
                                Err(GameErrorV::InvalidCommand(cmd))
                            } else if !actor.knows_ability(abid) {
                                Err(GameErrorV::CreatureLacksAbility(actor_id, abid))
                            } else if actor.cur_energy.0 < ability.cost.0 {
                                Err(GameErrorV::NotEnoughEnergy(ability.cost))
                            } else {
                                let tr = match (ability.target, target) {
                                    (
                                        crate::types::TargetSpec::Melee,
                                        crate::command::DecidedTarget::Melee(tid),
                                    ) => spec_check_target(
                                        g,
                                        g.scenes[si],
                                        actor,
                                        tid,
                                        MELEE_RANGE_CM,
                                    ),
                                    (
                                        crate::types::TargetSpec::Range(d),
                                        crate::command::DecidedTarget::Range(tid),
                                    ) => spec_check_target(g, g.scenes[si], actor, tid, d.0),
                                    (
                                        crate::types::TargetSpec::Actor,
                                        crate::command::DecidedTarget::Actor,
                                    ) => Ok(actor_id),
                                    _ => Err(
                                        GameErrorV::InvalidTargetForTargetSpec(
                                            ability.target,
                                            target,
                                        ),
                                    ),
                                };
                                match tr {
                                    Err(e) => Err(e),
                                    Ok(tid) => match spec_creature_index(g.creatures, tid) {
                                        None => Err(
                                            GameErrorV::CreatureNotFound(
                                                crate::ids::uuid_text(tid.0),
                                            ),
                                        ),
                                        Some(ti) => {
                                            let tgt = g.creatures[ti];
                                            let base = crate::creature::spec_next_cond_id(
                                                tgt.conditions,
                                            );
                                            if base > usize::MAX {
                                                Err(
                                                    GameErrorV::BuggyProgram(
                                                        "condition ids exhausted"@,
                                                    ),
                                                )
                                            } else {
                                                match spec_resolve_effects(
                                                    crate::abilities::spec_flatten_effects(
                                                        ability.effects,
                                                    ),
                                                    actor.damage_buff(),
                                                    base,
                                                    tape,
                                                    0,
                                                    0,
                                                ) {
                                                    Err(e) => Err(e),
                                                    Ok((clogs, _p, _k)) => Ok(
                                                        seq![
                                                            GameLogV::CreatureLog(
                                                                actor_id,
                                                                crate::logs::CreatureLogV::ReduceEnergy(
                                                                    ability.cost,
                                                                ),
                                                            ),
                                                        ] + clogs.map_values(
                                                            |cl: crate::logs::CreatureLogV| GameLogV::CreatureLog(
                                                                tid,
                                                                cl,
                                                            ),
                                                        ),
                                                    ),
                                                }
                                            }
                                        },
                                    },
                                }
                            }
                        },
                    }
                }
            },
        },
    }
}

/// The per-turn condition bookkeeping of the creature ending its turn:
/// each recurring effect re-applies, each timed condition ticks down by
/// one, and a condition that reaches zero remaining is removed in the
/// same transaction.
pub open spec fn spec_turn_end(
    conds: Seq<(crate::types::ConditionID, crate::abilities::AppliedConditionV)>,
    buff: u8,
    base: int,
    tape: Seq<u8>,
    pos: int,
    k: int,
) -> Result<(Seq<crate::logs::CreatureLogV>, int, int), GameErrorV>
    decreases conds.len(),
{
    if conds.len() == 0 {
        Ok((Seq::empty(), pos, k))
    } else {
        let (id, ac) = conds[0];
        let rec: Result<(Seq<crate::logs::CreatureLogV>, int, int), GameErrorV> = match
            ac.condition {
            crate::abilities::ConditionV::RecurringEffect(eff) => spec_resolve_effects(
                crate::abilities::spec_flatten_effect(*eff),
                buff,
                base,
                tape,
                pos,
                k,
            ),
            _ => Ok((Seq::empty(), pos, k)),
        };
        match rec {
            Err(e) => Err(e),
            Ok((rlogs, pos1, k1)) => {
                let dlogs: Seq<crate::logs::CreatureLogV> = match ac.remaining {
                    crate::types::ConditionDuration::Interminate => Seq::empty(),
                    crate::types::ConditionDuration::Duration(n) => if n == 0 {
                        seq![crate::logs::CreatureLogV::RemoveCondition(id)]
                    } else if n == 1 {
                        seq![
                            crate::logs::CreatureLogV::DecrementConditionRemaining(id),
                            crate::logs::CreatureLogV::RemoveCondition(id),
                        ]
                    } else {
                        seq![crate::logs::CreatureLogV::DecrementConditionRemaining(id)]
                    },
                };
                match spec_turn_end(conds.drop_first(), buff, base, tape, pos1, k1) {
                    Err(e) => Err(e),
                    Ok((rest, pos2, k2)) => Ok((rlogs + dlogs + rest, pos2, k2)),
                }
            },
        }
    }
}

/// Ending the current creature's turn: its per-turn condition bookkeeping
/// followed by the end-of-turn marker that advances the cursor.
pub open spec fn spec_gen_done(g: GameV, tape: Seq<u8>) -> Result<Seq<GameLogV>, GameErrorV> {
    match g.current_combat {
        None => Err(GameErrorV::NotInCombat),
        Some(c) => if !(c.cursor < c.creatures.len()) {
            Err(GameErrorV::BuggyProgram("the initiative cursor ran off the order"@))
        } else {
            let cid = c.creatures[c.cursor as int];
            match spec_creature_index(g.creatures, cid) {
                None => Err(GameErrorV::CreatureNotFound(crate::ids::uuid_text(cid.0))),
                Some(ci) => {
                    let creature = g.creatures[ci];
                    let base = crate::creature::spec_next_cond_id(creature.conditions);
                    if base > usize::MAX {
                        Err(GameErrorV::BuggyProgram("condition ids exhausted"@))
                    } else {
                        match spec_turn_end(
                            creature.conditions,
                            creature.damage_buff(),
                            base,
                            tape,
                            0,
                            0,
                        ) {
                            Err(e) => Err(e),
                            Ok((clogs, _p, _k)) => Ok(
                                clogs.map_values(
                                    |cl: crate::logs::CreatureLogV| GameLogV::CreatureLog(cid, cl),
                                ) + seq![
                                    GameLogV::CombatLog(
                                        crate::logs::CombatLog::EndTurn(cid),
                                    ),
                                ],
                            ),
                        }
                    }
                },
            }
        },
    }
}

/// Moving the current combat creature: the step must lead to open
/// terrain, and the movement already used this turn plus the step must
/// stay within the creature's effective speed.
pub open spec fn spec_gen_path_combat(g: GameV, pt: crate::types::Point3, tape: Seq<u8>) -> Result<
    Seq<GameLogV>,
    GameErrorV,
> {
    match g.current_combat {
        None => Err(GameErrorV::NotInCombat),
        Some(c) => if !(c.cursor < c.creatures.len()) {
            Err(GameErrorV::BuggyProgram("the initiative cursor ran off the order"@))
        } else {
            let cid = c.creatures[c.cursor as int];
            match spec_creature_index(g.creatures, cid) {
                None => Err(GameErrorV::CreatureNotFound(crate::ids::uuid_text(cid.0))),
                Some(ci) => {
                    let creature = g.creatures[ci];
                    if !creature.can_move() {
                        Err(GameErrorV::CannotMove(cid))
                    } else {
                        match spec_scene_table_index(g.scenes, c.scene) {
                            None => Err(GameErrorV::SceneNotFound(c.scene)),
                            Some(si) => {
                                let scene = g.scenes[si];
                                match crate::scene::spec_scene_pos(scene, cid) {
                                    None => Err(
                                        GameErrorV::CreatureNotFound(
                                            crate::ids::uuid_text(cid.0),
                                        ),
                                    ),
                                    Some(pos) => match spec_map_table_index(g.maps, scene.map) {
                                        None => Err(GameErrorV::MapNotFound(scene.map)),
                                        Some(mi) => if !g.maps[mi].terrain.contains(pt) {
                                            Err(GameErrorV::NoPathFound)
                                        } else {
                                            let cost = crate::scene::spec_point_distance(
                                                pos,
                                                pt,
                                                g.tile_system,
                                            );
                                            if c.movement_used.0 + cost
                                                > creature.effective_speed() {
                                                Err(GameErrorV::CannotMove(cid))
                                            } else {
                                                Ok(
                                                    seq![
                                                        GameLogV::PathCreature(
                                                            c.scene,
                                                            cid,
                                                            seq![pos, pt],
                                                        ),
                                                        GameLogV::CombatLog(
                                                            crate::logs::CombatLog::ConsumeMovement(
                                                                crate::types::Distance(cost as u32),
                                                            ),
                                                        ),
                                                    ],
                                                )
                                            }
                                        },
                                    },
                                }
                            },
                        }
                    }
                },
            }
        },
    }
}

/// Moving a creature in a scene outside the turn budget: the step must
/// lead to open terrain and lie within the creature's effective speed.
pub open spec fn spec_gen_path(
    g: GameV,
    sid: SceneID,
    cid: CreatureID,
    pt: crate::types::Point3,
) -> Result<Seq<GameLogV>, GameErrorV> {
    match spec_scene_table_index(g.scenes, sid) {
        None => Err(GameErrorV::SceneNotFound(sid)),
        Some(si) => match spec_creature_index(g.creatures, cid) {
            None => Err(GameErrorV::CreatureNotFound(crate::ids::uuid_text(cid.0))),
            Some(ci) => {
                let creature = g.creatures[ci];
                if !creature.can_move() {
                    Err(GameErrorV::CannotMove(cid))
                } else {
                    let scene = g.scenes[si];
                    match crate::scene::spec_scene_pos(scene, cid) {
                        None => Err(GameErrorV::CreatureNotFound(crate::ids::uuid_text(cid.0))),
                        Some(pos) => match spec_map_table_index(g.maps, scene.map) {
                            None => Err(GameErrorV::MapNotFound(scene.map)),
                            Some(mi) => if !g.maps[mi].terrain.contains(pt) {
                                Err(GameErrorV::NoPathFound)
                            } else {
                                let cost = crate::scene::spec_point_distance(
                                    pos,
                                    pt,
                                    g.tile_system,
                                );
                                if cost > creature.effective_speed() {
                                    Err(GameErrorV::CannotMove(cid))
                                } else {
                                    Ok(seq![GameLogV::PathCreature(sid, cid, seq![pos, pt])])
                                }
                            },
                        },
                    }
                }
            },
        },
    }
}

/// The logs a command produces, given the fresh identifier and the drawn
/// randomness it may consume. Validation happens here: a command either
/// yields the full ordered log list or fails with a specific error, and
/// player management and rollback are not game-level commands.
///
/// A simple attribute check draws no randomness: it succeeds exactly when
/// the creature's level at the attribute reaches the target level. A
/// random check succeeds when the drawn percentile lies strictly under
/// the challenge percentage; the draw is embedded in the result log.
pub open spec fn spec_gen_logs(
    g: GameV,
    c: crate::command::GameCommandV,
    fresh: u128,
    tape: Seq<u8>,
) -> Result<Seq<GameLogV>, GameErrorV> {
    match c {
        crate::command::GameCommandV::SimpleAttributeCheck(cid, attr, lvl) => match
            spec_creature_index(g.creatures, cid) {
            None => Err(GameErrorV::CreatureNotFound(crate::ids::uuid_text(cid.0))),
            Some(ci) => match g.creatures[ci].attr_level(attr) {
                None => Err(GameErrorV::AttributeNotFound(cid, attr)),
                Some(level) => Ok(
                    seq![
                        GameLogV::SimpleAttributeCheckResult(
                            cid,
                            attr,
                            lvl,
                            crate::skills::spec_skill_ord(level)
                                >= crate::skills::spec_skill_ord(lvl),
                        ),
                    ],
                ),
            },
        },
        crate::command::GameCommandV::RandomAttributeCheck(cid, attr, lvl) => match
            spec_creature_index(g.creatures, cid) {
            None => Err(GameErrorV::CreatureNotFound(crate::ids::uuid_text(cid.0))),
            Some(ci) => match g.creatures[ci].attr_level(attr) {
                None => Err(GameErrorV::AttributeNotFound(cid, attr)),
                Some(level) => if tape.len() < 1 || tape[0] >= 100 {
                    Err(GameErrorV::BuggyProgram("the drawn percentile is missing or off"@))
                } else {
                    Ok(
                        seq![
                            GameLogV::RandomAttributeCheckResult(
                                cid,
                                attr,
                                lvl,
                                tape[0],
                                (tape[0] as int) < crate::skills::spec_challenge_table(
                                    crate::skills::spec_skill_ord(lvl)
                                        - crate::skills::spec_skill_ord(level),
                                ) as int,
                            ),
                        ],
                    )
                },
            },
        },
        crate::command::GameCommandV::CreateFolder(p) => Ok(seq![GameLogV::CreateFolder(p)]),
        crate::command::GameCommandV::RenameFolder(p, n) => Ok(
            seq![GameLogV::RenameFolder(p, n)],
        ),
        crate::command::GameCommandV::DeleteFolder(p) => Ok(seq![GameLogV::DeleteFolder(p)]),
        crate::command::GameCommandV::MoveFolderItem(a, i, b) => Ok(
            seq![GameLogV::MoveFolderItem(a, i, b)],
        ),
        crate::command::GameCommandV::CreateNote(p, n) => Ok(seq![GameLogV::CreateNote(p, n)]),
        crate::command::GameCommandV::EditNote(p, name, n) => Ok(
            seq![GameLogV::EditNote(p, name, n)],
        ),
        crate::command::GameCommandV::DeleteNote(p, name) => Ok(
            seq![GameLogV::DeleteNote(p, name)],
        ),
        crate::command::GameCommandV::CreateScene(p, sc) => match spec_map_table_index(
            g.maps,
            sc.map,
        ) {
            None => Err(GameErrorV::MapNotFound(sc.map)),
            Some(_) => Ok(
                seq![
                    GameLogV::CreateScene(
                        p,
                        SceneV {
                            id: SceneID(fresh),
                            name: sc.name,
                            map: sc.map,
                            creatures: Seq::empty(),
                            attribute_checks: Seq::empty(),
                        },
                    ),
                ],
            ),
        },
        crate::command::GameCommandV::EditScene(s) => Ok(seq![GameLogV::EditScene(s)]),
        crate::command::GameCommandV::DeleteScene(sid) => Ok(seq![GameLogV::DeleteScene(sid)]),
        crate::command::GameCommandV::CreateMap(p, mc) => Ok(
            seq![
                GameLogV::CreateMap(
                    p,
                    GameMapV {
                        id: MapID(fresh),
                        name: mc.name,
                        terrain: mc.terrain,
                        specials: Seq::empty(),
                    },
                ),
            ],
        ),
        crate::command::GameCommandV::EditMap(m) => Ok(seq![GameLogV::EditMap(m)]),
        crate::command::GameCommandV::DeleteMap(mid) => Ok(seq![GameLogV::DeleteMap(mid)]),
        crate::command::GameCommandV::StartCombat(sid, cids) => if g.current_combat is Some {
            Err(GameErrorV::InvalidCommand(c))
        } else if spec_scene_table_index(g.scenes, sid) is None {
            Err(GameErrorV::SceneNotFound(sid))
        } else if cids.len() == 0 {
            Err(GameErrorV::CombatMustHaveCreatures)
        } else {
            Ok(seq![GameLogV::StartCombat(sid, cids)])
        },
        crate::command::GameCommandV::StopCombat => Ok(seq![GameLogV::StopCombat]),
        crate::command::GameCommandV::AddCreatureToCombat(cid) => if spec_creature_index(
            g.creatures,
            cid,
        ) is None {
            Err(GameErrorV::CreatureNotFound(crate::ids::uuid_text(cid.0)))
        } else {
            Ok(seq![GameLogV::AddCreatureToCombat(cid)])
        },
        crate::command::GameCommandV::RemoveCreatureFromCombat(cid) => Ok(
            seq![GameLogV::RemoveCreatureFromCombat(cid)],
        ),
        crate::command::GameCommandV::ActCreature(sid, cid, abid, t) => spec_gen_act(
            g,
            c,
            sid,
            cid,
            abid,
            t,
            g.current_combat is Some,
            tape,
        ),
        crate::command::GameCommandV::CombatAct(abid, t) => match g.current_combat {
            None => Err(GameErrorV::NotInCombat),
            Some(cb) => if !(cb.cursor < cb.creatures.len()) {
                Err(GameErrorV::BuggyProgram("the initiative cursor ran off the order"@))
            } else {
                spec_gen_act(
                    g,
                    c,
                    cb.scene,
                    cb.creatures[cb.cursor as int],
                    abid,
                    t,
                    true,
                    tape,
                )
            },
        },
        crate::command::GameCommandV::PathCurrentCombatCreature(pt) => spec_gen_path_combat(
            g,
            pt,
            tape,
        ),
        crate::command::GameCommandV::Done => spec_gen_done(g, tape),
        crate::command::GameCommandV::ChangeCreatureInitiative(cid, idx) => Ok(
            seq![
                GameLogV::CombatLog(
                    crate::logs::CombatLog::ChangeCreatureInitiative(cid, idx),
                ),
            ],
        ),
        crate::command::GameCommandV::CreateCreature(p, cc) => match spec_named_index(
            g.classes,
            cc.class,
        ) {
            None => Err(GameErrorV::ClassNotFound(cc.class)),
            Some(ci) => Ok(
                seq![
                    GameLogV::CreateCreature(
                        p,
                        spec_build_creature(CreatureID(fresh), cc, g.classes[ci].1),
                    ),
                ],
            ),
        },
        crate::command::GameCommandV::EditCreature(cr) => Ok(seq![GameLogV::EditCreature(cr)]),
        crate::command::GameCommandV::SetCreaturePos(sid, cid, pt) => Ok(
            seq![GameLogV::SetCreaturePos(sid, cid, pt)],
        ),
        crate::command::GameCommandV::PathCreature(sid, cid, pt) => spec_gen_path(
            g,
            sid,
            cid,
            pt,
        ),
        crate::command::GameCommandV::DeleteCreature(cid) => if match g.current_combat {
            Some(cb) => spec_cid_index(cb.creatures, cid) is Some,
            None => false,
        } {
            Err(GameErrorV::InvalidCommand(c))
        } else {
            Ok(seq![GameLogV::DeleteCreature(cid)])
        },
        crate::command::GameCommandV::RegisterPlayer(_) => Err(GameErrorV::InvalidCommand(c)),
        crate::command::GameCommandV::GiveCreaturesToPlayer(_, _) => Err(
            GameErrorV::InvalidCommand(c),
        ),
        crate::command::GameCommandV::UnregisterPlayer(_) => Err(GameErrorV::InvalidCommand(c)),
        crate::command::GameCommandV::RemoveCreaturesFromPlayer(_, _) => Err(
            GameErrorV::InvalidCommand(c),
        ),
        crate::command::GameCommandV::SetPlayerScene(_, _) => Err(GameErrorV::InvalidCommand(c)),
        crate::command::GameCommandV::Rollback(_, _) => Err(GameErrorV::InvalidCommand(c)),
    }
}

/// Executing a command deterministically: generate the ordered logs, then
/// fold them over the state. The executor's whole outcome is a pure
/// function of the state, the command, the fresh identifier and the drawn
/// randomness.
pub open spec fn spec_execute(
    g: GameV,
    c: crate::command::GameCommandV,
    fresh: u128,
    tape: Seq<u8>,
) -> Result<(GameV, Seq<GameLogV>), GameErrorV> {
    match spec_gen_logs(g, c, fresh, tape) {
        Err(e) => Err(e),
        Ok(logs) => match spec_apply_logs(g, logs) {
            Err(e) => Err(e),
            Ok(g2) => Ok((g2, logs)),
        },
    }
}

/// Determinism: the executor's contract pins a single outcome for a fixed
/// state, command, fresh identifier and drawn randomness, so two
/// executions from the same inputs yield identical logs and identical
/// resulting state.
pub proof fn lemma_execution_deterministic(
    g: GameV,
    c: crate::command::GameCommandV,
    fresh: u128,
    tape: Seq<u8>,
    r1: Result<(GameV, Seq<GameLogV>), GameErrorV>,
    r2: Result<(GameV, Seq<GameLogV>), GameErrorV>,
)
    requires
        r1 == spec_execute(g, c, fresh, tape),
        r2 == spec_execute(g, c, fresh, tape),
    ensures
        r1 == r2,
{
}

/// Replay equivalence: whenever the executor succeeds, folding the logs
/// it emitted over the starting state reproduces the resulting state.
pub proof fn lemma_replay_equivalence(
    g: GameV,
    c: crate::command::GameCommandV,
    fresh: u128,
    tape: Seq<u8>,
)
    ensures
        match spec_execute(g, c, fresh, tape) {
            Ok((g2, logs)) => spec_apply_logs(g, logs) == Ok::<GameV, GameErrorV>(g2),
            Err(_) => true,
        },
{
}

} // verus!

verus! {

/// A single-entry log list.
fn one_log(l: GameLog) -> (r: Vec<GameLog>)
    ensures
        game_logs_view(r@) == seq![l@],
{
    let ghost lv = l@;
    let mut out: Vec<GameLog> = Vec::new();
    out.push(l);
    proof {
        assert(game_logs_view(out@) =~= seq![lv]);
    }
    out
}

impl Game {
    /// Validates a chosen creature target; see [`spec_check_target`].
    fn check_target(&self, si: usize, ai: usize, tid: CreatureID, range: u32) -> (r: Result<
        CreatureID,
        GameError,
    >)
        requires
            si < self.scenes@.len(),
            ai < self.creatures@.len(),
        ensures
            match r {
                Ok(t) => spec_check_target(
                    self@,
                    self@.scenes[si as int],
                    self@.creatures[ai as int],
                    tid,
                    range,
                ) == Ok::<CreatureID, GameErrorV>(t),
                Err(e) => spec_check_target(
                    self@,
                    self@.scenes[si as int],
                    self@.creatures[ai as int],
                    tid,
                    range,
                ) == Err::<CreatureID, GameErrorV>(e@),
            },
    {
        if find_creature(&self.creatures, tid).is_none() {
            return Err(GameError::CreatureNotFound(tid.to_string()));
        }
        let scene = &self.scenes[si];
        let apos = match scene.get_pos(self.creatures[ai].id) {
            Ok(p) => p,
            Err(e) => {
                return Err(e);
            },
        };
        let tpos = match scene.get_pos(tid) {
            Ok(p) => p,
            Err(e) => {
                return Err(e);
            },
        };
        let d = crate::scene::point_distance(apos, tpos, self.tile_system);
        if d.0 > range {
            return Err(GameError::CreatureOutOfRange(tid));
        }
        let mi = match find_map(&self.maps, scene.map) {
            Some(mi) => mi,
            None => {
                return Err(GameError::MapNotFound(scene.map));
            },
        };
        if !self.maps[mi].is_open(&tpos) {
            return Err(GameError::InvalidTarget(tid));
        }
        Ok(tid)
    }

    /// Acting with an ability; see [`spec_gen_act`].
    #[verifier::rlimit(100)]
    #[verifier::spinoff_prover]
    fn gen_act(
        &self,
        cmd: &crate::command::GameCommand,
        scene_id: SceneID,
        actor_id: CreatureID,
        abid: &AbilityID,
        target: crate::command::DecidedTarget,
        in_combat: bool,
        tape: &Vec<u8>,
    ) -> (r: Result<Vec<GameLog>, GameError>)
        ensures
            match r {
                Ok(logs) => spec_gen_act(
                    self@,
                    cmd@,
                    scene_id,
                    actor_id,
                    abid@,
                    target,
                    in_combat,
                    tape@,
                ) == Ok::<Seq<GameLogV>, GameErrorV>(game_logs_view(logs@)),
                Err(e) => spec_gen_act(
                    self@,
                    cmd@,
                    scene_id,
                    actor_id,
                    abid@,
                    target,
                    in_combat,
                    tape@,
                ) == Err::<Seq<GameLogV>, GameErrorV>(e@),
            },
    {
        let si = match find_scene(&self.scenes, scene_id) {
            Some(si) => si,
            None => {
                return Err(GameError::SceneNotFound(scene_id));
            },
        };
        let ai = match find_creature(&self.creatures, actor_id) {
            Some(ai) => ai,
            None => {
                return Err(GameError::CreatureNotFound(actor_id.to_string()));
            },
        };
        let actor = &self.creatures[ai];
        if !actor.can_act() {
            return Err(GameError::CannotAct(actor_id));
        }
        let abi = match find_ability(&self.abilities, abid) {
            Some(abi) => abi,
            None => {
                return Err(GameError::NoAbility(abid.dup()));
            },
        };
        proof {
            lemma_named_index(
                self.abilities@.map_values(|p: (AbilityID, Ability)| (p.0@, p.1@)),
                abid@,
            );
        }
        let ability = &self.abilities[abi].1;
        if !in_combat && !ability.usable_ooc {
            return Err(GameError::InvalidCommand(crate::command::copy_command(cmd)));
        }
        if !actor.knows_ability(abid) {
            return Err(GameError::CreatureLacksAbility(actor_id, abid.dup()));
        }
        if actor.cur_energy.0 < ability.cost.0 {
            return Err(GameError::NotEnoughEnergy(ability.cost));
        }
        let tr: Result<CreatureID, GameError> = match (&ability.target, &target) {
            (crate::types::TargetSpec::Melee, crate::command::DecidedTarget::Melee(tid)) => self
                .check_target(si, ai, *tid, MELEE_RANGE_CM),
            (crate::types::TargetSpec::Range(d), crate::command::DecidedTarget::Range(tid)) => self
                .check_target(si, ai, *tid, d.0),
            (crate::types::TargetSpec::Actor, crate::command::DecidedTarget::Actor) => Ok(
                actor_id,
            ),
            _ => Err(GameError::InvalidTargetForTargetSpec(ability.target, target)),
        };
        let tid = match tr {
            Ok(t) => t,
            Err(e) => {
                return Err(e);
            },
        };
        let ti = match find_creature(&self.creatures, tid) {
            Some(ti) => ti,
            None => {
                return Err(GameError::CreatureNotFound(tid.to_string()));
            },
        };
        let base = match self.creatures[ti].next_condition_id() {
            Some(b) => b,
            None => {
                return Err(GameError::BuggyProgram("condition ids exhausted".to_string()));
            },
        };
        let flat = crate::abilities::flatten_effects(&ability.effects);
        let buff = actor.damage_buff();
        let (clogs, _pos, _k) = match resolve_effects(&flat, buff, base, tape, 0, 0) {
            Ok(t) => t,
            Err(e) => {
                return Err(e);
            },
        };
        let mapped = crate::logs::creature_logs_into_game_logs(tid, clogs);
        let mut out: Vec<GameLog> = Vec::new();
        out.push(
            GameLog::CreatureLog(actor_id, crate::logs::CreatureLog::ReduceEnergy(ability.cost)),
        );
        let mut i: usize = 0;
        while i < mapped.len()
            invariant
                i <= mapped@.len(),
                out@.len() == 1 + i,
                forall|j: int| 0 <= j < mapped@.len() ==> (#[trigger] mapped@[j])@
                    == GameLogV::CreatureLog(tid, clogs@[j]@),
                mapped@.len() == clogs@.len(),
                out@[0]@ == GameLogV::CreatureLog(
                    actor_id,
                    crate::logs::CreatureLogV::ReduceEnergy(ability@.cost),
                ),
                forall|j: int| 0 <= j < i ==> (#[trigger] out@[j + 1])@ == mapped@[j]@,
            decreases mapped@.len() - i,
        {
            out.push(crate::logs::copy_game_log(&mapped[i]));
            i = i + 1;
        }
        proof {
            let clv = creature_logs_view(clogs@);
            let expected = seq![
                GameLogV::CreatureLog(
                    actor_id,
                    crate::logs::CreatureLogV::ReduceEnergy(ability@.cost),
                ),
            ] + clv.map_values(
                |cl: crate::logs::CreatureLogV| GameLogV::CreatureLog(tid, cl),
            );
            assert(expected.len() == 1 + clv.len());
            assert(game_logs_view(out@).len() == expected.len());
            assert forall|j: int| 0 <= j < out@.len() implies #[trigger] game_logs_view(out@)[j]
                == expected[j] by {
                if j == 0 {
                    assert(out@[0]@ == expected[0]);
                } else {
                    assert(out@[(j - 1) + 1]@ == mapped@[j - 1]@);
                    assert(clv[j - 1] == clogs@[j - 1]@);
                    assert(expected[j] == GameLogV::CreatureLog(tid, clv[j - 1]));
                }
            }
            assert(game_logs_view(out@) =~= expected);
        }
        Ok(out)
    }

    /// Per-turn condition bookkeeping for the creature ending its turn;
    /// see [`spec_turn_end`]. Walks the conditions from index `i`.
    #[verifier::rlimit(100)]
    #[verifier::spinoff_prover]
    fn turn_end_logs(
        conds: &Vec<(crate::types::ConditionID, crate::abilities::AppliedCondition)>,
        i: usize,
        buff: u8,
        base: usize,
        tape: &Vec<u8>,
        pos: usize,
        k: usize,
    ) -> (r: Result<(Vec<crate::logs::CreatureLog>, usize, usize), GameError>)
        requires
            i <= conds@.len(),
        ensures
            match r {
                Ok((logs, p2, k2)) => spec_turn_end(
                    conds@.map_values(
                        |p: (crate::types::ConditionID, crate::abilities::AppliedCondition)| (
                            p.0,
                            p.1@,
                        ),
                    ).skip(i as int),
                    buff,
                    base as int,
                    tape@,
                    pos as int,
                    k as int,
                ) == Ok::<_, GameErrorV>((creature_logs_view(logs@), p2 as int, k2 as int)),
                Err(e) => spec_turn_end(
                    conds@.map_values(
                        |p: (crate::types::ConditionID, crate::abilities::AppliedCondition)| (
                            p.0,
                            p.1@,
                        ),
                    ).skip(i as int),
                    buff,
                    base as int,
                    tape@,
                    pos as int,
                    k as int,
                ) == Err::<(Seq<crate::logs::CreatureLogV>, int, int), GameErrorV>(e@),
            },
        decreases conds@.len() - i,
    {
        let ghost cv = conds@.map_values(
            |p: (crate::types::ConditionID, crate::abilities::AppliedCondition)| (p.0, p.1@),
        );
        if i == conds.len() {
            proof {
                assert(cv.skip(i as int).len() == 0);
                assert(creature_logs_view(Seq::<crate::logs::CreatureLog>::empty())
                    =~= Seq::<crate::logs::CreatureLogV>::empty());
            }
            let empty: Vec<crate::logs::CreatureLog> = Vec::new();
            proof {
                assert(creature_logs_view(empty@) =~= Seq::<crate::logs::CreatureLogV>::empty());
            }
            return Ok((empty, pos, k));
        }
        proof {
            assert(cv.skip(i as int)[0] == cv[i as int]);
            assert(cv.skip(i as int).drop_first() =~= cv.skip(i + 1));
        }
        let id = conds[i].0;
        let ac = &conds[i].1;
        let (mut out, pos1, k1) = match &ac.condition {
            crate::abilities::Condition::RecurringEffect(eff) => {
                let mut flat: Vec<crate::abilities::Effect> = Vec::new();
                proof {
                    assert(crate::abilities::effects_view(flat@)
                        =~= Seq::<crate::abilities::EffectV>::empty());
                }
                crate::abilities::flatten_effect_into(eff, &mut flat);
                proof {
                    assert(crate::abilities::effects_view(flat@)
                        =~= crate::abilities::spec_flatten_effect(eff@));
                }
                match resolve_effects(&flat, buff, base, tape, pos, k) {
                    Ok(t) => t,
                    Err(e) => {
                        return Err(e);
                    },
                }
            },
            _ => {
                let empty: Vec<crate::logs::CreatureLog> = Vec::new();
                proof {
                    assert(creature_logs_view(empty@)
                        =~= Seq::<crate::logs::CreatureLogV>::empty());
                }
                (empty, pos, k)
            },
        };
        let ghost rl = creature_logs_view(out@);
        match ac.remaining {
            crate::types::ConditionDuration::Interminate => {},
            crate::types::ConditionDuration::Duration(n) => {
                if n == 0 {
                    out.push(crate::logs::CreatureLog::RemoveCondition(id));
                } else if n == 1 {
                    out.push(crate::logs::CreatureLog::DecrementConditionRemaining(id));
                    out.push(crate::logs::CreatureLog::RemoveCondition(id));
                } else {
                    out.push(crate::logs::CreatureLog::DecrementConditionRemaining(id));
                }
            },
        }
        let ghost dl = match cv[i as int].1.remaining {
            crate::types::ConditionDuration::Interminate => Seq::<
                crate::logs::CreatureLogV,
            >::empty(),
            crate::types::ConditionDuration::Duration(n) => if n == 0 {
                seq![crate::logs::CreatureLogV::RemoveCondition(id)]
            } else if n == 1 {
                seq![
                    crate::logs::CreatureLogV::DecrementConditionRemaining(id),
                    crate::logs::CreatureLogV::RemoveCondition(id),
                ]
            } else {
                seq![crate::logs::CreatureLogV::DecrementConditionRemaining(id)]
            },
        };
        proof {
            assert(creature_logs_view(out@) =~= rl + dl);
        }
        let (rest, pos2, k2) = match Self::turn_end_logs(conds, i + 1, buff, base, tape, pos1, k1) {
            Ok(t) => t,
            Err(e) => {
                return Err(e);
            },
        };
        let ghost pre = creature_logs_view(out@);
        proof {
            assert(creature_logs_view(out@).take(pre.len() as int) =~= pre);
        }
        let mut j: usize = 0;
        while j < rest.len()
            invariant
                j <= rest@.len(),
                out@.len() == pre.len() + j,
                pre == creature_logs_view(out@).take(pre.len() as int),
                forall|m: int| 0 <= m < j ==> (#[trigger] out@[pre.len() + m])@ == rest@[m]@,
                forall|m: int| 0 <= m < pre.len() ==> (#[trigger] out@[m])@ == pre[m],
            decreases rest@.len() - j,
        {
            out.push(crate::logs::copy_creature_log(&rest[j]));
            j = j + 1;
        }
        proof {
            let rv = creature_logs_view(rest@);
            assert(creature_logs_view(out@).len() == pre.len() + rv.len());
            assert forall|m: int| 0 <= m < out@.len() implies #[trigger] creature_logs_view(
                out@,
            )[m] == ((rl + dl) + rv)[m] by {
                if m < pre.len() {
                    assert(out@[m]@ == pre[m]);
                } else {
                    assert(out@[pre.len() + (m - pre.len())]@ == rest@[m - pre.len()]@);
                    assert(rv[m - pre.len()] == rest@[m - pre.len()]@);
                }
            }
            assert(creature_logs_view(out@) =~= (rl + dl) + rv);
            match spec_turn_end(cv.skip(i + 1), buff, base as int, tape@, pos1 as int, k1 as int) {
                Ok((restv, _p, _k)) => {
                    assert((rl + dl) + restv =~= rl + dl + restv);
                },
                Err(_) => {},
            }
        }
        Ok((out, pos2, k2))
    }

    /// Ending the current creature's turn; see [`spec_gen_done`].
    #[verifier::rlimit(100)]
    #[verifier::spinoff_prover]
    fn gen_done(&self, tape: &Vec<u8>) -> (r: Result<Vec<GameLog>, GameError>)
        ensures
            match r {
                Ok(logs) => spec_gen_done(self@, tape@) == Ok::<Seq<GameLogV>, GameErrorV>(
                    game_logs_view(logs@),
                ),
                Err(e) => spec_gen_done(self@, tape@) == Err::<Seq<GameLogV>, GameErrorV>(e@),
            },
    {
        let cb = match &self.current_combat {
            None => {
                return Err(GameError::NotInCombat);
            },
            Some(cb) => cb,
        };
        if !(cb.cursor < cb.creatures.len()) {
            return Err(
                GameError::BuggyProgram("the initiative cursor ran off the order".to_string()),
            );
        }
        let cid = cb.creatures[cb.cursor];
        let ci = match find_creature(&self.creatures, cid) {
            Some(ci) => ci,
            None => {
                return Err(GameError::CreatureNotFound(cid.to_string()));
            },
        };
        let creature = &self.creatures[ci];
        let base = match creature.next_condition_id() {
            Some(b) => b,
            None => {
                return Err(GameError::BuggyProgram("condition ids exhausted".to_string()));
            },
        };
        let buff = creature.damage_buff();
        proof {
            assert(creature@.conditions.skip(0) =~= creature@.conditions);
        }
        let (clogs, _p, _k) = match Self::turn_end_logs(
            &creature.conditions,
            0,
            buff,
            base,
            tape,
            0,
            0,
        ) {
            Ok(t) => t,
            Err(e) => {
                return Err(e);
            },
        };
        let mapped = crate::logs::creature_logs_into_game_logs(cid, clogs);
        let mut out = mapped;
        out.push(GameLog::CombatLog(crate::logs::CombatLog::EndTurn(cid)));
        proof {
            let clv = creature_logs_view(clogs@);
            let expected = clv.map_values(
                |cl: crate::logs::CreatureLogV| GameLogV::CreatureLog(cid, cl),
            ) + seq![GameLogV::CombatLog(crate::logs::CombatLog::EndTurn(cid))];
            assert(game_logs_view(out@) =~= expected);
        }
        Ok(out)
    }
}

} // verus!

verus! {

/// A fresh copy of an ability, equal in the model.
pub fn copy_ability(a: &Ability) -> (r: Ability)
    ensures
        r@ == a@,
{
    let mut effects: Vec<crate::abilities::Effect> = Vec::new();
    let mut i: usize = 0;
    while i < a.effects.len()
        invariant
            i <= a.effects.len(),
            effects@.len() == i,
            forall|j: int| 0 <= j < i ==> (#[trigger] effects@[j])@ == a.effects@[j]@,
        decreases a.effects.len() - i,
    {
        effects.push(crate::abilities::copy_effect(&a.effects[i]));
        i = i + 1;
    }
    let r = Ability {
        name: a.name.clone(),
        target: a.target,
        cost: a.cost,
        effects,
        usable_ooc: a.usable_ooc,
    };
    proof {
        assert(crate::abilities::effects_view(r.effects@) =~= crate::abilities::effects_view(
            a.effects@,
        )) by {
            crate::abilities::lemma_effects_view_len(r.effects@);
            crate::abilities::lemma_effects_view_len(a.effects@);
            assert forall|j: int| 0 <= j < a.effects@.len() implies #[trigger]
                crate::abilities::effects_view(r.effects@)[j] == crate::abilities::effects_view(
                a.effects@,
            )[j] by {
                crate::abilities::lemma_effects_view_index(r.effects@, j);
                crate::abilities::lemma_effects_view_index(a.effects@, j);
            }
        }
    }
    r
}

/// A fresh copy of a class, equal in the model.
pub fn copy_class(c: &Class) -> (r: Class)
    ensures
        r@ == c@,
{
    let mut abilities: Vec<AbilityID> = Vec::new();
    let mut i: usize = 0;
    while i < c.abilities.len()
        invariant
            i <= c.abilities.len(),
            abilities@.len() == i,
            forall|j: int| 0 <= j < i ==> (#[trigger] abilities@[j])@ == c.abilities@[j]@,
        decreases c.abilities.len() - i,
    {
        abilities.push(c.abilities[i].dup());
        i = i + 1;
    }
    let mut conditions: Vec<crate::abilities::Condition> = Vec::new();
    let mut k: usize = 0;
    while k < c.conditions.len()
        invariant
            k <= c.conditions.len(),
            conditions@.len() == k,
            forall|j: int| 0 <= j < k ==> (#[trigger] conditions@[j])@ == c.conditions@[j]@,
        decreases c.conditions.len() - k,
    {
        conditions.push(crate::abilities::copy_condition(&c.conditions[k]));
        k = k + 1;
    }
    let r = Class { abilities, conditions, color: c.color.clone() };
    proof {
        assert(r@.abilities =~= c@.abilities);
        assert(crate::abilities::conditions_view(r.conditions@)
            =~= crate::abilities::conditions_view(c.conditions@)) by {
            crate::abilities::lemma_conditions_view_len(r.conditions@);
            crate::abilities::lemma_conditions_view_len(c.conditions@);
            assert forall|j: int| 0 <= j < c.conditions@.len() implies #[trigger]
                crate::abilities::conditions_view(r.conditions@)[j]
                == crate::abilities::conditions_view(c.conditions@)[j] by {
                crate::abilities::lemma_conditions_view_index(r.conditions@, j);
                crate::abilities::lemma_conditions_view_index(c.conditions@, j);
            }
        }
    }
    r
}

/// A fresh copy of a game, equal in the model.
pub fn copy_game(g: &Game) -> (r: Game)
    ensures
        r@ == g@,
{
    let current_combat = match &g.current_combat {
        Some(c) => Some(copy_combat(c)),
        None => None,
    };
    let mut abilities: Vec<(AbilityID, Ability)> = Vec::new();
    let mut i: usize = 0;
    while i < g.abilities.len()
        invariant
            i <= g.abilities.len(),
            abilities@.len() == i,
            forall|j: int| 0 <= j < i ==> (#[trigger] abilities@[j]).0@ == g.abilities@[j].0@
                && abilities@[j].1@ == g.abilities@[j].1@,
        decreases g.abilities.len() - i,
    {
        let e = &g.abilities[i];
        abilities.push((e.0.dup(), copy_ability(&e.1)));
        i = i + 1;
    }
    let mut creatures: Vec<Creature> = Vec::new();
    let mut k: usize = 0;
    while k < g.creatures.len()
        invariant
            k <= g.creatures.len(),
            creatures@.len() == k,
            forall|j: int| 0 <= j < k ==> (#[trigger] creatures@[j])@ == g.creatures@[j]@,
        decreases g.creatures.len() - k,
    {
        creatures.push(copy_creature(&g.creatures[k]));
        k = k + 1;
    }
    let mut maps: Vec<GameMap> = Vec::new();
    let mut m: usize = 0;
    while m < g.maps.len()
        invariant
            m <= g.maps.len(),
            maps@.len() == m,
            forall|j: int| 0 <= j < m ==> (#[trigger] maps@[j])@ == g.maps@[j]@,
        decreases g.maps.len() - m,
    {
        maps.push(copy_map(&g.maps[m]));
        m = m + 1;
    }
    let mut classes: Vec<(String, Class)> = Vec::new();
    let mut n: usize = 0;
    while n < g.classes.len()
        invariant
            n <= g.classes.len(),
            classes@.len() == n,
            forall|j: int| 0 <= j < n ==> (#[trigger] classes@[j]).0@ == g.classes@[j].0@
                && classes@[j].1@ == g.classes@[j].1@,
        decreases g.classes.len() - n,
    {
        let e = &g.classes[n];
        classes.push((e.0.clone(), copy_class(&e.1)));
        n = n + 1;
    }
    let mut scenes: Vec<Scene> = Vec::new();
    let mut q: usize = 0;
    while q < g.scenes.len()
        invariant
            q <= g.scenes.len(),
            scenes@.len() == q,
            forall|j: int| 0 <= j < q ==> (#[trigger] scenes@[j])@ == g.scenes@[j]@,
        decreases g.scenes.len() - q,
    {
        scenes.push(copy_scene(&g.scenes[q]));
        q = q + 1;
    }
    let mut campaign: Vec<(FolderPath, Folder)> = Vec::new();
    let mut w: usize = 0;
    while w < g.campaign.len()
        invariant
            w <= g.campaign.len(),
            campaign@.len() == w,
            forall|j: int| 0 <= j < w ==> (#[trigger] campaign@[j]).0@ == g.campaign@[j].0@
                && campaign@[j].1@ == g.campaign@[j].1@,
        decreases g.campaign.len() - w,
    {
        let e = &g.campaign[w];
        campaign.push((e.0.dup(), copy_folder(&e.1)));
        w = w + 1;
    }
    let r = Game {
        current_combat,
        abilities,
        creatures,
        maps,
        classes,
        tile_system: g.tile_system,
        scenes,
        campaign,
    };
    proof {
        assert(r@.abilities =~= g@.abilities);
        assert(r@.creatures =~= g@.creatures);
        assert(r@.maps =~= g@.maps);
        assert(r@.classes =~= g@.classes);
        assert(r@.scenes =~= g@.scenes);
        assert(r@.campaign =~= g@.campaign);
    }
    r
}

impl Game {
    /// The ordered logs a command produces, given a fresh identifier and
    /// the drawn randomness; see [`spec_gen_logs`].
    #[verifier::rlimit(100)]
    #[verifier::spinoff_prover]
    pub fn gen_logs(&self, cmd: &crate::command::GameCommand, fresh: u128, tape: &Vec<u8>) -> (r:
        Result<Vec<GameLog>, GameError>)
        ensures
            match r {
                Ok(logs) => spec_gen_logs(self@, cmd@, fresh, tape@) == Ok::<
                    Seq<GameLogV>,
                    GameErrorV,
                >(game_logs_view(logs@)),
                Err(e) => spec_gen_logs(self@, cmd@, fresh, tape@) == Err::<
                    Seq<GameLogV>,
                    GameErrorV,
                >(e@),
            },
    {
        match cmd {
            crate::command::GameCommand::SimpleAttributeCheck(cid, attr, lvl) => {
                match find_creature(&self.creatures, *cid) {
                    None => Err(GameError::CreatureNotFound(cid.to_string())),
                    Some(ci) => {
                        match self.creatures[ci].attr_level(attr) {
                            None => Err(GameError::AttributeNotFound(*cid, attr.dup())),
                            Some(level) => {
                                let success = level.to_ord() >= lvl.to_ord();
                                Ok(
                                    one_log(
                                        GameLog::SimpleAttributeCheckResult(
                                            *cid,
                                            attr.dup(),
                                            *lvl,
                                            success,
                                        ),
                                    ),
                                )
                            },
                        }
                    },
                }
            },
            crate::command::GameCommand::RandomAttributeCheck(cid, attr, lvl) => {
                match find_creature(&self.creatures, *cid) {
                    None => Err(GameError::CreatureNotFound(cid.to_string())),
                    Some(ci) => {
                        match self.creatures[ci].attr_level(attr) {
                            None => Err(GameError::AttributeNotFound(*cid, attr.dup())),
                            Some(level) => {
                                if tape.len() < 1 || tape[0] >= 100 {
                                    return Err(
                                        GameError::BuggyProgram(
                                            "the drawn percentile is missing or off".to_string(),
                                        ),
                                    );
                                }
                                let percent = level.challenge(*lvl);
                                let success = tape[0] < percent;
                                Ok(
                                    one_log(
                                        GameLog::RandomAttributeCheckResult(
                                            *cid,
                                            attr.dup(),
                                            *lvl,
                                            tape[0],
                                            success,
                                        ),
                                    ),
                                )
                            },
                        }
                    },
                }
            },
            crate::command::GameCommand::CreateFolder(p) => Ok(
                one_log(GameLog::CreateFolder(p.dup())),
            ),
            crate::command::GameCommand::RenameFolder(p, n) => Ok(
                one_log(GameLog::RenameFolder(p.dup(), n.clone())),
            ),
            crate::command::GameCommand::DeleteFolder(p) => Ok(
                one_log(GameLog::DeleteFolder(p.dup())),
            ),
            crate::command::GameCommand::MoveFolderItem(a, it, b) => Ok(
                one_log(
                    GameLog::MoveFolderItem(
                        a.dup(),
                        crate::folder::copy_folder_item_id(it),
                        b.dup(),
                    ),
                ),
            ),
            crate::command::GameCommand::CreateNote(p, n) => Ok(
                one_log(GameLog::CreateNote(p.dup(), copy_note(n))),
            ),
            crate::command::GameCommand::EditNote(p, name, n) => Ok(
                one_log(GameLog::EditNote(p.dup(), name.clone(), copy_note(n))),
            ),
            crate::command::GameCommand::DeleteNote(p, name) => Ok(
                one_log(GameLog::DeleteNote(p.dup(), name.clone())),
            ),
            crate::command::GameCommand::CreateScene(p, sc) => {
                if find_map(&self.maps, sc.map).is_none() {
                    return Err(GameError::MapNotFound(sc.map));
                }
                let scene = Scene::create_with_id(
                    SceneID(fresh),
                    crate::scene::SceneCreation { name: sc.name.clone(), map: sc.map },
                );
                Ok(one_log(GameLog::CreateScene(p.dup(), scene)))
            },
            crate::command::GameCommand::EditScene(s) => Ok(
                one_log(GameLog::EditScene(copy_scene(s))),
            ),
            crate::command::GameCommand::DeleteScene(sid) => Ok(
                one_log(GameLog::DeleteScene(*sid)),
            ),
            crate::command::GameCommand::CreateMap(p, mc) => {
                let map = GameMap::new_with_id(
                    MapID(fresh),
                    mc.name.clone(),
                    crate::types::copy_vec(&mc.terrain),
                );
                Ok(one_log(GameLog::CreateMap(p.dup(), map)))
            },
            crate::command::GameCommand::EditMap(m) => Ok(one_log(GameLog::EditMap(copy_map(m)))),
            crate::command::GameCommand::DeleteMap(mid) => Ok(one_log(GameLog::DeleteMap(*mid))),
            crate::command::GameCommand::StartCombat(sid, cids) => {
                if self.current_combat.is_some() {
                    return Err(GameError::InvalidCommand(crate::command::copy_command(cmd)));
                }
                if find_scene(&self.scenes, *sid).is_none() {
                    return Err(GameError::SceneNotFound(*sid));
                }
                if cids.len() == 0 {
                    return Err(GameError::CombatMustHaveCreatures);
                }
                Ok(one_log(GameLog::StartCombat(*sid, crate::types::copy_vec(cids))))
            },
            crate::command::GameCommand::StopCombat => Ok(one_log(GameLog::StopCombat)),
            crate::command::GameCommand::AddCreatureToCombat(cid) => {
                if find_creature(&self.creatures, *cid).is_none() {
                    return Err(GameError::CreatureNotFound(cid.to_string()));
                }
                Ok(one_log(GameLog::AddCreatureToCombat(*cid)))
            },
            crate::command::GameCommand::RemoveCreatureFromCombat(cid) => Ok(
                one_log(GameLog::RemoveCreatureFromCombat(*cid)),
            ),
            crate::command::GameCommand::ActCreature(sid, cid, abid, t) => {
                let in_combat = self.current_combat.is_some();
                self.gen_act(cmd, *sid, *cid, abid, *t, in_combat, tape)
            },
            crate::command::GameCommand::CombatAct(abid, t) => {
                match &self.current_combat {
                    None => Err(GameError::NotInCombat),
                    Some(cb) => {
                        if !(cb.cursor < cb.creatures.len()) {
                            return Err(
                                GameError::BuggyProgram(
                                    "the initiative cursor ran off the order".to_string(),
                                ),
                            );
                        }
                        let actor = cb.creatures[cb.cursor];
                        let scene = cb.scene;
                        self.gen_act(cmd, scene, actor, abid, *t, true, tape)
                    },
                }
            },
            crate::command::GameCommand::PathCurrentCombatCreature(pt) => self.gen_path_combat(
                *pt,
                tape,
            ),
            crate::command::GameCommand::Done => self.gen_done(tape),
            crate::command::GameCommand::ChangeCreatureInitiative(cid, idx) => Ok(
                one_log(
                    GameLog::CombatLog(
                        crate::logs::CombatLog::ChangeCreatureInitiative(*cid, *idx),
                    ),
                ),
            ),
            crate::command::GameCommand::CreateCreature(p, cc) => {
                match find_class(&self.classes, &cc.class) {
                    None => Err(GameError::ClassNotFound(cc.class.clone())),
                    Some(ci) => {
                        proof {
                            lemma_named_index(
                                self.classes@.map_values(|e: (String, Class)| (e.0@, e.1@)),
                                cc.class@,
                            );
                        }
                        let creature = build_creature(
                            CreatureID(fresh),
                            cc,
                            &self.classes[ci].1,
                        );
                        Ok(one_log(GameLog::CreateCreature(p.dup(), creature)))
                    },
                }
            },
            crate::command::GameCommand::EditCreature(c) => Ok(
                one_log(GameLog::EditCreature(copy_creature(c))),
            ),
            crate::command::GameCommand::SetCreaturePos(sid, cid, pt) => Ok(
                one_log(GameLog::SetCreaturePos(*sid, *cid, *pt)),
            ),
            crate::command::GameCommand::PathCreature(sid, cid, pt) => self.gen_path(
                *sid,
                *cid,
                *pt,
            ),
            crate::command::GameCommand::DeleteCreature(cid) => {
                let in_combat = match &self.current_combat {
                    Some(cb) => crate::combat::find_cid(&cb.creatures, *cid).is_some(),
                    None => false,
                };
                if in_combat {
                    return Err(GameError::InvalidCommand(crate::command::copy_command(cmd)));
                }
                Ok(one_log(GameLog::DeleteCreature(*cid)))
            },
            crate::command::GameCommand::RegisterPlayer(_)
            | crate::command::GameCommand::GiveCreaturesToPlayer(_, _)
            | crate::command::GameCommand::UnregisterPlayer(_)
            | crate::command::GameCommand::RemoveCreaturesFromPlayer(_, _)
            | crate::command::GameCommand::SetPlayerScene(_, _)
            | crate::command::GameCommand::Rollback(_, _) => Err(
                GameError::InvalidCommand(crate::command::copy_command(cmd)),
            ),
        }
    }

    /// Moving the current combat creature; see [`spec_gen_path_combat`].
    #[verifier::rlimit(100)]
    #[verifier::spinoff_prover]
    fn gen_path_combat(&self, pt: crate::types::Point3, tape: &Vec<u8>) -> (r: Result<
        Vec<GameLog>,
        GameError,
    >)
        ensures
            match r {
                Ok(logs) => spec_gen_path_combat(self@, pt, tape@) == Ok::<
                    Seq<GameLogV>,
                    GameErrorV,
                >(game_logs_view(logs@)),
                Err(e) => spec_gen_path_combat(self@, pt, tape@) == Err::<
                    Seq<GameLogV>,
                    GameErrorV,
                >(e@),
            },
    {
        let cb = match &self.current_combat {
            None => {
                return Err(GameError::NotInCombat);
            },
            Some(cb) => cb,
        };
        if !(cb.cursor < cb.creatures.len()) {
            return Err(
                GameError::BuggyProgram("the initiative cursor ran off the order".to_string()),
            );
        }
        let cid = cb.creatures[cb.cursor];
        let ci = match find_creature(&self.creatures, cid) {
            Some(ci) => ci,
            None => {
                return Err(GameError::CreatureNotFound(cid.to_string()));
            },
        };
        let creature = &self.creatures[ci];
        if !creature.can_move() {
            return Err(GameError::CannotMove(cid));
        }
        let si = match find_scene(&self.scenes, cb.scene) {
            Some(si) => si,
            None => {
                return Err(GameError::SceneNotFound(cb.scene));
            },
        };
        let scene = &self.scenes[si];
        let pos = match scene.get_pos(cid) {
            Ok(p) => p,
            Err(e) => {
                return Err(e);
            },
        };
        let mi = match find_map(&self.maps, scene.map) {
            Some(mi) => mi,
            None => {
                return Err(GameError::MapNotFound(scene.map));
            },
        };
        if !self.maps[mi].is_open(&pt) {
            return Err(GameError::NoPathFound);
        }
        let cost = crate::scene::point_distance(pos, pt, self.tile_system);
        let budget = creature.speed();
        if cb.movement_used.0 as u64 + cost.0 as u64 > budget.0 as u64 {
            return Err(GameError::CannotMove(cid));
        }
        let mut path: Vec<crate::types::Point3> = Vec::new();
        path.push(pos);
        path.push(pt);
        let mut out: Vec<GameLog> = Vec::new();
        out.push(GameLog::PathCreature(cb.scene, cid, path));
        out.push(
            GameLog::CombatLog(crate::logs::CombatLog::ConsumeMovement(cost)),
        );
        proof {
            assert(out@[0]@ == GameLogV::PathCreature(cb.scene, cid, seq![pos, pt])) by {
                assert(out@[0]->PathCreature_2@ =~= seq![pos, pt]);
            }
            assert(game_logs_view(out@) =~= seq![
                GameLogV::PathCreature(cb.scene, cid, seq![pos, pt]),
                GameLogV::CombatLog(
                    crate::logs::CombatLog::ConsumeMovement(
                        crate::types::Distance(
                            crate::scene::spec_point_distance(pos, pt, self.tile_system) as u32,
                        ),
                    ),
                ),
            ]);
        }
        Ok(out)
    }

    /// Moving a creature in a scene outside combat; see [`spec_gen_path`].
    #[verifier::rlimit(100)]
    #[verifier::spinoff_prover]
    fn gen_path(&self, sid: SceneID, cid: CreatureID, pt: crate::types::Point3) -> (r: Result<
        Vec<GameLog>,
        GameError,
    >)
        ensures
            match r {
                Ok(logs) => spec_gen_path(self@, sid, cid, pt) == Ok::<Seq<GameLogV>, GameErrorV>(
                    game_logs_view(logs@),
                ),
                Err(e) => spec_gen_path(self@, sid, cid, pt) == Err::<Seq<GameLogV>, GameErrorV>(
                    e@,
                ),
            },
    {
        let si = match find_scene(&self.scenes, sid) {
            Some(si) => si,
            None => {
                return Err(GameError::SceneNotFound(sid));
            },
        };
        let ci = match find_creature(&self.creatures, cid) {
            Some(ci) => ci,
            None => {
                return Err(GameError::CreatureNotFound(cid.to_string()));
            },
        };
        let creature = &self.creatures[ci];
        if !creature.can_move() {
            return Err(GameError::CannotMove(cid));
        }
        let scene = &self.scenes[si];
        let pos = match scene.get_pos(cid) {
            Ok(p) => p,
            Err(e) => {
                return Err(e);
            },
        };
        let mi = match find_map(&self.maps, scene.map) {
            Some(mi) => mi,
            None => {
                return Err(GameError::MapNotFound(scene.map));
            },
        };
        if !self.maps[mi].is_open(&pt) {
            return Err(GameError::NoPathFound);
        }
        let cost = crate::scene::point_distance(pos, pt, self.tile_system);
        let budget = creature.speed();
        if cost.0 as u64 > budget.0 as u64 {
            return Err(GameError::CannotMove(cid));
        }
        let mut path: Vec<crate::types::Point3> = Vec::new();
        path.push(pos);
        path.push(pt);
        let mut out: Vec<GameLog> = Vec::new();
        out.push(GameLog::PathCreature(sid, cid, path));
        proof {
            assert(out@[0]@ == GameLogV::PathCreature(sid, cid, seq![pos, pt])) by {
                assert(out@[0]->PathCreature_2@ =~= seq![pos, pt]);
            }
            assert(game_logs_view(out@) =~= seq![GameLogV::PathCreature(sid, cid, seq![pos, pt])]);
        }
        Ok(out)
    }

    /// Executes a command deterministically: validates it, produces the
    /// ordered logs, and folds them into the next game. The whole outcome
    /// is exactly [`spec_execute`] of the inputs — a pure function of the
    /// state, the command, the fresh identifier and the drawn randomness.
    pub fn execute_command(
        &self,
        cmd: &crate::command::GameCommand,
        fresh: u128,
        tape: &Vec<u8>,
    ) -> (r: Result<(Game, Vec<GameLog>), GameError>)
        ensures
            match r {
                Ok((g2, logs)) => spec_execute(self@, cmd@, fresh, tape@) == Ok::<
                    (GameV, Seq<GameLogV>),
                    GameErrorV,
                >((g2@, game_logs_view(logs@))),
                Err(e) => spec_execute(self@, cmd@, fresh, tape@) == Err::<
                    (GameV, Seq<GameLogV>),
                    GameErrorV,
                >(e@),
            },
    {
        let logs = match self.gen_logs(cmd, fresh, tape) {
            Ok(logs) => logs,
            Err(e) => {
                return Err(e);
            },
        };
        let g2 = match copy_game(self).apply_logs(&logs) {
            Ok(g2) => g2,
            Err(e) => {
                return Err(e);
            },
        };
        Ok((g2, logs))
    }
}

} // verus!

verus! {

/// One `(low, high)` draw bound per die of every damage or heal effect
/// in a flattened effect list, in resolution order. A die with no faces
/// is a malformed catalog entry, reported as an internal defect.
pub open spec fn spec_dice_plan(effs: Seq<crate::abilities::EffectV>) -> Result<
    Seq<(u8, u8)>,
    GameErrorV,
>
    decreases effs.len(),
{
    if effs.len() == 0 {
        Ok(Seq::empty())
    } else {
        let head: Result<Seq<(u8, u8)>, GameErrorV> = match effs[0] {
            crate::abilities::EffectV::Damage(d) => if d.size == 0 {
                Err(GameErrorV::BuggyProgram("a die with no faces"@))
            } else {
                Ok(Seq::new(d.num as nat, |t: int| (1u8, d.size)))
            },
            crate::abilities::EffectV::Heal(d) => if d.size == 0 {
                Err(GameErrorV::BuggyProgram("a die with no faces"@))
            } else {
                Ok(Seq::new(d.num as nat, |t: int| (1u8, d.size)))
            },
            _ => Ok(Seq::empty()),
        };
        match head {
            Err(e) => Err(e),
            Ok(h) => match spec_dice_plan(effs.drop_first()) {
                Ok(rest) => Ok(h + rest),
                Err(e) => Err(e),
            },
        }
    }
}

/// The draw bounds for the recurring effects of a condition list, in
/// turn-end order.
pub open spec fn spec_turn_plan(
    conds: Seq<(crate::types::ConditionID, crate::abilities::AppliedConditionV)>,
) -> Result<Seq<(u8, u8)>, GameErrorV>
    decreases conds.len(),
{
    if conds.len() == 0 {
        Ok(Seq::empty())
    } else {
        let head: Result<Seq<(u8, u8)>, GameErrorV> = match conds[0].1.condition {
            crate::abilities::ConditionV::RecurringEffect(eff) => spec_dice_plan(
                crate::abilities::spec_flatten_effect(*eff),
            ),
            _ => Ok(Seq::empty()),
        };
        match head {
            Err(e) => Err(e),
            Ok(h) => match spec_turn_plan(conds.drop_first()) {
                Ok(rest) => Ok(h + rest),
                Err(e) => Err(e),
            },
        }
    }
}

/// The bounds of every uniform draw a command will consume, in
/// consumption order; empty when the command's validation fails before a
/// draw is needed.
pub open spec fn spec_draw_plan(g: GameV, c: crate::command::GameCommandV) -> Result<
    Seq<(u8, u8)>,
    GameErrorV,
> {
    match c {
        crate::command::GameCommandV::RandomAttributeCheck(_, _, _) => Ok(seq![(0u8, 99u8)]),
        crate::command::GameCommandV::ActCreature(_, _, abid, _) => match spec_named_index(
            g.abilities,
            abid,
        ) {
            None => Ok(Seq::empty()),
            Some(abi) => spec_dice_plan(
                crate::abilities::spec_flatten_effects(g.abilities[abi].1.effects),
            ),
        },
        crate::command::GameCommandV::CombatAct(abid, _) => match spec_named_index(
            g.abilities,
            abid,
        ) {
            None => Ok(Seq::empty()),
            Some(abi) => spec_dice_plan(
                crate::abilities::spec_flatten_effects(g.abilities[abi].1.effects),
            ),
        },
        crate::command::GameCommandV::Done => match g.current_combat {
            None => Ok(Seq::empty()),
            Some(cb) => if !(cb.cursor < cb.creatures.len()) {
                Ok(Seq::empty())
            } else {
                match spec_creature_index(g.creatures, cb.creatures[cb.cursor as int]) {
                    None => Ok(Seq::empty()),
                    Some(ci) => spec_turn_plan(g.creatures[ci].conditions),
                }
            },
        },
        _ => Ok(Seq::empty()),
    }
}

/// Every drawn value lies within its planned bounds.
pub open spec fn tape_fits_plan(tape: Seq<u8>, plan: Seq<(u8, u8)>) -> bool {
    tape.len() == plan.len() && forall|i: int|
        0 <= i < plan.len() ==> (#[trigger] plan[i]).0 <= tape[i] <= plan[i].1
}

/// What an honestly drawn randomness tape looks like for a command: it
/// fits the command's draw plan, or is empty when the plan itself reports
/// a malformed catalog entry.
pub open spec fn plan_shaped(g: GameV, c: crate::command::GameCommandV, tape: Seq<u8>) -> bool {
    match spec_draw_plan(g, c) {
        Ok(plan) => tape_fits_plan(tape, plan),
        Err(_) => tape.len() == 0,
    }
}

/// The draw bounds of a flattened effect list from index `i` on; see
/// [`spec_dice_plan`].
#[verifier::rlimit(100)]
#[verifier::spinoff_prover]
fn dice_plan(effs: &Vec<crate::abilities::Effect>, i: usize) -> (r: Result<
    Vec<(u8, u8)>,
    GameError,
>)
    requires
        i <= effs@.len(),
    ensures
        match r {
            Ok(v) => spec_dice_plan(crate::abilities::effects_view(effs@).skip(i as int)) == Ok::<
                _,
                GameErrorV,
            >(v@) && (forall|j: int| 0 <= j < v@.len() ==> (#[trigger] v@[j]).0 <= v@[j].1),
            Err(e) => spec_dice_plan(crate::abilities::effects_view(effs@).skip(i as int))
                == Err::<Seq<(u8, u8)>, GameErrorV>(e@),
        },
    decreases effs@.len() - i,
{
    let ghost ev = crate::abilities::effects_view(effs@);
    proof {
        crate::abilities::lemma_effects_view_len(effs@);
    }
    if i == effs.len() {
        proof {
            assert(ev.skip(i as int).len() == 0);
        }
        return Ok(Vec::new());
    }
    proof {
        assert(ev.skip(i as int)[0] == ev[i as int]);
        crate::abilities::lemma_effects_view_index(effs@, i as int);
        assert(ev.skip(i as int).drop_first() =~= ev.skip(i + 1));
    }
    let mut head: Vec<(u8, u8)> = Vec::new();
    match &effs[i] {
        crate::abilities::Effect::Damage(dice) | crate::abilities::Effect::Heal(dice) => {
            if dice.size == 0 {
                return Err(GameError::BuggyProgram("a die with no faces".to_string()));
            }
            let mut k: u8 = 0;
            while k < dice.num
                invariant
                    k <= dice.num,
                    dice.size >= 1,
                    head@ =~= Seq::new(k as nat, |t: int| (1u8, dice.size)),
                decreases dice.num - k,
            {
                head.push((1, dice.size));
                proof {
                    assert(head@ =~= Seq::new((k + 1) as nat, |t: int| (1u8, dice.size)));
                }
                k = k + 1;
            }
        },
        _ => {},
    }
    let ghost h = head@;
    let rest = match dice_plan(effs, i + 1) {
        Ok(rest) => rest,
        Err(e) => {
            return Err(e);
        },
    };
    let mut out = head;
    let mut j: usize = 0;
    while j < rest.len()
        invariant
            j <= rest@.len(),
            out@ =~= h + rest@.take(j as int),
        decreases rest@.len() - j,
    {
        out.push(rest[j]);
        proof {
            assert(out@ =~= h + rest@.take(j + 1));
        }
        j = j + 1;
    }
    proof {
        assert(rest@.take(rest@.len() as int) =~= rest@);
        assert(out@ =~= h + rest@);
    }
    Ok(out)
}

/// The draw bounds of a creature's per-turn condition bookkeeping from
/// index `i` on; see [`spec_turn_plan`].
#[verifier::rlimit(100)]
#[verifier::spinoff_prover]
fn turn_plan(
    conds: &Vec<(crate::types::ConditionID, crate::abilities::AppliedCondition)>,
    i: usize,
) -> (r: Result<Vec<(u8, u8)>, GameError>)
    requires
        i <= conds@.len(),
    ensures
        match r {
            Ok(v) => spec_turn_plan(
                conds@.map_values(
                    |p: (crate::types::ConditionID, crate::abilities::AppliedCondition)| (
                        p.0,
                        p.1@,
                    ),
                ).skip(i as int),
            ) == Ok::<_, GameErrorV>(v@) && (forall|j: int|
                0 <= j < v@.len() ==> (#[trigger] v@[j]).0 <= v@[j].1),
            Err(e) => spec_turn_plan(
                conds@.map_values(
                    |p: (crate::types::ConditionID, crate::abilities::AppliedCondition)| (
                        p.0,
                        p.1@,
                    ),
                ).skip(i as int),
            ) == Err::<Seq<(u8, u8)>, GameErrorV>(e@),
        },
    decreases conds@.len() - i,
{
    let ghost cv = conds@.map_values(
        |p: (crate::types::ConditionID, crate::abilities::AppliedCondition)| (p.0, p.1@),
    );
    if i == conds.len() {
        proof {
            assert(cv.skip(i as int).len() == 0);
        }
        return Ok(Vec::new());
    }
    proof {
        assert(cv.skip(i as int)[0] == cv[i as int]);
        assert(cv.skip(i as int).drop_first() =~= cv.skip(i + 1));
    }
    let head = match &conds[i].1.condition {
        crate::abilities::Condition::RecurringEffect(eff) => {
            let mut flat: Vec<crate::abilities::Effect> = Vec::new();
            proof {
                assert(crate::abilities::effects_view(flat@)
                    =~= Seq::<crate::abilities::EffectV>::empty());
            }
            crate::abilities::flatten_effect_into(eff, &mut flat);
            proof {
                assert(crate::abilities::effects_view(flat@)
                    =~= crate::abilities::spec_flatten_effect(eff@));
                assert(crate::abilities::effects_view(flat@).skip(0)
                    =~= crate::abilities::effects_view(flat@));
            }
            match dice_plan(&flat, 0) {
                Ok(v) => v,
                Err(e) => {
                    return Err(e);
                },
            }
        },
        _ => Vec::new(),
    };
    let ghost h = head@;
    let rest = match turn_plan(conds, i + 1) {
        Ok(rest) => rest,
        Err(e) => {
            return Err(e);
        },
    };
    let mut out = head;
    let mut j: usize = 0;
    while j < rest.len()
        invariant
            j <= rest@.len(),
            out@ =~= h + rest@.take(j as int),
        decreases rest@.len() - j,
    {
        out.push(rest[j]);
        proof {
            assert(out@ =~= h + rest@.take(j + 1));
        }
        j = j + 1;
    }
    proof {
        assert(rest@.take(rest@.len() as int) =~= rest@);
        assert(out@ =~= h + rest@);
    }
    Ok(out)
}

impl Game {
    /// The bounds of every uniform draw a command will consume, in
    /// consumption order; see [`spec_draw_plan`].
    #[verifier::rlimit(100)]
    #[verifier::spinoff_prover]
    fn draw_plan(&self, cmd: &crate::command::GameCommand) -> (r: Result<Vec<(u8, u8)>, GameError>)
        ensures
            match r {
                Ok(plan) => spec_draw_plan(self@, cmd@) == Ok::<_, GameErrorV>(plan@) && (forall|
                    j: int,
                |
                    0 <= j < plan@.len() ==> (#[trigger] plan@[j]).0 <= plan@[j].1),
                Err(e) => spec_draw_plan(self@, cmd@) == Err::<Seq<(u8, u8)>, GameErrorV>(e@),
            },
    {
        match cmd {
            crate::command::GameCommand::RandomAttributeCheck(_, _, _) => {
                let mut out: Vec<(u8, u8)> = Vec::new();
                out.push((0, 99));
                proof {
                    assert(out@ =~= seq![(0u8, 99u8)]);
                }
                Ok(out)
            },
            crate::command::GameCommand::ActCreature(_, _, abid, _)
            | crate::command::GameCommand::CombatAct(abid, _) => {
                match find_ability(&self.abilities, abid) {
                    None => Ok(Vec::new()),
                    Some(abi) => {
                        proof {
                            lemma_named_index(
                                self.abilities@.map_values(
                                    |p: (AbilityID, Ability)| (p.0@, p.1@),
                                ),
                                abid@,
                            );
                        }
                        let flat = crate::abilities::flatten_effects(
                            &self.abilities[abi].1.effects,
                        );
                        proof {
                            assert(crate::abilities::effects_view(flat@).skip(0)
                                =~= crate::abilities::effects_view(flat@));
                        }
                        dice_plan(&flat, 0)
                    },
                }
            },
            crate::command::GameCommand::Done => {
                match &self.current_combat {
                    None => Ok(Vec::new()),
                    Some(cb) => {
                        if !(cb.cursor < cb.creatures.len()) {
                            return Ok(Vec::new());
                        }
                        let cid = cb.creatures[cb.cursor];
                        match find_creature(&self.creatures, cid) {
                            None => Ok(Vec::new()),
                            Some(ci) => {
                                let creature = &self.creatures[ci];
                                proof {
                                    assert(creature@.conditions.skip(0) =~= creature@.conditions);
                                }
                                turn_plan(&creature.conditions, 0)
                            },
                        }
                    },
                }
            },
            _ => Ok(Vec::new()),
        }
    }

    /// Validates a command against the current state and executes it:
    /// randomness is drawn once, here, and its concrete outcome is
    /// embedded in the emitted logs, so the returned state is always the
    /// pure fold of the returned logs over the prior state, and the whole
    /// outcome matches [`spec_execute`] for the drawn values.
    pub fn perform_command(&self, cmd: &crate::command::GameCommand) -> (r: Result<
        (Game, Vec<GameLog>),
        GameError,
    >)
        ensures
            match r {
                Ok((g2, logs)) => spec_apply_logs(self@, game_logs_view(logs@)) == Ok::<
                    GameV,
                    GameErrorV,
                >(g2@) && (exists|fresh: u128, tape: Seq<u8>|
                    plan_shaped(self@, cmd@, tape) && spec_execute(self@, cmd@, fresh, tape)
                        == Ok::<(GameV, Seq<GameLogV>), GameErrorV>(
                        (g2@, game_logs_view(logs@)),
                    )),
                Err(e) => exists|fresh: u128, tape: Seq<u8>|
                    plan_shaped(self@, cmd@, tape) && spec_execute(self@, cmd@, fresh, tape)
                        == Err::<(GameV, Seq<GameLogV>), GameErrorV>(e@),
            },
    {
        let plan = match self.draw_plan(cmd) {
            Ok(plan) => plan,
            Err(_) => {
                // A malformed catalog entry; executing with no drawn
                // randomness reports the same internal defect.
                let tape: Vec<u8> = Vec::new();
                let fresh = crate::ids::gen_uuid();
                proof {
                    assert(plan_shaped(self@, cmd@, tape@));
                }
                return match self.execute_command(cmd, fresh, &tape) {
                    Ok((g2, logs)) => {
                        proof {
                            assert(plan_shaped(self@, cmd@, tape@) && spec_execute(
                                self@,
                                cmd@,
                                fresh,
                                tape@,
                            ) == Ok::<(GameV, Seq<GameLogV>), GameErrorV>(
                                (g2@, game_logs_view(logs@)),
                            ));
                        }
                        Ok((g2, logs))
                    },
                    Err(e2) => {
                        proof {
                            assert(plan_shaped(self@, cmd@, tape@) && spec_execute(
                                self@,
                                cmd@,
                                fresh,
                                tape@,
                            ) == Err::<(GameV, Seq<GameLogV>), GameErrorV>(e2@));
                        }
                        Err(e2)
                    },
                };
            },
        };
        let mut tape: Vec<u8> = Vec::new();
        let mut i: usize = 0;
        while i < plan.len()
            invariant
                i <= plan@.len(),
                tape@.len() == i,
                spec_draw_plan(self@, cmd@) == Ok::<_, GameErrorV>(plan@),
                forall|j: int| 0 <= j < plan@.len() ==> (#[trigger] plan@[j]).0 <= plan@[j].1,
                forall|j: int| 0 <= j < i ==> (#[trigger] plan@[j]).0 <= tape@[j] <= plan@[j].1,
            decreases plan.len() - i,
        {
            let (lo, hi) = plan[i];
            tape.push(crate::dice::sample_range(lo, hi));
            i = i + 1;
        }
        proof {
            assert(tape_fits_plan(tape@, plan@));
            assert(plan_shaped(self@, cmd@, tape@));
        }
        let fresh = crate::ids::gen_uuid();
        match self.execute_command(cmd, fresh, &tape) {
            Ok((g2, logs)) => {
                proof {
                    assert(plan_shaped(self@, cmd@, tape@) && spec_execute(
                        self@,
                        cmd@,
                        fresh,
                        tape@,
                    ) == Ok::<(GameV, Seq<GameLogV>), GameErrorV>(
                        (g2@, game_logs_view(logs@)),
                    ));
                }
                Ok((g2, logs))
            },
            Err(e) => {
                proof {
                    assert(plan_shaped(self@, cmd@, tape@) && spec_execute(
                        self@,
                        cmd@,
                        fresh,
                        tape@,
                    ) == Err::<(GameV, Seq<GameLogV>), GameErrorV>(e@));
                }
                Err(e)
            },
        }
    }
}

} // verus!

verus! {

/// The combat movement invariant: a movement command only ever succeeds
/// within the budget, so after the current creature moves, the movement
/// consumed this turn still does not exceed that creature's effective
/// speed; the initiative order and cursor are untouched.
pub proof fn lemma_movement_within_budget(g: GameV, pt: crate::types::Point3, tape: Seq<u8>)
    ensures
        match spec_gen_path_combat(g, pt, tape) {
            Ok(logs) => match spec_apply_logs(g, logs) {
                Ok(g2) => match (g.current_combat, g2.current_combat) {
                    (Some(c), Some(c2)) => c2.creatures == c.creatures && c2.cursor == c.cursor
                        && g2.creatures == g.creatures && (match spec_creature_index(
                        g2.creatures,
                        c2.creatures[c2.cursor as int],
                    ) {
                        Some(ci) => c2.movement_used.0 <= g2.creatures[ci].effective_speed(),
                        None => true,
                    }),
                    (Some(_), None) => false,
                    (None, _) => false,
                },
                Err(_) => true,
            },
            Err(_) => true,
        },
{
    match spec_gen_path_combat(g, pt, tape) {
        Ok(logs) => {
            let c = g.current_combat->Some_0;
            let cid = c.creatures[c.cursor as int];
            let ci = spec_creature_index(g.creatures, cid)->Some_0;
            let creature = g.creatures[ci];
            let si = spec_scene_table_index(g.scenes, c.scene)->Some_0;
            let pos = crate::scene::spec_scene_pos(g.scenes[si], cid)->Some_0;
            let cost = crate::scene::spec_point_distance(pos, pt, g.tile_system);
            assert(logs.len() == 2);
            assert(logs[0] == GameLogV::PathCreature(c.scene, cid, seq![pos, pt]));
            assert(logs[1] == GameLogV::CombatLog(
                crate::logs::CombatLog::ConsumeMovement(crate::types::Distance(cost as u32)),
            ));
            let l1 = logs.drop_first();
            assert(l1[0] == logs[1]);
            assert(l1.drop_first().len() == 0);
            assert(spec_apply_logs(g, logs) == (match spec_apply_log(g, logs[0]) {
                Ok(g1) => spec_apply_logs(g1, l1),
                Err(e) => Err::<GameV, GameErrorV>(e),
            }));
            match spec_apply_log(g, logs[0]) {
                Ok(g1) => {
                    assert(spec_apply_logs(g1, l1) == (match spec_apply_log(g1, logs[1]) {
                        Ok(g2) => spec_apply_logs(g2, l1.drop_first()),
                        Err(e) => Err::<GameV, GameErrorV>(e),
                    }));
                    assert(g1.current_combat == g.current_combat);
                    assert(g1.creatures == g.creatures);
                    match spec_apply_log(g1, logs[1]) {
                        Ok(g2) => {
                            assert(spec_apply_logs(g2, l1.drop_first()) == Ok::<
                                GameV,
                                GameErrorV,
                            >(g2));
                            assert(g2.creatures == g.creatures);
                            let c2 = g2.current_combat->Some_0;
                            assert(c2.creatures == c.creatures);
                            assert(c2.cursor == c.cursor);
                            assert(c.movement_used.0 + cost <= creature.effective_speed());
                            assert(c2.movement_used.0 == c.movement_used.0 + cost);
                        },
                        Err(_) => {},
                    }
                },
                Err(_) => {},
            }
        },
        Err(_) => {},
    }
}

} // verus!

verus! {

/// No entry of the log list is condition bookkeeping (a decrement or a
/// removal).
pub open spec fn no_bookkeeping_logs(logs: Seq<crate::logs::CreatureLogV>) -> bool {
    forall|i: int| 0 <= i < logs.len() ==> !((#[trigger] logs[i]) is DecrementConditionRemaining)
        && !(logs[i] is RemoveCondition)
}

/// No entry of the log list decrements or removes the given condition id.
pub open spec fn no_bookkeeping_for(
    logs: Seq<crate::logs::CreatureLogV>,
    id: crate::types::ConditionID,
) -> bool {
    forall|i: int| 0 <= i < logs.len() ==> (#[trigger] logs[i])
        != crate::logs::CreatureLogV::DecrementConditionRemaining(id) && logs[i]
        != crate::logs::CreatureLogV::RemoveCondition(id)
}

/// Membership in a concatenation is membership in either part.
pub proof fn lemma_contains_concat(
    a: Seq<crate::logs::CreatureLogV>,
    b: Seq<crate::logs::CreatureLogV>,
    x: crate::logs::CreatureLogV,
)
    ensures
        (a + b).contains(x) <==> a.contains(x) || b.contains(x),
{
    if a.contains(x) {
        let i = choose|i: int| 0 <= i < a.len() && a[i] == x;
        assert((a + b)[i] == x);
    }
    if b.contains(x) {
        let i = choose|i: int| 0 <= i < b.len() && b[i] == x;
        assert((a + b)[a.len() + i] == x);
    }
    if (a + b).contains(x) {
        let i = choose|i: int| 0 <= i < (a + b).len() && (a + b)[i] == x;
        if i < a.len() {
            assert(a[i] == x);
        } else {
            assert(b[i - a.len()] == x);
        }
    }
}

/// Resolving effects emits only damage, healing, energy and
/// condition-application entries: never a decrement or a removal.
pub proof fn lemma_resolve_no_bookkeeping(
    effs: Seq<crate::abilities::EffectV>,
    buff: u8,
    base: int,
    tape: Seq<u8>,
    pos: int,
    k: int,
)
    ensures
        match spec_resolve_effects(effs, buff, base, tape, pos, k) {
            Ok((logs, _p, _k)) => no_bookkeeping_logs(logs),
            Err(_) => true,
        },
    decreases effs.len(),
{
    if effs.len() > 0 {
        match effs[0] {
            crate::abilities::EffectV::Damage(dice) => {
                match spec_take_rolls(tape, pos, dice.num, dice.size) {
                    Ok((_vals, _sum)) => {
                        lemma_resolve_no_bookkeeping(
                            effs.drop_first(),
                            buff,
                            base,
                            tape,
                            pos + dice.num,
                            k,
                        );
                    },
                    Err(_) => {},
                }
            },
            crate::abilities::EffectV::Heal(dice) => {
                match spec_take_rolls(tape, pos, dice.num, dice.size) {
                    Ok((_vals, _sum)) => {
                        lemma_resolve_no_bookkeeping(
                            effs.drop_first(),
                            buff,
                            base,
                            tape,
                            pos + dice.num,
                            k,
                        );
                    },
                    Err(_) => {},
                }
            },
            crate::abilities::EffectV::GenerateEnergy(_) => {
                lemma_resolve_no_bookkeeping(effs.drop_first(), buff, base, tape, pos, k);
            },
            crate::abilities::EffectV::ApplyCondition(_, _) => {
                if base + k < usize::MAX {
                    lemma_resolve_no_bookkeeping(effs.drop_first(), buff, base, tape, pos, k + 1);
                }
            },
            crate::abilities::EffectV::MultiEffect(_) => {},
        }
    }
}

/// Ending a turn never touches a condition id that the creature does not
/// hold: no decrement or removal for a foreign id is ever emitted.
pub proof fn lemma_turn_end_foreign(
    conds: Seq<(crate::types::ConditionID, crate::abilities::AppliedConditionV)>,
    buff: u8,
    base: int,
    tape: Seq<u8>,
    pos: int,
    k: int,
    id: crate::types::ConditionID,
)
    requires
        forall|a: int| 0 <= a < conds.len() ==> (#[trigger] conds[a]).0 != id,
    ensures
        match spec_turn_end(conds, buff, base, tape, pos, k) {
            Ok((logs, _p, _k)) => no_bookkeeping_for(logs, id),
            Err(_) => true,
        },
    decreases conds.len(),
{
    if conds.len() > 0 {
        let (id0, ac) = conds[0];
        let rec: Result<(Seq<crate::logs::CreatureLogV>, int, int), GameErrorV> = match
            ac.condition {
            crate::abilities::ConditionV::RecurringEffect(eff) => spec_resolve_effects(
                crate::abilities::spec_flatten_effect(*eff),
                buff,
                base,
                tape,
                pos,
                k,
            ),
            _ => Ok((Seq::empty(), pos, k)),
        };
        match ac.condition {
            crate::abilities::ConditionV::RecurringEffect(eff) => {
                lemma_resolve_no_bookkeeping(
                    crate::abilities::spec_flatten_effect(*eff),
                    buff,
                    base,
                    tape,
                    pos,
                    k,
                );
            },
            _ => {},
        }
        match rec {
            Err(_) => {},
            Ok((rlogs, pos1, k1)) => {
                assert forall|a: int| 0 <= a < conds.drop_first().len() implies (
                #[trigger] conds.drop_first()[a]).0 != id by {
                    assert(conds.drop_first()[a] == conds[a + 1]);
                }
                lemma_turn_end_foreign(conds.drop_first(), buff, base, tape, pos1, k1, id);
                match spec_turn_end(conds.drop_first(), buff, base, tape, pos1, k1) {
                    Err(_) => {},
                    Ok((rest, _p2, _k2)) => {
                        assert(conds[0].0 != id);
                    },
                }
            },
        }
    }
}

/// The general form of condition expiry at turn end, for any surrounding
/// condition list with distinct condition ids: the turn-end transaction
/// emits a decrement for a timed condition exactly when it has at least
/// one turn remaining, emits its removal exactly when at most one turn
/// remained (decrement-to-zero and removal in the same transaction), and
/// emits neither for an indefinite condition.
pub proof fn lemma_turn_end_bookkeeping(
    conds: Seq<(crate::types::ConditionID, crate::abilities::AppliedConditionV)>,
    buff: u8,
    base: int,
    tape: Seq<u8>,
    pos: int,
    k: int,
    j: int,
)
    requires
        0 <= j < conds.len(),
        forall|a: int, b: int|
            #![trigger conds[a], conds[b]]
            0 <= a < b < conds.len() ==> conds[a].0 != conds[b].0,
    ensures
        match spec_turn_end(conds, buff, base, tape, pos, k) {
            Ok((logs, _p, _k)) => match conds[j].1.remaining {
                crate::types::ConditionDuration::Duration(n) => (logs.contains(
                    crate::logs::CreatureLogV::DecrementConditionRemaining(conds[j].0),
                ) <==> n >= 1) && (logs.contains(
                    crate::logs::CreatureLogV::RemoveCondition(conds[j].0),
                ) <==> n <= 1),
                crate::types::ConditionDuration::Interminate => !logs.contains(
                    crate::logs::CreatureLogV::DecrementConditionRemaining(conds[j].0),
                ) && !logs.contains(crate::logs::CreatureLogV::RemoveCondition(conds[j].0)),
            },
            Err(_) => true,
        },
    decreases conds.len(),
{
    let (id0, ac) = conds[0];
    let rec: Result<(Seq<crate::logs::CreatureLogV>, int, int), GameErrorV> = match ac.condition {
        crate::abilities::ConditionV::RecurringEffect(eff) => spec_resolve_effects(
            crate::abilities::spec_flatten_effect(*eff),
            buff,
            base,
            tape,
            pos,
            k,
        ),
        _ => Ok((Seq::empty(), pos, k)),
    };
    match ac.condition {
        crate::abilities::ConditionV::RecurringEffect(eff) => {
            lemma_resolve_no_bookkeeping(
                crate::abilities::spec_flatten_effect(*eff),
                buff,
                base,
                tape,
                pos,
                k,
            );
        },
        _ => {},
    }
    match rec {
        Err(_) => {},
        Ok((rlogs, pos1, k1)) => {
            let dlogs: Seq<crate::logs::CreatureLogV> = match ac.remaining {
                crate::types::ConditionDuration::Interminate => Seq::empty(),
                crate::types::ConditionDuration::Duration(n) => if n == 0 {
                    seq![crate::logs::CreatureLogV::RemoveCondition(id0)]
                } else if n == 1 {
                    seq![
                        crate::logs::CreatureLogV::DecrementConditionRemaining(id0),
                        crate::logs::CreatureLogV::RemoveCondition(id0),
                    ]
                } else {
                    seq![crate::logs::CreatureLogV::DecrementConditionRemaining(id0)]
                },
            };
            match spec_turn_end(conds.drop_first(), buff, base, tape, pos1, k1) {
                Err(_) => {},
                Ok((rest, _p2, _k2)) => {
                    let id = conds[j].0;
                    let decr = crate::logs::CreatureLogV::DecrementConditionRemaining(id);
                    let remv = crate::logs::CreatureLogV::RemoveCondition(id);
                    lemma_contains_concat(rlogs + dlogs, rest, decr);
                    lemma_contains_concat(rlogs, dlogs, decr);
                    lemma_contains_concat(rlogs + dlogs, rest, remv);
                    lemma_contains_concat(rlogs, dlogs, remv);
                    assert(!rlogs.contains(decr) && !rlogs.contains(remv)) by {
                        if rlogs.contains(decr) {
                            let i = choose|i: int| 0 <= i < rlogs.len() && rlogs[i] == decr;
                            assert(rlogs[i] is DecrementConditionRemaining);
                        }
                        if rlogs.contains(remv) {
                            let i = choose|i: int| 0 <= i < rlogs.len() && rlogs[i] == remv;
                            assert(rlogs[i] is RemoveCondition);
                        }
                    }
                    if j == 0 {
                        // The condition's own bookkeeping sits in `dlogs`;
                        // the rest of the list never touches its id.
                        assert forall|a: int| 0 <= a < conds.drop_first().len() implies (
                        #[trigger] conds.drop_first()[a]).0 != id by {
                            assert(conds.drop_first()[a] == conds[a + 1]);
                        }
                        lemma_turn_end_foreign(
                            conds.drop_first(),
                            buff,
                            base,
                            tape,
                            pos1,
                            k1,
                            id,
                        );
                        assert(!rest.contains(decr) && !rest.contains(remv)) by {
                            if rest.contains(decr) {
                                let i = choose|i: int| 0 <= i < rest.len() && rest[i] == decr;
                            }
                            if rest.contains(remv) {
                                let i = choose|i: int| 0 <= i < rest.len() && rest[i] == remv;
                            }
                        }
                        match ac.remaining {
                            crate::types::ConditionDuration::Interminate => {},
                            crate::types::ConditionDuration::Duration(n) => {
                                if n >= 1 {
                                    assert(dlogs[0] == decr);
                                }
                                if n == 0 {
                                    assert(dlogs[0] == remv);
                                } else if n == 1 {
                                    assert(dlogs[1] == remv);
                                }
                            },
                        }
                    } else {
                        // The condition's bookkeeping sits in `rest`; the
                        // head's entries carry a different id.
                        assert(conds[0].0 != id);
                        assert(!dlogs.contains(decr) && !dlogs.contains(remv)) by {
                            if dlogs.contains(decr) {
                                let i = choose|i: int| 0 <= i < dlogs.len() && dlogs[i] == decr;
                            }
                            if dlogs.contains(remv) {
                                let i = choose|i: int| 0 <= i < dlogs.len() && dlogs[i] == remv;
                            }
                        }
                        assert forall|a: int, b: int|
                            #![trigger conds.drop_first()[a], conds.drop_first()[b]]
                            0 <= a < b < conds.drop_first().len() implies conds.drop_first()[a].0
                            != conds.drop_first()[b].0 by {
                            assert(conds.drop_first()[a] == conds[a + 1]);
                            assert(conds.drop_first()[b] == conds[b + 1]);
                        }
                        assert(conds.drop_first()[j - 1] == conds[j]);
                        lemma_turn_end_bookkeeping(
                            conds.drop_first(),
                            buff,
                            base,
                            tape,
                            pos1,
                            k1,
                            j - 1,
                        );
                    }
                },
            }
        },
    }
}

} // verus!
