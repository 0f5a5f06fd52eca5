//! Scenes and maps: where creatures stand and what terrain is open.

use vstd::prelude::*;
use crate::error::{GameError, GameErrorV};
use crate::ids::{AttrID, CreatureID, MapID, SceneID};
use crate::skills::SkillLevel;
use crate::types::{Color, Distance, Point3, TileSystem, Visibility, copy_vec};

verus! {

/// A named attribute check a scene offers to its players.
#[derive(Clone, Debug)]
pub struct SkillCheck {
    pub random: bool,
    pub attr: AttrID,
    pub target: SkillLevel,
}

/// The mathematical model of a [`SkillCheck`].
pub struct SkillCheckV {
    pub random: bool,
    pub attr: Seq<char>,
    pub target: SkillLevel,
}

impl View for SkillCheck {
    type V = SkillCheckV;

    open spec fn view(&self) -> SkillCheckV {
        SkillCheckV { random: self.random, attr: self.attr@, target: self.target }
    }
}

/// What a client supplies to create a scene.
#[derive(Clone, Debug)]
pub struct SceneCreation {
    pub name: String,
    pub map: MapID,
}

/// The mathematical model of a [`SceneCreation`].
pub struct SceneCreationV {
    pub name: Seq<char>,
    pub map: MapID,
}

impl View for SceneCreation {
    type V = SceneCreationV;

    open spec fn view(&self) -> SceneCreationV {
        SceneCreationV { name: self.name@, map: self.map }
    }
}

/// A scene: a named stage bound to a map, placing creatures at positions.
#[derive(Clone, Debug)]
pub struct Scene {
    pub id: SceneID,
    pub name: String,
    pub map: MapID,
    pub creatures: Vec<(CreatureID, (Point3, Visibility))>,
    pub attribute_checks: Vec<(String, SkillCheck)>,
}

/// The mathematical model of a [`Scene`].
pub struct SceneV {
    pub id: SceneID,
    pub name: Seq<char>,
    pub map: MapID,
    pub creatures: Seq<(CreatureID, (Point3, Visibility))>,
    pub attribute_checks: Seq<(Seq<char>, SkillCheckV)>,
}

impl View for Scene {
    type V = SceneV;

    open spec fn view(&self) -> SceneV {
        SceneV {
            id: self.id,
            name: self.name@,
            map: self.map,
            creatures: self.creatures@,
            attribute_checks: self.attribute_checks@.map_values(
                |p: (String, SkillCheck)| (p.0@, p.1@),
            ),
        }
    }
}

/// The position of a creature in a scene: the first entry for the
/// creature, if any.
pub open spec fn spec_scene_pos(s: SceneV, cid: CreatureID) -> Option<Point3> {
    match spec_scene_index(s.creatures, cid) {
        Some(i) => Some(s.creatures[i].1.0),
        None => None,
    }
}

/// The index of a creature's entry in a scene's placement list.
pub open spec fn spec_scene_index(cs: Seq<(CreatureID, (Point3, Visibility))>, cid: CreatureID) -> Option<int>
    decreases cs.len(),
{
    if cs.len() == 0 {
        None
    } else if cs[0].0 == cid {
        Some(0)
    } else {
        match spec_scene_index(cs.drop_first(), cid) {
            Some(i) => Some(i + 1),
            None => None,
        }
    }
}

/// What the index lookup finds: the first entry for the creature.
pub proof fn lemma_scene_index(cs: Seq<(CreatureID, (Point3, Visibility))>, cid: CreatureID)
    ensures
        match spec_scene_index(cs, cid) {
            Some(i) => 0 <= i < cs.len() && cs[i].0 == cid,
            None => forall|i: int| 0 <= i < cs.len() ==> cs[i].0 != cid,
        },
    decreases cs.len(),
{
    if cs.len() > 0 && cs[0].0 != cid {
        lemma_scene_index(cs.drop_first(), cid);
        match spec_scene_index(cs.drop_first(), cid) {
            Some(i) => {
                assert(cs.drop_first()[i] == cs[i + 1]);
            },
            None => {
                assert forall|i: int| 0 <= i < cs.len() implies cs[i].0 != cid by {
                    if i > 0 {
                        assert(cs.drop_first()[i - 1] == cs[i]);
                    }
                }
            },
        }
    }
}

/// A fresh copy of a scene, equal in the model.
pub fn copy_scene(s: &Scene) -> (r: Scene)
    ensures
        r@ == s@,
{
    let mut checks: Vec<(String, SkillCheck)> = Vec::new();
    let mut i: usize = 0;
    while i < s.attribute_checks.len()
        invariant
            i <= s.attribute_checks.len(),
            checks@.len() == i,
            forall|j: int| 0 <= j < i ==> (#[trigger] checks@[j]).0@ == s.attribute_checks@[j].0@
                && checks@[j].1@ == s.attribute_checks@[j].1@,
        decreases s.attribute_checks.len() - i,
    {
        let entry = &s.attribute_checks[i];
        checks.push(
            (
                entry.0.clone(),
                SkillCheck { random: entry.1.random, attr: entry.1.attr.dup(), target: entry.1.target },
            ),
        );
        i = i + 1;
    }
    let r = Scene {
        id: s.id,
        name: s.name.clone(),
        map: s.map,
        creatures: copy_vec(&s.creatures),
        attribute_checks: checks,
    };
    proof {
        assert(r@.attribute_checks =~= s@.attribute_checks);
    }
    r
}

impl Scene {
    /// Builds a scene from a creation request and a freshly drawn
    /// identifier: no creatures placed, no attribute checks.
    pub fn create_with_id(id: SceneID, creation: SceneCreation) -> (r: Scene)
        ensures
            r@.id == id,
            r@.name == creation@.name,
            r@.map == creation@.map,
            r@.creatures == Seq::<(CreatureID, (Point3, Visibility))>::empty(),
            r@.attribute_checks == Seq::<(Seq<char>, SkillCheckV)>::empty(),
    {
        let r = Scene {
            id,
            name: creation.name,
            map: creation.map,
            creatures: Vec::new(),
            attribute_checks: Vec::new(),
        };
        proof {
            assert(r@.attribute_checks =~= Seq::<(Seq<char>, SkillCheckV)>::empty());
        }
        r
    }

    /// Builds a scene from a creation request, drawing a fresh random
    /// identifier.
    pub fn create(creation: SceneCreation) -> (r: Scene)
        ensures
            r@.name == creation@.name,
            r@.map == creation@.map,
            r@.creatures == Seq::<(CreatureID, (Point3, Visibility))>::empty(),
            r@.attribute_checks == Seq::<(Seq<char>, SkillCheckV)>::empty(),
    {
        Scene::create_with_id(SceneID::new(), creation)
    }

    /// The position of a creature in the scene, failing when the creature
    /// is not placed in it.
    pub fn get_pos(&self, creature_id: CreatureID) -> (r: Result<Point3, GameError>)
        ensures
            match r {
                Ok(p) => spec_scene_pos(self@, creature_id) == Some(p),
                Err(e) => spec_scene_pos(self@, creature_id) is None && e@
                    == GameErrorV::CreatureNotFound(uuid_text_of(creature_id)),
            },
    {
        match self.find_creature_index(creature_id) {
            Some(i) => Ok(self.creatures[i].1.0),
            None => Err(GameError::CreatureNotFound(creature_id.to_string())),
        }
    }

    /// The index of a creature's placement entry, if the creature is in
    /// the scene.
    pub fn find_creature_index(&self, cid: CreatureID) -> (r: Option<usize>)
        ensures
            match r {
                Some(i) => spec_scene_index(self@.creatures, cid) == Some(i as int) && i
                    < self.creatures@.len(),
                None => spec_scene_index(self@.creatures, cid) is None,
            },
    {
        let mut i: usize = 0;
        proof {
            assert(self@.creatures.skip(0) =~= self@.creatures);
        }
        while i < self.creatures.len()
            invariant
                i <= self.creatures.len(),
                forall|j: int| 0 <= j < i ==> self@.creatures[j].0 != cid,
                spec_scene_index(self@.creatures, cid) == match spec_scene_index(
                    self@.creatures.skip(i as int),
                    cid,
                ) {
                    Some(k) => Some(k + i),
                    None => None::<int>,
                },
            decreases self.creatures.len() - i,
        {
            proof {
                assert(self@.creatures.skip(i as int)[0] == self@.creatures[i as int]);
            }
            if self.creatures[i].0 == cid {
                return Some(i);
            }
            proof {
                assert(self@.creatures.skip(i as int).drop_first() =~= self@.creatures.skip(
                    i + 1,
                ));
            }
            i = i + 1;
        }
        proof {
            assert(self@.creatures.skip(i as int).len() == 0);
        }
        None
    }

    /// A copy of the scene with the creature moved to the given position;
    /// fails when the creature is not placed in the scene.
    pub fn set_pos(&self, cid: CreatureID, pt: Point3) -> (r: Result<Scene, GameError>)
        ensures
            match r {
                Ok(s2) => match spec_scene_index(self@.creatures, cid) {
                    Some(i) => s2@ == (SceneV {
                        creatures: self@.creatures.update(
                            i,
                            (cid, (pt, self@.creatures[i].1.1)),
                        ),
                        ..self@
                    }),
                    None => false,
                },
                Err(e) => spec_scene_index(self@.creatures, cid) is None && e@
                    == GameErrorV::CreatureNotFound(uuid_text_of(cid)),
            },
    {
        match self.find_creature_index(cid) {
            Some(i) => {
                proof {
                    lemma_scene_index(self@.creatures, cid);
                }
                let mut s2 = copy_scene(self);
                let vis = s2.creatures[i].1.1;
                s2.creatures.set(i, (cid, (pt, vis)));
                Ok(s2)
            },
            None => Err(GameError::CreatureNotFound(cid.to_string())),
        }
    }
}

/// The textual form of a creature identifier, as carried in "not found"
/// errors.
pub open spec fn uuid_text_of(cid: CreatureID) -> Seq<char> {
    crate::ids::uuid_text(cid.0)
}

/// What a client supplies to create a map.
#[derive(Clone, Debug)]
pub struct MapCreation {
    pub name: String,
    pub terrain: Vec<Point3>,
}

/// The mathematical model of a [`MapCreation`].
pub struct MapCreationV {
    pub name: Seq<char>,
    pub terrain: Seq<Point3>,
}

impl View for MapCreation {
    type V = MapCreationV;

    open spec fn view(&self) -> MapCreationV {
        MapCreationV { name: self.name@, terrain: self.terrain@ }
    }
}

/// A map: the open terrain tiles, plus decorated special tiles.
#[derive(Clone, Debug)]
pub struct GameMap {
    pub id: MapID,
    pub name: String,
    pub terrain: Vec<Point3>,
    pub specials: Vec<(Point3, Color, String, Visibility)>,
}

/// The mathematical model of a [`GameMap`].
pub struct GameMapV {
    pub id: MapID,
    pub name: Seq<char>,
    pub terrain: Seq<Point3>,
    pub specials: Seq<(Point3, Seq<char>, Seq<char>, Visibility)>,
}

impl View for GameMap {
    type V = GameMapV;

    open spec fn view(&self) -> GameMapV {
        GameMapV {
            id: self.id,
            name: self.name@,
            terrain: self.terrain@,
            specials: self.specials@.map_values(
                |p: (Point3, Color, String, Visibility)| (p.0, p.1@, p.2@, p.3),
            ),
        }
    }
}

/// A fresh copy of a map, equal in the model.
pub fn copy_map(m: &GameMap) -> (r: GameMap)
    ensures
        r@ == m@,
{
    let mut specials: Vec<(Point3, Color, String, Visibility)> = Vec::new();
    let mut i: usize = 0;
    while i < m.specials.len()
        invariant
            i <= m.specials.len(),
            specials@.len() == i,
            forall|j: int| 0 <= j < i ==> (#[trigger] specials@[j]).0 == m.specials@[j].0
                && specials@[j].1@ == m.specials@[j].1@ && specials@[j].2@ == m.specials@[j].2@
                && specials@[j].3 == m.specials@[j].3,
        decreases m.specials.len() - i,
    {
        let entry = &m.specials[i];
        specials.push((entry.0, entry.1.clone(), entry.2.clone(), entry.3));
        i = i + 1;
    }
    let r = GameMap {
        id: m.id,
        name: m.name.clone(),
        terrain: copy_vec(&m.terrain),
        specials,
    };
    proof {
        assert(r@.specials =~= m@.specials);
    }
    r
}

impl GameMap {
    /// Builds a map from its name and terrain and a freshly drawn
    /// identifier: no special tiles.
    pub fn new_with_id(id: MapID, name: String, terrain: Vec<Point3>) -> (r: GameMap)
        ensures
            r@.id == id,
            r@.name == name@,
            r@.terrain == terrain@,
            r@.specials == Seq::<(Point3, Seq<char>, Seq<char>, Visibility)>::empty(),
    {
        let r = GameMap { id, name, terrain, specials: Vec::new() };
        proof {
            assert(r@.specials =~= Seq::<(Point3, Seq<char>, Seq<char>, Visibility)>::empty());
        }
        r
    }

    /// Builds a map, drawing a fresh random identifier.
    pub fn new(name: String, terrain: Vec<Point3>) -> (r: GameMap)
        ensures
            r@.name == name@,
            r@.terrain == terrain@,
            r@.specials == Seq::<(Point3, Seq<char>, Seq<char>, Visibility)>::empty(),
    {
        GameMap::new_with_id(MapID::new(), name, terrain)
    }

    /// Builds a map from a creation request, drawing a fresh random
    /// identifier.
    pub fn create(c: MapCreation) -> (r: GameMap)
        ensures
            r@.name == c@.name,
            r@.terrain == c@.terrain,
            r@.specials == Seq::<(Point3, Seq<char>, Seq<char>, Visibility)>::empty(),
    {
        GameMap::new(c.name, c.terrain)
    }

    /// Whether a tile is open terrain on this map.
    pub fn is_open(&self, pt: &Point3) -> (r: bool)
        ensures
            r == self@.terrain.contains(*pt),
    {
        let mut i: usize = 0;
        while i < self.terrain.len()
            invariant
                i <= self.terrain.len(),
                forall|j: int| 0 <= j < i ==> self@.terrain[j] != *pt,
            decreases self.terrain.len() - i,
        {
            if self.terrain[i].0 == pt.0 && self.terrain[i].1 == pt.1 && self.terrain[i].2 == pt.2 {
                proof {
                    assert(self@.terrain[i as int] == *pt);
                }
                return true;
            }
            i = i + 1;
        }
        proof {
            assert(!self@.terrain.contains(*pt));
        }
        false
    }
}

/// The straight-line cost of stepping from `a` to `b`, in centimeters.
///
/// With sorted absolute deltas `d1 >= d2 >= d3` between the two points (in
/// tiles of 100 cm), the cost models the Euclidean diagonal: the `DnD`
/// system charges one tile per step whatever the direction, and the
/// `Realistic` system charges 141 for a two-axis diagonal and 158 for a
/// three-axis diagonal, per hundred.
pub open spec fn spec_point_distance(a: Point3, b: Point3, ts: TileSystem) -> int {
    let dx = if a.0 >= b.0 { a.0 - b.0 } else { b.0 - a.0 };
    let dy = if a.1 >= b.1 { a.1 - b.1 } else { b.1 - a.1 };
    let dz = if a.2 >= b.2 { a.2 - b.2 } else { b.2 - a.2 };
    let hi = if dx >= dy { if dx >= dz { dx } else { dz } } else if dy >= dz { dy } else { dz };
    let lo = if dx <= dy { if dx <= dz { dx } else { dz } } else if dy <= dz { dy } else { dz };
    let mid = dx + dy + dz - hi - lo;
    match ts {
        TileSystem::DnD => 100 * hi,
        TileSystem::Realistic => 100 * hi + 41 * mid + 17 * lo,
    }
}

/// The straight-line cost of stepping from `a` to `b`.
#[verifier::rlimit(50)]
pub fn point_distance(a: Point3, b: Point3, ts: TileSystem) -> (r: Distance)
    ensures
        r.0 == spec_point_distance(a, b, ts),
{
    let dx: i32 = if a.0 >= b.0 { a.0 as i32 - b.0 as i32 } else { b.0 as i32 - a.0 as i32 };
    let dy: i32 = if a.1 >= b.1 { a.1 as i32 - b.1 as i32 } else { b.1 as i32 - a.1 as i32 };
    let dz: i32 = if a.2 >= b.2 { a.2 as i32 - b.2 as i32 } else { b.2 as i32 - a.2 as i32 };
    let hi: i32 = if dx >= dy { if dx >= dz { dx } else { dz } } else if dy >= dz { dy } else { dz };
    let lo: i32 = if dx <= dy { if dx <= dz { dx } else { dz } } else if dy <= dz { dy } else { dz };
    let mid: i32 = dx + dy + dz - hi - lo;
    match ts {
        TileSystem::DnD => Distance((100 * hi) as u32),
        TileSystem::Realistic => Distance((100 * hi + 41 * mid + 17 * lo) as u32),
    }
}

} // verus!
