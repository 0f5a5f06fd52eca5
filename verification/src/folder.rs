//! The campaign folder hierarchy: a keyed tree of folders holding
//! references to scenes, creatures and maps, plus free-text notes.
//!
//! The tree is kept as an association list from paths to folders with a
//! well-formedness invariant: the root path is present, paths are unique,
//! and every non-root path's parent is present.

use vstd::prelude::*;
use crate::ids::{CreatureID, MapID, SceneID};

verus! {

/// A path of folder-name segments from the root.
#[derive(Clone, Debug)]
pub struct FolderPath(pub Vec<String>);

impl View for FolderPath {
    type V = Seq<Seq<char>>;

    open spec fn view(&self) -> Seq<Seq<char>> {
        self.0@.map_values(|s: String| s@)
    }
}

impl PartialEq for FolderPath {
    fn eq(&self, other: &Self) -> (r: bool) {
        if self.0.len() != other.0.len() {
            proof {
                assert(self@.len() == self.0@.len());
                assert(other@.len() == other.0@.len());
            }
            return false;
        }
        let mut i: usize = 0;
        while i < self.0.len()
            invariant
                i <= self.0.len(),
                self.0.len() == other.0.len(),
                forall|j: int| 0 <= j < i ==> self@[j] == other@[j],
            decreases self.0.len() - i,
        {
            if self.0[i] != other.0[i] {
                proof {
                    assert(self@[i as int] == self.0@[i as int]@);
                    assert(other@[i as int] == other.0@[i as int]@);
                }
                return false;
            }
            i = i + 1;
        }
        proof {
            assert(self@ =~= other@);
        }
        true
    }
}

impl vstd::std_specs::cmp::PartialEqSpecImpl for FolderPath {
    open spec fn obeys_eq_spec() -> bool {
        true
    }

    open spec fn eq_spec(&self, other: &Self) -> bool {
        self@ == other@
    }
}

impl FolderPath {
    /// The root path, with no segments.
    pub fn root() -> (r: FolderPath)
        ensures
            r@ == Seq::<Seq<char>>::empty(),
    {
        let r = FolderPath(Vec::new());
        proof {
            assert(r@ =~= Seq::<Seq<char>>::empty());
        }
        r
    }

    /// A fresh copy of the path with the same segments.
    pub fn dup(&self) -> (r: FolderPath)
        ensures
            r@ == self@,
    {
        let mut out: Vec<String> = Vec::new();
        let mut i: usize = 0;
        while i < self.0.len()
            invariant
                i <= self.0.len(),
                out@.len() == i,
                forall|j: int| 0 <= j < i ==> out@[j]@ == self@[j],
            decreases self.0.len() - i,
        {
            proof {
                assert(self@[i as int] == self.0@[i as int]@);
            }
            out.push(self.0[i].clone());
            i = i + 1;
        }
        let r = FolderPath(out);
        proof {
            assert(r@ =~= self@);
        }
        r
    }

    /// The path's parent: the path without its last segment. Only
    /// meaningful for a non-root path.
    pub fn parent(&self) -> (r: FolderPath)
        requires
            self@.len() > 0,
        ensures
            r@ == self@.drop_last(),
    {
        let mut out: Vec<String> = Vec::new();
        let mut i: usize = 0;
        while i < self.0.len() - 1
            invariant
                self@.len() > 0,
                i <= self.0.len() - 1,
                out@.len() == i,
                forall|j: int| 0 <= j < i ==> out@[j]@ == self@[j],
            decreases self.0.len() - 1 - i,
        {
            proof {
                assert(self@[i as int] == self.0@[i as int]@);
            }
            out.push(self.0[i].clone());
            i = i + 1;
        }
        let r = FolderPath(out);
        proof {
            assert(r@ =~= self@.drop_last());
        }
        r
    }

    /// The path extended by one segment.
    pub fn child(&self, segment: &String) -> (r: FolderPath)
        ensures
            r@ == self@.push(segment@),
    {
        let mut out = self.dup();
        out.0.push(segment.clone());
        proof {
            assert(out@ =~= self@.push(segment@));
        }
        out
    }
}

/// A named free-text note stored in a folder.
#[derive(Clone, Debug)]
pub struct Note {
    pub name: String,
    pub content: String,
}

/// The mathematical model of a [`Note`].
pub struct NoteV {
    pub name: Seq<char>,
    pub content: Seq<char>,
}

impl View for Note {
    type V = NoteV;

    open spec fn view(&self) -> NoteV {
        NoteV { name: self.name@, content: self.content@ }
    }
}

/// A fresh copy of a note, equal in the model.
pub fn copy_note(n: &Note) -> (r: Note)
    ensures
        r@ == n@,
{
    Note { name: n.name.clone(), content: n.content.clone() }
}

/// An item stored in (or moved between) folders.
#[derive(Clone, Debug)]
pub enum FolderItemID {
    SceneID(SceneID),
    MapID(MapID),
    CreatureID(CreatureID),
    NoteID(String),
    SubfolderID(String),
}

/// The mathematical model of a [`FolderItemID`].
pub enum FolderItemIDV {
    SceneID(SceneID),
    MapID(MapID),
    CreatureID(CreatureID),
    NoteID(Seq<char>),
    SubfolderID(Seq<char>),
}

impl View for FolderItemID {
    type V = FolderItemIDV;

    open spec fn view(&self) -> FolderItemIDV {
        match self {
            FolderItemID::SceneID(id) => FolderItemIDV::SceneID(*id),
            FolderItemID::MapID(id) => FolderItemIDV::MapID(*id),
            FolderItemID::CreatureID(id) => FolderItemIDV::CreatureID(*id),
            FolderItemID::NoteID(s) => FolderItemIDV::NoteID(s@),
            FolderItemID::SubfolderID(s) => FolderItemIDV::SubfolderID(s@),
        }
    }
}

/// A fresh copy of a folder item id, equal in the model.
pub fn copy_folder_item_id(f: &FolderItemID) -> (r: FolderItemID)
    ensures
        r@ == f@,
{
    match f {
        FolderItemID::SceneID(id) => FolderItemID::SceneID(*id),
        FolderItemID::MapID(id) => FolderItemID::MapID(*id),
        FolderItemID::CreatureID(id) => FolderItemID::CreatureID(*id),
        FolderItemID::NoteID(s) => FolderItemID::NoteID(s.clone()),
        FolderItemID::SubfolderID(s) => FolderItemID::SubfolderID(s.clone()),
    }
}

/// One folder's contents: references to entities, plus notes by name.
#[derive(Clone, Debug)]
pub struct Folder {
    pub scenes: Vec<SceneID>,
    pub creatures: Vec<CreatureID>,
    pub notes: Vec<Note>,
    pub maps: Vec<MapID>,
}

/// The mathematical model of a [`Folder`].
pub struct FolderV {
    pub scenes: Seq<SceneID>,
    pub creatures: Seq<CreatureID>,
    pub notes: Seq<NoteV>,
    pub maps: Seq<MapID>,
}

impl View for Folder {
    type V = FolderV;

    open spec fn view(&self) -> FolderV {
        FolderV {
            scenes: self.scenes@,
            creatures: self.creatures@,
            notes: self.notes@.map_values(|n: Note| n@),
            maps: self.maps@,
        }
    }
}

impl FolderV {
    /// A folder with no contents at all.
    pub open spec fn is_empty(&self) -> bool {
        self.scenes.len() == 0 && self.creatures.len() == 0 && self.notes.len() == 0
            && self.maps.len() == 0
    }
}

impl Folder {
    /// A folder with no contents.
    pub fn new() -> (r: Folder)
        ensures
            r@.is_empty(),
            r@.scenes == Seq::<SceneID>::empty(),
            r@.creatures == Seq::<CreatureID>::empty(),
            r@.notes == Seq::<NoteV>::empty(),
            r@.maps == Seq::<MapID>::empty(),
    {
        let r = Folder { scenes: Vec::new(), creatures: Vec::new(), notes: Vec::new(), maps: Vec::new() };
        proof {
            assert(r@.notes =~= Seq::<NoteV>::empty());
        }
        r
    }
}

/// A fresh copy of a folder, equal in the model.
pub fn copy_folder(f: &Folder) -> (r: Folder)
    ensures
        r@ == f@,
{
    let mut notes: Vec<Note> = Vec::new();
    let mut i: usize = 0;
    while i < f.notes.len()
        invariant
            i <= f.notes.len(),
            notes@.len() == i,
            forall|j: int| 0 <= j < i ==> notes@[j]@ == f.notes@[j]@,
        decreases f.notes.len() - i,
    {
        notes.push(copy_note(&f.notes[i]));
        i = i + 1;
    }
    let r = Folder {
        scenes: crate::types::copy_vec(&f.scenes),
        creatures: crate::types::copy_vec(&f.creatures),
        notes,
        maps: crate::types::copy_vec(&f.maps),
    };
    proof {
        assert(r@.notes =~= f@.notes);
    }
    r
}

} // verus!
