//! Identifiers of the entities the engine manages.
//!
//! Creatures, scenes and maps are named by globally unique opaque 128-bit
//! identifiers, carried around in textual UUID form at the boundary.
//! Ability identifiers are short strings bounded to 64 characters; player
//! and attribute identifiers are free-form strings.

use vstd::prelude::*;
use crate::error::{GameError, GameErrorV};

verus! {

/// The parsed value of a textual UUID, or nothing when the text is not a
/// valid UUID. Parsing is a pure function of the input text.
pub uninterp spec fn parsed_uuid(s: Seq<char>) -> Option<u128>;

/// The hyphenated textual form of a 128-bit UUID value; a pure function of
/// the value.
pub uninterp spec fn uuid_text(n: u128) -> Seq<char>;

/// Relies on `uuid::Uuid::parse_str` and `Uuid::as_u128`: the result is a
/// pure function of the input text.
#[verifier::external_body]
fn parse_uuid(s: &str) -> (r: Option<u128>)
    ensures
        r == parsed_uuid(s@),
{
    match uuid::Uuid::parse_str(s) {
        Ok(u) => Some(u.as_u128()),
        Err(_) => None,
    }
}

/// Relies on `uuid::Uuid::from_u128` and `Uuid::hyphenated`: the textual
/// form is a pure function of the value, and every hyphenated form the
/// formatter emits is accepted back by the parser, yielding the same
/// value.
#[verifier::external_body]
fn format_uuid(n: u128) -> (r: String)
    ensures
        r@ == uuid_text(n),
        parsed_uuid(r@) == Some(n),
{
    uuid::Uuid::from_u128(n).hyphenated().to_string()
}

/// Relies on `uuid::Uuid::new_v4` to draw a fresh random identifier;
/// nothing is assumed of the value drawn.
#[verifier::external_body]
pub(crate) fn gen_uuid() -> u128 {
    uuid::Uuid::new_v4().as_u128()
}

/// Globally unique identifier of a creature.
#[derive(Clone, Copy, PartialEq, Eq, Structural, Debug, Hash, PartialOrd, Ord)]
pub struct CreatureID(pub u128);

impl CreatureID {
    /// Draws a fresh random identifier.
    pub fn new() -> CreatureID {
        CreatureID(gen_uuid())
    }

    /// Parses a textual UUID; an unparsable text reports the creature as
    /// not found, mirroring how lookups by textual id fail.
    pub fn from_str(s: &str) -> (r: Result<CreatureID, GameError>)
        ensures
            match r {
                Ok(id) => parsed_uuid(s@) == Some(id.0),
                Err(e) => parsed_uuid(s@) is None && e@ == GameErrorV::CreatureNotFound(s@),
            },
    {
        match parse_uuid(s) {
            Some(n) => Ok(CreatureID(n)),
            None => Err(GameError::CreatureNotFound(s.to_string())),
        }
    }

    /// The hyphenated textual form of the identifier; parsing it back
    /// yields the identifier again.
    pub fn to_string(&self) -> (r: String)
        ensures
            r@ == uuid_text(self.0),
            parsed_uuid(r@) == Some(self.0),
    {
        format_uuid(self.0)
    }
}

/// Globally unique identifier of a scene.
#[derive(Clone, Copy, PartialEq, Eq, Structural, Debug, Hash, PartialOrd, Ord)]
pub struct SceneID(pub u128);

impl SceneID {
    /// Draws a fresh random identifier.
    pub fn new() -> SceneID {
        SceneID(gen_uuid())
    }

    /// Parses a textual UUID.
    pub fn from_str(s: &str) -> (r: Result<SceneID, GameError>)
        ensures
            match r {
                Ok(id) => parsed_uuid(s@) == Some(id.0),
                Err(e) => parsed_uuid(s@) is None && e@ == GameErrorV::InvalidUuid(s@),
            },
    {
        match parse_uuid(s) {
            Some(n) => Ok(SceneID(n)),
            None => Err(GameError::InvalidUuid(s.to_string())),
        }
    }

    /// The hyphenated textual form of the identifier; parsing it back
    /// yields the identifier again.
    pub fn to_string(&self) -> (r: String)
        ensures
            r@ == uuid_text(self.0),
            parsed_uuid(r@) == Some(self.0),
    {
        format_uuid(self.0)
    }
}

/// Globally unique identifier of a map.
#[derive(Clone, Copy, PartialEq, Eq, Structural, Debug, Hash, PartialOrd, Ord)]
pub struct MapID(pub u128);

impl MapID {
    /// Draws a fresh random identifier.
    pub fn new() -> MapID {
        MapID(gen_uuid())
    }

    /// Parses a textual UUID.
    pub fn from_str(s: &str) -> (r: Result<MapID, GameError>)
        ensures
            match r {
                Ok(id) => parsed_uuid(s@) == Some(id.0),
                Err(e) => parsed_uuid(s@) is None && e@ == GameErrorV::InvalidUuid(s@),
            },
    {
        match parse_uuid(s) {
            Some(n) => Ok(MapID(n)),
            None => Err(GameError::InvalidUuid(s.to_string())),
        }
    }

    /// The hyphenated textual form of the identifier; parsing it back
    /// yields the identifier again.
    pub fn to_string(&self) -> (r: String)
        ensures
            r@ == uuid_text(self.0),
            parsed_uuid(r@) == Some(self.0),
    {
        format_uuid(self.0)
    }
}

/// The number of UTF-8 bytes an ability identifier may hold.
pub const ABILITY_ID_MAX_LEN: usize = 64;

/// The width, in bytes, of a character's UTF-8 encoding.
pub open spec fn spec_char_len(c: char) -> int {
    if (c as u32) < 0x80 {
        1
    } else if (c as u32) < 0x800 {
        2
    } else if (c as u32) < 0x10000 {
        3
    } else {
        4
    }
}

/// The UTF-8 byte length of a text: the sum of its characters' widths.
pub open spec fn spec_byte_len(s: Seq<char>) -> int
    decreases s.len(),
{
    if s.len() == 0 {
        0
    } else {
        spec_byte_len(s.drop_last()) + spec_char_len(s.last())
    }
}

/// Relies on `str::len`: the length of the text in bytes, which for a
/// `str` is the total width of its characters' UTF-8 encodings.
#[verifier::external_body]
fn byte_len(s: &str) -> (r: usize)
    ensures
        r == spec_byte_len(s@),
{
    s.len()
}

/// Identifier of an ability: a short string bounded to
/// [`ABILITY_ID_MAX_LEN`] bytes.
#[derive(Clone, Debug, Hash)]
pub struct AbilityID(pub String);

impl View for AbilityID {
    type V = Seq<char>;

    open spec fn view(&self) -> Seq<char> {
        self.0@
    }
}

impl PartialEq for AbilityID {
    fn eq(&self, other: &Self) -> (r: bool) {
        self.0 == other.0
    }
}

impl vstd::std_specs::cmp::PartialEqSpecImpl for AbilityID {
    open spec fn obeys_eq_spec() -> bool {
        true
    }

    open spec fn eq_spec(&self, other: &Self) -> bool {
        self@ == other@
    }
}

impl AbilityID {
    /// Makes an identifier from text, failing with an "identifier too
    /// long" error when the text exceeds the byte-length bound.
    pub fn new(s: &str) -> (r: Result<AbilityID, GameError>)
        ensures
            match r {
                Ok(id) => spec_byte_len(s@) <= ABILITY_ID_MAX_LEN && id@ == s@,
                Err(e) => spec_byte_len(s@) > ABILITY_ID_MAX_LEN && e@ == GameErrorV::IDTooLong(
                    s@,
                ),
            },
    {
        if byte_len(s) <= ABILITY_ID_MAX_LEN {
            Ok(AbilityID(s.to_string()))
        } else {
            Err(GameError::IDTooLong(s.to_string()))
        }
    }

    /// The identifier's text.
    pub fn to_string(&self) -> (r: String)
        ensures
            r@ == self@,
    {
        self.0.clone()
    }

    /// A fresh copy of the identifier with the same text.
    pub fn dup(&self) -> (r: AbilityID)
        ensures
            r@ == self@,
    {
        AbilityID(self.0.clone())
    }

    /// Whether the identifier respects the byte-length bound.
    pub open spec fn wf(&self) -> bool {
        spec_byte_len(self@) <= ABILITY_ID_MAX_LEN
    }
}

/// Identifier of a player: a free-form string.
#[derive(Clone, Debug, Hash)]
pub struct PlayerID(pub String);

impl View for PlayerID {
    type V = Seq<char>;

    open spec fn view(&self) -> Seq<char> {
        self.0@
    }
}

impl PartialEq for PlayerID {
    fn eq(&self, other: &Self) -> (r: bool) {
        self.0 == other.0
    }
}

impl vstd::std_specs::cmp::PartialEqSpecImpl for PlayerID {
    open spec fn obeys_eq_spec() -> bool {
        true
    }

    open spec fn eq_spec(&self, other: &Self) -> bool {
        self@ == other@
    }
}

impl PlayerID {
    /// A fresh copy of the identifier with the same text.
    pub fn dup(&self) -> (r: PlayerID)
        ensures
            r@ == self@,
    {
        PlayerID(self.0.clone())
    }
}

/// Identifier of a creature attribute (a skill), a free-form string.
#[derive(Clone, Debug, Hash)]
pub struct AttrID(pub String);

impl View for AttrID {
    type V = Seq<char>;

    open spec fn view(&self) -> Seq<char> {
        self.0@
    }
}

impl PartialEq for AttrID {
    fn eq(&self, other: &Self) -> (r: bool) {
        self.0 == other.0
    }
}

impl vstd::std_specs::cmp::PartialEqSpecImpl for AttrID {
    open spec fn obeys_eq_spec() -> bool {
        true
    }

    open spec fn eq_spec(&self, other: &Self) -> bool {
        self@ == other@
    }
}

impl AttrID {
    /// A fresh copy of the identifier with the same text.
    pub fn dup(&self) -> (r: AttrID)
        ensures
            r@ == self@,
    {
        AttrID(self.0.clone())
    }
}

} // verus!
