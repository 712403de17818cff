//! The units that segmentation produces and transliteration consumes.

use vstd::prelude::*;
use crate::script::{
    is_consonant, is_following_mark, is_non_riding_mark, is_preceding_and_following_mark,
    is_preceding_mark, is_riding_mark, is_vowel, sri,
};

verus! {

/// Where a combining mark is drawn, relative to the glyph of its consonant.
#[derive(Debug, Clone, Copy, PartialEq, Eq)]
pub enum MarkType {
    /// In the consonant's own glyph slot.
    Riding,
    /// Before the consonant.
    Preceding,
    /// After the consonant.
    Following,
    /// In two parts, one before and one after the consonant.
    PrecedingAndFollowing,
}

/// One unit of segmented text.
#[derive(Debug, Clone, Copy, PartialEq, Eq)]
pub enum TamilDetailedEntity<'a> {
    /// An independent vowel letter.
    Vowel(char),
    /// A bare consonant letter.
    Consonant(char),
    /// A consonant and the riding mark on it.
    SeparateEntity((char, char)),
    /// A consonant, the placement of its vowel sign, and the vowel sign.
    ComposedEntity((char, MarkType, char)),
    /// The honorific, as the part of the input that spelled it.
    SpecialEntity(&'a str),
    /// Any other character.
    Other(char),
}

/// Why a parser did not accept its input: the kind of recogniser that refused.
#[derive(Debug, Clone, Copy, PartialEq, Eq)]
pub enum ParseError {
    /// The input does not begin with the expected fixed text.
    Tag,
    /// Where the parser looked for a character of some class, the input ended
    /// or held another character.
    OneOf,
    /// The input is empty.
    Eof,
}

/// The mathematical value of a [`TamilDetailedEntity`]: the same cases, with
/// the honorific held as the sequence of its characters.
pub ghost enum Entity {
    Vowel(char),
    Consonant(char),
    Separate(char, char),
    Composed(char, MarkType, char),
    Special(Seq<char>),
    Other(char),
}

impl<'a> View for TamilDetailedEntity<'a> {
    type V = Entity;

    open spec fn view(&self) -> Entity {
        match *self {
            TamilDetailedEntity::Vowel(c) => Entity::Vowel(c),
            TamilDetailedEntity::Consonant(c) => Entity::Consonant(c),
            TamilDetailedEntity::SeparateEntity((c, m)) => Entity::Separate(c, m),
            TamilDetailedEntity::ComposedEntity((c, kind, m)) => Entity::Composed(c, kind, m),
            TamilDetailedEntity::SpecialEntity(s) => Entity::Special(s@),
            TamilDetailedEntity::Other(c) => Entity::Other(c),
        }
    }
}

/// The placement of a combining mark.
pub open spec fn mark_type_of(m: char) -> MarkType {
    if is_preceding_and_following_mark(m) {
        MarkType::PrecedingAndFollowing
    } else if is_preceding_mark(m) {
        MarkType::Preceding
    } else if is_following_mark(m) {
        MarkType::Following
    } else {
        MarkType::Riding
    }
}

impl Entity {
    /// The characters of the input that the entity stands for.
    pub open spec fn span(self) -> Seq<char> {
        match self {
            Entity::Vowel(c) => seq![c],
            Entity::Consonant(c) => seq![c],
            Entity::Separate(c, m) => seq![c, m],
            Entity::Composed(c, _, m) => seq![c, m],
            Entity::Special(s) => s,
            Entity::Other(c) => seq![c],
        }
    }

    /// The entity holds characters of the classes that its case names, and
    /// `Other` holds no letter.
    pub open spec fn well_formed(self) -> bool {
        match self {
            Entity::Vowel(c) => is_vowel(c),
            Entity::Consonant(c) => is_consonant(c),
            Entity::Separate(c, m) => is_consonant(c) && is_riding_mark(m),
            Entity::Composed(c, kind, m) => is_consonant(c) && is_non_riding_mark(m) && kind
                == mark_type_of(m),
            Entity::Special(s) => s == sri(),
            Entity::Other(c) => !is_vowel(c) && !is_consonant(c),
        }
    }
}

} // verus!
