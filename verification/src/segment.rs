//! The segmenter: the grammar that groups the characters of a text into
//! entities, as a mathematical function and as parsers that compute it.
//!
//! At every position the rules are tried in a fixed order and the first that
//! matches decides: the honorific, a consonant with a riding mark, a consonant
//! with a vowel sign of its own, a vowel, a bare consonant, any other
//! character. Segmentation never fails and never skips a character.

use vstd::prelude::*;
use crate::entity::{mark_type_of, Entity, MarkType, ParseError, TamilDetailedEntity};
use crate::primitives::{anychar, one_of, tag};
use crate::script::{
    is_consonant, is_following_mark, is_mark, is_non_riding_mark,
    is_preceding_and_following_mark, is_preceding_mark, is_riding_mark, is_vowel,
    lemma_character_lists, sri, CONSONANTS, FOLLOWING_MARKS, PRECEDING_AND_FOLLOWING_MARKS,
    PRECEDING_MARKS, RIDING_MARKS, SRI, VOWELS,
};

verus! {

/// What a parser returns: the input that is left and the value it read, or
/// the reason why it read nothing.
pub type ParseResult<'a, O> = Result<(&'a str, O), ParseError>;

/// The entity at the start of a text that is not empty.
pub open spec fn first_entity(s: Seq<char>) -> Entity
    recommends
        s.len() > 0,
{
    if sri().is_prefix_of(s) {
        Entity::Special(sri())
    } else if s.len() >= 2 && is_consonant(s[0]) && is_riding_mark(s[1]) {
        Entity::Separate(s[0], s[1])
    } else if s.len() >= 2 && is_consonant(s[0]) && is_non_riding_mark(s[1]) {
        Entity::Composed(s[0], mark_type_of(s[1]), s[1])
    } else if is_vowel(s[0]) {
        Entity::Vowel(s[0])
    } else if is_consonant(s[0]) {
        Entity::Consonant(s[0])
    } else {
        Entity::Other(s[0])
    }
}

/// The text after its first entity.
pub open spec fn after_first_entity(s: Seq<char>) -> Seq<char>
    recommends
        s.len() > 0,
{
    s.skip(first_entity(s).span().len() as int)
}

/// The entities of a text, in order.
pub open spec fn segmentation(s: Seq<char>) -> Seq<Entity>
    decreases s.len(),
{
    if s.len() == 0 {
        Seq::empty()
    } else {
        seq![first_entity(s)] + segmentation(after_first_entity(s))
    }
}

/// The first entity of a text is well formed, it is a prefix of the text, and
/// it is one, two or four characters long.
pub proof fn lemma_first_entity(s: Seq<char>)
    requires
        s.len() > 0,
    ensures
        first_entity(s).well_formed(),
        first_entity(s).span() + after_first_entity(s) == s,
        1 <= first_entity(s).span().len() <= s.len(),
        after_first_entity(s).len() < s.len(),
{
}

/// A value was read from the first character of `i`: `c` is that character
/// and `rest` is what follows it.
pub open spec fn took_char(i: Seq<char>, rest: Seq<char>, c: char) -> bool {
    i.len() > 0 && c == i[0] && rest == i.skip(1)
}

/// Reads the honorific.
pub fn parse_sri<'a>(i: &'a str) -> (r: ParseResult<'a, TamilDetailedEntity<'a>>)
    ensures
        match r {
            Ok((rest, e)) => sri().is_prefix_of(i@) && e@ == Entity::Special(sri()) && rest@
                == i@.skip(4),
            Err(err) => !sri().is_prefix_of(i@) && err == ParseError::Tag,
        },
{
    proof {
        lemma_character_lists();
    }
    match tag(SRI, i) {
        Ok((rest, entity)) => Ok((rest, TamilDetailedEntity::SpecialEntity(entity))),
        Err(_) => Err(ParseError::Tag),
    }
}

/// Reads an independent vowel or the aytham.
pub fn parse_vowel<'a>(i: &'a str) -> (r: ParseResult<'a, TamilDetailedEntity<'a>>)
    ensures
        match r {
            Ok((rest, e)) => took_char(i@, rest@, i@[0]) && is_vowel(i@[0]) && e@ == Entity::Vowel(
                i@[0],
            ),
            Err(err) => !(i@.len() > 0 && is_vowel(i@[0])) && err == ParseError::OneOf,
        },
{
    proof {
        lemma_character_lists();
    }
    match one_of(VOWELS, i) {
        Ok((rest, entity)) => Ok((rest, TamilDetailedEntity::Vowel(entity))),
        Err(_) => Err(ParseError::OneOf),
    }
}

/// Reads a consonant letter and hands it back as a character.
pub fn parse_consonant_helper<'a>(i: &'a str) -> (r: ParseResult<'a, char>)
    ensures
        match r {
            Ok((rest, c)) => took_char(i@, rest@, c) && is_consonant(c),
            Err(err) => !(i@.len() > 0 && is_consonant(i@[0])) && err == ParseError::OneOf,
        },
{
    proof {
        lemma_character_lists();
    }
    match one_of(CONSONANTS, i) {
        Ok((rest, c)) => Ok((rest, c)),
        Err(_) => Err(ParseError::OneOf),
    }
}

/// Reads a consonant letter as a bare consonant.
pub fn parse_consonant<'a>(i: &'a str) -> (r: ParseResult<'a, TamilDetailedEntity<'a>>)
    ensures
        match r {
            Ok((rest, e)) => took_char(i@, rest@, i@[0]) && is_consonant(i@[0]) && e@
                == Entity::Consonant(i@[0]),
            Err(err) => !(i@.len() > 0 && is_consonant(i@[0])) && err == ParseError::OneOf,
        },
{
    match parse_consonant_helper(i) {
        Ok((rest, entity)) => Ok((rest, TamilDetailedEntity::Consonant(entity))),
        Err(err) => Err(err),
    }
}

/// Reads the virama or one of the vowel signs I, II, U and UU.
pub fn parse_riding_mark<'a>(i: &'a str) -> (r: ParseResult<'a, (MarkType, char)>)
    ensures
        match r {
            Ok((rest, (kind, m))) => took_char(i@, rest@, m) && is_riding_mark(m) && kind
                == MarkType::Riding,
            Err(err) => !(i@.len() > 0 && is_riding_mark(i@[0])) && err == ParseError::OneOf,
        },
{
    proof {
        lemma_character_lists();
    }
    match one_of(RIDING_MARKS, i) {
        Ok((rest, entity)) => Ok((rest, (MarkType::Riding, entity))),
        Err(_) => Err(ParseError::OneOf),
    }
}

/// Reads one of the vowel signs E, EE and AI.
pub fn parse_preceding_mark<'a>(i: &'a str) -> (r: ParseResult<'a, (MarkType, char)>)
    ensures
        match r {
            Ok((rest, (kind, m))) => took_char(i@, rest@, m) && is_preceding_mark(m) && kind
                == MarkType::Preceding,
            Err(err) => !(i@.len() > 0 && is_preceding_mark(i@[0])) && err == ParseError::OneOf,
        },
{
    proof {
        lemma_character_lists();
    }
    match one_of(PRECEDING_MARKS, i) {
        Ok((rest, entity)) => Ok((rest, (MarkType::Preceding, entity))),
        Err(_) => Err(ParseError::OneOf),
    }
}

/// Reads the vowel sign AA.
pub fn parse_following_mark<'a>(i: &'a str) -> (r: ParseResult<'a, (MarkType, char)>)
    ensures
        match r {
            Ok((rest, (kind, m))) => took_char(i@, rest@, m) && is_following_mark(m) && kind
                == MarkType::Following,
            Err(err) => !(i@.len() > 0 && is_following_mark(i@[0])) && err == ParseError::OneOf,
        },
{
    proof {
        lemma_character_lists();
    }
    match one_of(FOLLOWING_MARKS, i) {
        Ok((rest, entity)) => Ok((rest, (MarkType::Following, entity))),
        Err(_) => Err(ParseError::OneOf),
    }
}

/// Reads one of the vowel signs O, OO and AU.
pub fn parse_preceding_and_following_mark<'a>(i: &'a str) -> (r: ParseResult<'a, (MarkType, char)>)
    ensures
        match r {
            Ok((rest, (kind, m))) => took_char(i@, rest@, m) && is_preceding_and_following_mark(m)
                && kind == MarkType::PrecedingAndFollowing,
            Err(err) => !(i@.len() > 0 && is_preceding_and_following_mark(i@[0])) && err
                == ParseError::OneOf,
        },
{
    proof {
        lemma_character_lists();
    }
    match one_of(PRECEDING_AND_FOLLOWING_MARKS, i) {
        Ok((rest, entity)) => Ok((rest, (MarkType::PrecedingAndFollowing, entity))),
        Err(_) => Err(ParseError::OneOf),
    }
}

/// Reads a vowel sign that precedes, follows or surrounds its consonant, and
/// says which it does.
pub fn parse_non_riding_mark<'a>(i: &'a str) -> (r: ParseResult<'a, (MarkType, char)>)
    ensures
        match r {
            Ok((rest, (kind, m))) => took_char(i@, rest@, m) && is_non_riding_mark(m) && kind
                == mark_type_of(m),
            Err(err) => !(i@.len() > 0 && is_non_riding_mark(i@[0])) && err == ParseError::OneOf,
        },
{
    match parse_preceding_and_following_mark(i) {
        Ok(found) => Ok(found),
        Err(_) => match parse_preceding_mark(i) {
            Ok(found) => Ok(found),
            Err(_) => parse_following_mark(i),
        },
    }
}

/// Reads any combining mark, and says how it is placed.
pub fn parse_mark<'a>(i: &'a str) -> (r: ParseResult<'a, (MarkType, char)>)
    ensures
        match r {
            Ok((rest, (kind, m))) => took_char(i@, rest@, m) && is_mark(m) && kind
                == mark_type_of(m),
            Err(err) => !(i@.len() > 0 && is_mark(i@[0])) && err == ParseError::OneOf,
        },
{
    match parse_riding_mark(i) {
        Ok(found) => Ok(found),
        Err(_) => parse_non_riding_mark(i),
    }
}

/// Reads one character, whatever it is.
pub fn parse_other<'a>(i: &'a str) -> (r: ParseResult<'a, TamilDetailedEntity<'a>>)
    ensures
        match r {
            Ok((rest, e)) => took_char(i@, rest@, i@[0]) && e@ == Entity::Other(i@[0]),
            Err(err) => i@.len() == 0 && err == ParseError::Eof,
        },
{
    match anychar(i) {
        Ok((rest, entity)) => Ok((rest, TamilDetailedEntity::Other(entity))),
        Err(_) => Err(ParseError::Eof),
    }
}

/// Reads what no mark can modify: the honorific or a vowel.
pub fn parse_not_markable<'a>(i: &'a str) -> (r: ParseResult<'a, TamilDetailedEntity<'a>>)
    ensures
        match r {
            Ok((rest, e)) => if sri().is_prefix_of(i@) {
                e@ == Entity::Special(sri()) && rest@ == i@.skip(4)
            } else {
                took_char(i@, rest@, i@[0]) && is_vowel(i@[0]) && e@ == Entity::Vowel(i@[0])
            },
            Err(err) => !sri().is_prefix_of(i@) && !(i@.len() > 0 && is_vowel(i@[0])) && err
                == ParseError::OneOf,
        },
{
    match parse_sri(i) {
        Ok(found) => Ok(found),
        Err(_) => parse_vowel(i),
    }
}

/// Reads a consonant with a riding mark on it.
///
/// Succeeds exactly when the input begins with a consonant that a riding mark
/// follows, and then consumes the two.
pub fn parse_separate_entity<'a>(i: &'a str) -> (r: ParseResult<'a, TamilDetailedEntity<'a>>)
    ensures
        match r {
            Ok((rest, e)) => i@.len() >= 2 && is_consonant(i@[0]) && is_riding_mark(i@[1]) && e@
                == Entity::Separate(i@[0], i@[1]) && rest@ == i@.skip(2),
            Err(err) => !(i@.len() >= 2 && is_consonant(i@[0]) && is_riding_mark(i@[1])) && err
                == ParseError::OneOf,
        },
{
    match parse_consonant_helper(i) {
        Ok((after_consonant, consonant)) => match parse_riding_mark(after_consonant) {
            Ok((rest, (_, riding_mark))) => {
                Ok((rest, TamilDetailedEntity::SeparateEntity((consonant, riding_mark))))
            },
            Err(err) => Err(err),
        },
        Err(err) => Err(err),
    }
}

/// Reads a consonant with a vowel sign that has glyphs of its own.
///
/// Succeeds exactly when the input begins with a consonant that such a vowel
/// sign follows, and then consumes the two.
pub fn parse_composed_entity<'a>(i: &'a str) -> (r: ParseResult<'a, TamilDetailedEntity<'a>>)
    ensures
        match r {
            Ok((rest, e)) => i@.len() >= 2 && is_consonant(i@[0]) && is_non_riding_mark(i@[1])
                && e@ == Entity::Composed(i@[0], mark_type_of(i@[1]), i@[1]) && rest@ == i@.skip(
                2,
            ),
            Err(err) => !(i@.len() >= 2 && is_consonant(i@[0]) && is_non_riding_mark(i@[1]))
                && err == ParseError::OneOf,
        },
{
    match parse_consonant_helper(i) {
        Ok((after_consonant, consonant)) => match parse_non_riding_mark(after_consonant) {
            Ok((rest, (mark_type, non_riding_mark))) => {
                Ok(
                    (
                        rest,
                        TamilDetailedEntity::ComposedEntity(
                            (consonant, mark_type, non_riding_mark),
                        ),
                    ),
                )
            },
            Err(err) => Err(err),
        },
        Err(err) => Err(err),
    }
}

/// Reads the entity at the start of the input.
///
/// Fails only on the empty input. Otherwise the entity is the first entity of
/// the text, well formed, and the rest is the text after it: the two together
/// are the input.
pub fn parse_entity<'a>(i: &'a str) -> (r: ParseResult<'a, TamilDetailedEntity<'a>>)
    ensures
        match r {
            Ok((rest, e)) => i@.len() > 0 && e@ == first_entity(i@) && rest@ == after_first_entity(
                i@,
            ) && e@.span() + rest@ == i@ && e@.well_formed(),
            Err(err) => i@.len() == 0 && err == ParseError::Eof,
        },
{
    proof {
        if i@.len() > 0 {
            lemma_first_entity(i@);
        }
    }
    match parse_sri(i) {
        Ok(found) => Ok(found),
        Err(_) => match parse_separate_entity(i) {
            Ok(found) => Ok(found),
            Err(_) => match parse_composed_entity(i) {
                Ok(found) => Ok(found),
                Err(_) => match parse_not_markable(i) {
                    Ok(found) => Ok(found),
                    Err(_) => match parse_consonant(i) {
                        Ok(found) => Ok(found),
                        Err(_) => parse_other(i),
                    },
                },
            },
        },
    }
}

} // verus!
