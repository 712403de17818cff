//! The transliterator: from entities to the glyphs of the legacy font.
//!
//! A letter becomes its glyph, a consonant with a riding mark becomes the one
//! glyph of the pair, a consonant with another vowel sign becomes its own
//! glyph with the affix glyphs of the sign around it, the honorific becomes
//! its glyph, and any other character stays as it is. A text is converted
//! entity by entity, in order; it has no conversion where the font lacks a
//! glyph, which happens only for NGA or NYA with the vowel sign I, II, U or UU.

use vstd::prelude::*;
use vstd::pervasive::unreached;
use vstd::string::StringExecFns;
use crate::entity::{Entity, TamilDetailedEntity};
use crate::glyphs::{
    composed_glyphs, letter_glyph, lookup_letter, lookup_pair, pair_glyph, SRI_GLYPH,
};
use crate::script::{is_non_riding, is_non_riding_mark, lemma_character_lists, sri, SRI};
use crate::segment::{after_first_entity, first_entity, parse_entity, segmentation};

verus! {

/// The glyphs of one entity, or `None` where a table has no entry for it.
pub open spec fn entity_glyphs(e: Entity) -> Option<Seq<char>> {
    match e {
        Entity::Vowel(c) | Entity::Consonant(c) => match letter_glyph(c) {
            Some(g) => Some(seq![g]),
            None => None,
        },
        Entity::Separate(c, m) => match pair_glyph(c, m) {
            Some(g) => Some(seq![g]),
            None => None,
        },
        Entity::Composed(c, _, m) => match letter_glyph(c) {
            Some(g) if is_non_riding_mark(m) => Some(composed_glyphs(g, m)),
            _ => None,
        },
        Entity::Special(s) => if s == sri() {
            Some(seq![SRI_GLYPH])
        } else {
            None
        },
        Entity::Other(c) => Some(seq![c]),
    }
}

/// `head` followed by `tail`, where both exist.
pub open spec fn join(head: Option<Seq<char>>, tail: Option<Seq<char>>) -> Option<Seq<char>> {
    match (head, tail) {
        (Some(h), Some(t)) => Some(h + t),
        _ => None,
    }
}

/// The glyphs of a sequence of entities, in order, where every one has glyphs.
pub open spec fn render(es: Seq<Entity>) -> Option<Seq<char>>
    decreases es.len(),
{
    if es.len() == 0 {
        Some(Seq::empty())
    } else {
        join(entity_glyphs(es[0]), render(es.skip(1)))
    }
}

/// The legacy encoding of a text: the glyphs of its entities.
pub open spec fn transliteration(s: Seq<char>) -> Option<Seq<char>> {
    render(segmentation(s))
}

/// The encoding of a text is that of its first entity followed by that of
/// the rest.
pub proof fn lemma_transliteration_unfold(s: Seq<char>)
    requires
        s.len() > 0,
    ensures
        transliteration(s) == join(
            entity_glyphs(first_entity(s)),
            transliteration(after_first_entity(s)),
        ),
{
    let es = segmentation(s);
    assert(es.skip(1) =~= segmentation(after_first_entity(s)));
}

/// The glyph of the honorific, for the honorific and for no other string.
pub fn conv_special_entity(unicode_string: &str) -> (r: Option<String>)
    ensures
        match r {
            Some(glyphs) => unicode_string@ == sri() && glyphs@ == seq![SRI_GLYPH],
            None => unicode_string@ != sri(),
        },
{
    proof {
        lemma_character_lists();
    }
    if unicode_string.eq(SRI) {
        let mut res = String::new();
        res.push(SRI_GLYPH);
        Some(res)
    } else {
        None
    }
}

/// Puts the glyphs of a vowel sign around the glyph of its consonant, in the
/// order in which they are drawn.
pub fn conv_composed_entity(stmzhchar: char, umark: char) -> (res: String)
    requires
        is_non_riding_mark(umark),
    ensures
        res@ == composed_glyphs(stmzhchar, umark),
{
    let mut res = String::new();
    match umark {
        '\u{0bbe}' => {
            res.push(stmzhchar);
            res.push('\u{f056}');
        },
        '\u{0bc6}' => {
            res.push('\u{f0d8}');
            res.push(stmzhchar);
        },
        '\u{0bc7}' => {
            res.push('\u{f0bc}');
            res.push(stmzhchar);
        },
        '\u{0bc8}' => {
            res.push('\u{f0e7}');
            res.push(stmzhchar);
        },
        '\u{0bca}' => {
            res.push('\u{f0d8}');
            res.push(stmzhchar);
            res.push('\u{f056}');
        },
        '\u{0bcb}' => {
            res.push('\u{f0d8}');
            res.push(stmzhchar);
            res.push('\u{f056}');
        },
        '\u{0bcc}' => {
            res.push('\u{f0d8}');
            res.push(stmzhchar);
            res.push('\u{f065}');
        },
        _ => unreached(),
    }
    res
}

/// Appends the glyphs of one entity to `output`.
///
/// Returns `false`, and leaves `output` as it was, exactly when a table has no
/// entry for the entity.
pub fn conv_entity(entity: &TamilDetailedEntity, output: &mut String) -> (done: bool)
    ensures
        done == entity_glyphs(entity@).is_some(),
        final(output)@ == match entity_glyphs(entity@) {
            Some(glyphs) => old(output)@ + glyphs,
            None => old(output)@,
        },
{
    match *entity {
        TamilDetailedEntity::Consonant(c) | TamilDetailedEntity::Vowel(c) => match lookup_letter(c) {
            Some(glyph) => {
                output.push(glyph);
                true
            },
            None => false,
        },
        TamilDetailedEntity::SeparateEntity((c, m)) => match lookup_pair(c, m) {
            Some(glyph) => {
                output.push(glyph);
                true
            },
            None => false,
        },
        TamilDetailedEntity::Other(c) => {
            output.push(c);
            true
        },
        TamilDetailedEntity::ComposedEntity((c, _, m)) => match lookup_letter(c) {
            Some(stmzhchar) => {
                if is_non_riding(m) {
                    let glyphs = conv_composed_entity(stmzhchar, m);
                    output.append(glyphs.as_str());
                    true
                } else {
                    false
                }
            },
            None => false,
        },
        TamilDetailedEntity::SpecialEntity(ustring) => match conv_special_entity(ustring) {
            Some(glyphs) => {
                output.append(glyphs.as_str());
                true
            },
            None => false,
        },
    }
}

/// Converts Unicode Tamil text to the legacy font layout, in one pass over
/// its entities.
///
/// Returns `None` exactly when the text has no conversion: somewhere in it
/// stands a consonant with a riding mark that the font has no glyph for.
pub fn try_convert_unic_stmzh(source: &str) -> (r: Option<String>)
    ensures
        match r {
            Some(output) => transliteration(source@) == Some(output@),
            None => transliteration(source@).is_none(),
        },
{
    let mut data = source;
    let mut output = String::new();
    loop
        invariant
            transliteration(source@) == join(Some(output@), transliteration(data@)),
        decreases data@.len(),
    {
        match parse_entity(data) {
            Ok((rest, entity)) => {
                proof {
                    lemma_transliteration_unfold(data@);
                }
                if !conv_entity(&entity, &mut output) {
                    return None;
                }
                data = rest;
            },
            Err(_) => {
                return Some(output);
            },
        }
    }
}

/// Converts Unicode Tamil text to the legacy font layout.
///
/// The text must have a conversion; [`try_convert_unic_stmzh`] takes any text.
pub fn convert_unic_stmzh(source: &str) -> (output: String)
    requires
        transliteration(source@).is_some(),
    ensures
        Some(output@) == transliteration(source@),
{
    match try_convert_unic_stmzh(source) {
        Some(output) => output,
        None => unreached(),
    }
}

} // verus!
