//! What holds of segmentation and transliteration for every text.

use vstd::prelude::*;
use crate::convert::{
    entity_glyphs, join, lemma_transliteration_unfold, render, transliteration,
};
use crate::entity::{mark_type_of, Entity, MarkType};
use crate::glyphs::{
    composed_glyphs, letter_glyph, pair_glyph, prefix_glyph, suffix_glyph, SRI_GLYPH,
};
use crate::script::{is_consonant, is_mark, is_non_riding_mark, is_vowel, sri};
use crate::segment::{after_first_entity, first_entity, lemma_first_entity, segmentation};

verus! {

/// The characters that a sequence of entities stands for, in order.
pub open spec fn spans(es: Seq<Entity>) -> Seq<char>
    decreases es.len(),
{
    if es.len() == 0 {
        Seq::empty()
    } else {
        es[0].span() + spans(es.skip(1))
    }
}

/// A text begins with the honorific exactly when its first four characters
/// are those of the honorific.
pub proof fn lemma_sri_prefix(s: Seq<char>)
    ensures
        sri().is_prefix_of(s) <==> s.len() >= 4 && s[0] == '\u{0bb8}' && s[1] == '\u{0bcd}' && s[2]
            == '\u{0bb0}' && s[3] == '\u{0bc0}',
{
}

/// Segmentation drops no character and adds none: the spans of the entities
/// of a text, put together in order, are the text. Every entity is well formed.
pub proof fn lemma_segmentation_covers_input(s: Seq<char>)
    ensures
        spans(segmentation(s)) == s,
        forall|k: int| 0 <= k < segmentation(s).len() ==> (#[trigger] segmentation(s)[k]).well_formed(),
    decreases s.len(),
{
    if s.len() > 0 {
        lemma_first_entity(s);
        let rest = after_first_entity(s);
        lemma_segmentation_covers_input(rest);
        assert(segmentation(s).skip(1) =~= segmentation(rest));
    }
}

/// The font lacks a glyph for this consonant with this riding mark: NGA or
/// NYA with the vowel sign I, II, U or UU.
pub open spec fn lacks_glyph(c: char, m: char) -> bool {
    (c == 'ங' || c == 'ஞ') && (m == '\u{0bbf}' || m == '\u{0bc0}' || m == '\u{0bc1}' || m
        == '\u{0bc2}')
}

/// The tables cover every well-formed entity but the eight pairs that the
/// font has no glyph for, and an entity is drawn with one, two or three glyphs.
pub proof fn lemma_well_formed_entity_has_glyphs(e: Entity)
    requires
        e.well_formed(),
    ensures
        entity_glyphs(e) is None <==> (e matches Entity::Separate(c, m) && lacks_glyph(c, m)),
        entity_glyphs(e) matches Some(glyphs) ==> 1 <= glyphs.len() <= 3,
{
}

/// Somewhere in the text stands a consonant with a riding mark that the font
/// has no glyph for.
pub open spec fn has_gap(s: Seq<char>) -> bool {
    exists|k: int| 0 <= k && k + 1 < s.len() && lacks_glyph(#[trigger] s[k], s[k + 1])
}

/// A text has a conversion unless NGA or NYA stands in it directly before
/// the vowel sign I, II, U or UU.
pub proof fn lemma_conversion_exists_unless_gap(s: Seq<char>)
    ensures
        transliteration(s) is None <==> has_gap(s),
    decreases s.len(),
{
    if s.len() > 0 {
        let rest = after_first_entity(s);
        lemma_sri_prefix(s);
        lemma_first_entity(s);
        lemma_transliteration_unfold(s);
        lemma_well_formed_entity_has_glyphs(first_entity(s));
        lemma_conversion_exists_unless_gap(rest);
        if has_gap(rest) {
            // A gap in the rest is a gap in the text, further along.
            let j: int = choose|j: int|
                0 <= j && j + 1 < rest.len() && lacks_glyph(#[trigger] rest[j], rest[j + 1]);
            let k: int = j + (s.len() - rest.len());
            assert(lacks_glyph(s[k], s[k + 1]));
        }
    }
}

/// The glyphs of a consonant with a vowel sign stand in the order in which
/// they are drawn: a sign that follows puts its glyph after that of the
/// consonant, a sign that precedes puts it before, and a sign that does both
/// puts one glyph on either side.
pub proof fn lemma_composed_glyphs_follow_placement(consonant_glyph: char, m: char)
    requires
        is_non_riding_mark(m),
    ensures
        match mark_type_of(m) {
            MarkType::Following => composed_glyphs(consonant_glyph, m) == seq![
                consonant_glyph,
                suffix_glyph(m)->0,
            ],
            MarkType::Preceding => composed_glyphs(consonant_glyph, m) == seq![
                prefix_glyph(m)->0,
                consonant_glyph,
            ],
            MarkType::PrecedingAndFollowing => composed_glyphs(consonant_glyph, m) == seq![
                prefix_glyph(m)->0,
                consonant_glyph,
                suffix_glyph(m)->0,
            ],
            MarkType::Riding => false,
        },
{
}

/// The vowel signs O and OO are drawn with the same two affix glyphs: the
/// prefix of the sign E and the suffix of the sign AA.
pub proof fn lemma_signs_o_and_oo_share_affixes(consonant_glyph: char)
    ensures
        composed_glyphs(consonant_glyph, '\u{0bcb}') == composed_glyphs(
            consonant_glyph,
            '\u{0bca}',
        ),
        composed_glyphs(consonant_glyph, '\u{0bca}') == seq![
            prefix_glyph('\u{0bc6}')->0,
            consonant_glyph,
            suffix_glyph('\u{0bbe}')->0,
        ],
{
}

/// The cut between `a` and `b` is one that segmentation respects: it does
/// not part a consonant at the end of `a` from a mark at the start of `b`, and
/// it does not run through the honorific.
pub open spec fn splits_cleanly(a: Seq<char>, b: Seq<char>) -> bool {
    a.len() == 0 || b.len() == 0 || (!(is_consonant(a[a.len() - 1]) && is_mark(b[0])) && !(a.len()
        >= 2 && a[a.len() - 2] == '\u{0bb8}' && a[a.len() - 1] == '\u{0bcd}' && b.len() >= 2
        && b[0] == '\u{0bb0}' && b[1] == '\u{0bc0}'))
}

/// Across a cut that segmentation respects, a text is segmented as its two
/// parts are.
pub proof fn lemma_segmentation_concat(a: Seq<char>, b: Seq<char>)
    requires
        splits_cleanly(a, b),
    ensures
        segmentation(a + b) == segmentation(a) + segmentation(b),
    decreases a.len(),
{
    let s = a + b;
    if a.len() > 0 && b.len() > 0 {
        // The first entity of the whole is that of `a`: no rule looks past the
        // cut and finds there what it would not find at the end of `a`.
        lemma_sri_prefix(s);
        lemma_sri_prefix(a);
        lemma_first_entity(a);
        let tail = after_first_entity(a);
        assert(after_first_entity(s) =~= tail + b);
        lemma_segmentation_concat(tail, b);
    }
}

/// The glyphs of two sequences of entities, one after the other.
pub proof fn lemma_render_concat(x: Seq<Entity>, y: Seq<Entity>)
    ensures
        render(x + y) == join(render(x), render(y)),
    decreases x.len(),
{
    if x.len() > 0 {
        assert((x + y).skip(1) =~= x.skip(1) + y);
        lemma_render_concat(x.skip(1), y);
    }
}

/// Across a cut that segmentation respects, a text is converted as its two
/// parts are.
pub proof fn lemma_transliteration_concat(a: Seq<char>, b: Seq<char>)
    requires
        splits_cleanly(a, b),
    ensures
        transliteration(a + b) == join(transliteration(a), transliteration(b)),
{
    lemma_segmentation_concat(a, b);
    lemma_render_concat(segmentation(a), segmentation(b));
}

/// A text that holds no vowel and no consonant letter is its own conversion:
/// digits, punctuation, white space, other scripts, and marks that stand
/// alone all pass through unchanged.
pub proof fn lemma_text_without_letters_is_unchanged(s: Seq<char>)
    requires
        forall|k: int| 0 <= k < s.len() ==> !is_vowel(#[trigger] s[k]) && !is_consonant(s[k]),
    ensures
        transliteration(s) == Some(s),
    decreases s.len(),
{
    if s.len() > 0 {
        lemma_sri_prefix(s);
        lemma_transliteration_unfold(s);
        lemma_text_without_letters_is_unchanged(s.skip(1));
    }
}

/// A character outside the Tamil block is converted to itself.
pub proof fn lemma_foreign_character_is_unchanged(c: char)
    requires
        !('\u{0b80}' <= c <= '\u{0bff}'),
    ensures
        transliteration(seq![c]) == Some(seq![c]),
{
    lemma_text_without_letters_is_unchanged(seq![c]);
}

/// A character that is no letter is converted to itself wherever it stands,
/// unless it is a mark directly behind a consonant; what stands before and
/// after it is converted as if it stood alone.
pub proof fn lemma_other_character_is_unchanged_in_context(a: Seq<char>, c: char, b: Seq<char>)
    requires
        !is_vowel(c),
        !is_consonant(c),
        !(is_mark(c) && a.len() > 0 && is_consonant(a[a.len() - 1])),
    ensures
        transliteration(a + seq![c] + b) == join(
            transliteration(a),
            join(Some(seq![c]), transliteration(b)),
        ),
{
    let t = seq![c] + b;
    assert(a + seq![c] + b =~= a + t);
    lemma_transliteration_concat(a, t);
    lemma_sri_prefix(t);
    lemma_transliteration_unfold(t);
    assert(after_first_entity(t) =~= b);
}

/// A consonant with the virama on it is converted to one glyph, that of the
/// pair.
pub proof fn lemma_consonant_with_virama(c: char)
    requires
        is_consonant(c),
    ensures
        pair_glyph(c, '\u{0bcd}') is Some,
        transliteration(seq![c, '\u{0bcd}']) == Some(seq![pair_glyph(c, '\u{0bcd}')->0]),
{
    lemma_pair_alone(seq![c, '\u{0bcd}']);
}

/// A consonant with the vowel sign AA is converted to two glyphs: that of the
/// consonant and U+F056 after it.
pub proof fn lemma_consonant_with_sign_aa(c: char)
    requires
        is_consonant(c),
    ensures
        letter_glyph(c) is Some,
        transliteration(seq![c, '\u{0bbe}']) == Some(seq![letter_glyph(c)->0, '\u{f056}']),
{
    lemma_pair_alone(seq![c, '\u{0bbe}']);
}

/// A consonant with the vowel sign AU is converted to three glyphs: U+F0D8,
/// that of the consonant, and U+F065.
pub proof fn lemma_consonant_with_sign_au(c: char)
    requires
        is_consonant(c),
    ensures
        letter_glyph(c) is Some,
        transliteration(seq![c, '\u{0bcc}']) == Some(
            seq!['\u{f0d8}', letter_glyph(c)->0, '\u{f065}'],
        ),
{
    lemma_pair_alone(seq![c, '\u{0bcc}']);
}

/// A consonant and a mark that stand alone are one entity, and their
/// conversion is that of the entity.
proof fn lemma_pair_alone(s: Seq<char>)
    requires
        s.len() == 2,
        is_consonant(s[0]),
        is_mark(s[1]),
    ensures
        first_entity(s).span() == s,
        transliteration(s) == entity_glyphs(first_entity(s)),
{
    lemma_sri_prefix(s);
    lemma_first_entity(s);
    lemma_transliteration_unfold(s);
}

/// The honorific is one entity wherever it stands in a text, and what stands
/// before and after it is segmented as if it stood alone.
pub proof fn lemma_honorific_is_one_entity(a: Seq<char>, b: Seq<char>)
    ensures
        segmentation(a + sri() + b) == segmentation(a) + seq![Entity::Special(sri())]
            + segmentation(b),
{
    let t = sri() + b;
    assert(a + sri() + b =~= a + t);
    lemma_segmentation_concat(a, t);
    assert(after_first_entity(t) =~= b);
}

/// The honorific is converted to its one glyph wherever it stands in a text,
/// never to the glyphs of its letters.
pub proof fn lemma_honorific_is_one_glyph(a: Seq<char>, b: Seq<char>)
    ensures
        transliteration(a + sri() + b) == join(
            transliteration(a),
            join(Some(seq![SRI_GLYPH]), transliteration(b)),
        ),
{
    let t = sri() + b;
    assert(a + sri() + b =~= a + t);
    lemma_transliteration_concat(a, t);
    lemma_transliteration_unfold(t);
    assert(after_first_entity(t) =~= b);
}

/// A code point of the legacy font: every glyph of the tables lies in this
/// part of the private use area.
pub open spec fn is_legacy_glyph(c: char) -> bool {
    '\u{f023}' <= c <= '\u{f0ff}'
}

/// The glyphs of a well-formed entity are code points of the legacy font,
/// but for a character that passes through.
pub proof fn lemma_entity_glyphs_are_legacy(e: Entity)
    requires
        e.well_formed(),
        entity_glyphs(e) is Some,
    ensures
        e is Other || forall|k: int|
            0 <= k < entity_glyphs(e)->0.len() ==> is_legacy_glyph(
                #[trigger] entity_glyphs(e)->0[k],
            ),
{
}

/// A conversion holds glyphs of the legacy font and characters of the text
/// that are no letters, and nothing else: no Tamil letter is left in it.
pub proof fn lemma_output_is_glyphs_and_other_characters(s: Seq<char>)
    requires
        transliteration(s) is Some,
    ensures
        forall|k: int|
            0 <= k < transliteration(s)->0.len() ==> {
                let c = #[trigger] transliteration(s)->0[k];
                is_legacy_glyph(c) || (s.contains(c) && !is_vowel(c) && !is_consonant(c))
            },
    decreases s.len(),
{
    if s.len() > 0 {
        let e = first_entity(s);
        let rest = after_first_entity(s);
        lemma_first_entity(s);
        lemma_transliteration_unfold(s);
        lemma_entity_glyphs_are_legacy(e);
        lemma_output_is_glyphs_and_other_characters(rest);
        let head = entity_glyphs(e)->0;
        let tail = transliteration(rest)->0;
        let out = transliteration(s)->0;
        assert forall|k: int| 0 <= k < out.len() implies {
            let c = #[trigger] out[k];
            is_legacy_glyph(c) || (s.contains(c) && !is_vowel(c) && !is_consonant(c))
        } by {
            if k >= head.len() {
                let c = tail[k - head.len()];
                if !is_legacy_glyph(c) {
                    // `c` stands in the rest, so it stands in the text.
                    let j: int = choose|j: int| 0 <= j < rest.len() && rest[j] == c;
                    assert(s[j + (s.len() - rest.len())] == c);
                }
            }
        }
    }
}

/// `output` is a conversion of `source`, as the converter promises it.
pub open spec fn is_conversion_of(source: Seq<char>, output: Seq<char>) -> bool {
    transliteration(source) == Some(output)
}

/// Conversion is deterministic: a text has at most one conversion, so two
/// runs on the same text give the same characters.
pub proof fn lemma_conversion_is_deterministic(
    source: Seq<char>,
    first: Seq<char>,
    second: Seq<char>,
)
    requires
        is_conversion_of(source, first),
        is_conversion_of(source, second),
    ensures
        first == second,
{
}

} // verus!
