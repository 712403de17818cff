//! The glyph tables of the legacy font.
//!
//! The font has one glyph for every vowel and consonant letter, one for
//! almost every consonant that carries a riding mark, and a few affix glyphs
//! from which the other vowel signs are put together around a consonant.
//! Every glyph is a scalar value in the private use area.

use vstd::prelude::*;

verus! {

/// The glyph of the honorific.
pub const SRI_GLYPH: char = '\u{f070}';

/// The glyph of a vowel or consonant letter; no other character has one.
pub open spec fn letter_glyph(c: char) -> Option<char> {
    match c {
        'அ' => Some('\u{f0b6}'),
        'ஆ' => Some('\u{f067}'),
        'இ' => Some('\u{f0d6}'),
        'ஈ' => Some('\u{f07e}'),
        'உ' => Some('\u{f063}'),
        'ஊ' => Some('\u{f0bb}'),
        'எ' => Some('\u{f0a8}'),
        'ஏ' => Some('\u{f0b0}'),
        'ஐ' => Some('\u{f06e}'),
        'ஒ' => Some('\u{f0ce}'),
        'ஓ' => Some('\u{f07b}'),
        'ஔ' => Some('\u{f0c1}'),
        'ஃ' => Some('\u{f0e0}'),
        'க' => Some('\u{f0ef}'),
        'ங' => Some('\u{f0f4}'),
        'ச' => Some('\u{f0c4}'),
        'ஞ' => Some('\u{f051}'),
        'ட' => Some('\u{f0a6}'),
        'ண' => Some('\u{f0f0}'),
        'த' => Some('\u{f03e}'),
        'ந' => Some('\u{f0e5}'),
        'ப' => Some('\u{f0c3}'),
        'ம' => Some('\u{f05c}'),
        'ய' => Some('\u{f042}'),
        'ர' => Some('\u{f0ab}'),
        'ல' => Some('\u{f0e9}'),
        'வ' => Some('\u{f06b}'),
        'ழ' => Some('\u{f077}'),
        'ள' => Some('\u{f065}'),
        'ற' => Some('\u{f0c5}'),
        'ன' => Some('\u{f0aa}'),
        'ஷ' => Some('\u{f0ad}'),
        'ஜ' => Some('\u{f0db}'),
        'ஸ' => Some('\u{f076}'),
        'ஹ' => Some('\u{f0c7}'),
        _ => None,
    }
}

/// The glyph of a consonant with the virama on it.
pub open spec fn virama_form(c: char) -> Option<char> {
    match c {
        'க' => Some('\u{f0c2}'),
        'ங' => Some('\u{f0ba}'),
        'ச' => Some('\u{f0df}'),
        'ஞ' => Some('\u{f0de}'),
        'ட' => Some('\u{f0e2}'),
        'ண' => Some('\u{f0f5}'),
        'த' => Some('\u{f0dd}'),
        'ந' => Some('\u{f0cd}'),
        'ப' => Some('\u{f0a9}'),
        'ம' => Some('\u{f044}'),
        'ய' => Some('\u{f046}'),
        'ர' => Some('\u{f0ec}'),
        'ல' => Some('\u{f05f}'),
        'வ' => Some('\u{f0cb}'),
        'ழ' => Some('\u{f0b5}'),
        'ள' => Some('\u{f05e}'),
        'ற' => Some('\u{f075}'),
        'ன' => Some('\u{f05b}'),
        'ஷ' => Some('\u{f069}'),
        'ஜ' => Some('\u{f0eb}'),
        'ஸ' => Some('\u{f0fc}'),
        'ஹ' => Some('\u{f0e3}'),
        _ => None,
    }
}

/// The glyph of a consonant with the vowel sign I; the font has none for NGA and NYA.
pub open spec fn sign_i_form(c: char) -> Option<char> {
    match c {
        'க' => Some('\u{f0fe}'),
        'ச' => Some('\u{f045}'),
        'ட' => Some('\u{f0bd}'),
        'ண' => Some('\u{f0e8}'),
        'த' => Some('\u{f05d}'),
        'ந' => Some('\u{f057}'),
        'ப' => Some('\u{f0b8}'),
        'ம' => Some('\u{f074}'),
        'ய' => Some('\u{f06c}'),
        'ர' => Some('\u{f0f6}'),
        'ல' => Some('\u{f06f}'),
        'வ' => Some('\u{f073}'),
        'ழ' => Some('\u{f061}'),
        'ள' => Some('\u{f0b9}'),
        'ற' => Some('\u{f0a4}'),
        'ன' => Some('\u{f04d}'),
        'ஷ' => Some('\u{f0b4}'),
        'ஜ' => Some('\u{f0f7}'),
        'ஸ' => Some('\u{f04c}'),
        'ஹ' => Some('\u{f04e}'),
        _ => None,
    }
}

/// The glyph of a consonant with the vowel sign II; the font has none for NGA and NYA.
pub open spec fn sign_ii_form(c: char) -> Option<char> {
    match c {
        'க' => Some('\u{f0ff}'),
        'ச' => Some('\u{f0e6}'),
        'ட' => Some('\u{f0cf}'),
        'ண' => Some('\u{f0a7}'),
        'த' => Some('\u{f079}'),
        'ந' => Some('\u{f0c0}'),
        'ப' => Some('\u{f0ac}'),
        'ம' => Some('\u{f02a}'),
        'ய' => Some('\u{f058}'),
        'ர' => Some('\u{f05a}'),
        'ல' => Some('\u{f0dc}'),
        'வ' => Some('\u{f054}'),
        'ழ' => Some('\u{f0d1}'),
        'ள' => Some('\u{f043}'),
        'ற' => Some('\u{f053}'),
        'ன' => Some('\u{f0cc}'),
        'ஷ' => Some('\u{f055}'),
        'ஜ' => Some('\u{f0fd}'),
        'ஸ' => Some('\u{f0a2}'),
        'ஹ' => Some('\u{f0ea}'),
        _ => None,
    }
}

/// The glyph of a consonant with the vowel sign U; the font has none for NGA and NYA.
pub open spec fn sign_u_form(c: char) -> Option<char> {
    match c {
        'க' => Some('\u{f07a}'),
        'ச' => Some('\u{f0b7}'),
        'ட' => Some('\u{f07c}'),
        'ண' => Some('\u{f062}'),
        'த' => Some('\u{f06d}'),
        'ந' => Some('\u{f04f}'),
        'ப' => Some('\u{f041}'),
        'ம' => Some('\u{f078}'),
        'ய' => Some('\u{f0a5}'),
        'ர' => Some('\u{f0f2}'),
        'ல' => Some('\u{f04b}'),
        'வ' => Some('\u{f0a1}'),
        'ழ' => Some('\u{f0bf}'),
        'ள' => Some('\u{f0d3}'),
        'ற' => Some('\u{f0ae}'),
        'ன' => Some('\u{f0d0}'),
        'ஷ' => Some('\u{f0d7}'),
        'ஜ' => Some('\u{f068}'),
        'ஸ' => Some('\u{f071}'),
        'ஹ' => Some('\u{f0f8}'),
        _ => None,
    }
}

/// The glyph of a consonant with the vowel sign UU; the font has none for NGA and NYA.
pub open spec fn sign_uu_form(c: char) -> Option<char> {
    match c {
        'க' => Some('\u{f0ed}'),
        'ச' => Some('\u{f0f3}'),
        'ட' => Some('\u{f0f9}'),
        'ண' => Some('\u{f049}'),
        'த' => Some('\u{f023}'),
        'ந' => Some('\u{f0b1}'),
        'ப' => Some('\u{f0af}'),
        'ம' => Some('\u{f04a}'),
        'ய' => Some('\u{f052}'),
        'ர' => Some('\u{f0d4}'),
        'ல' => Some('\u{f0d9}'),
        'வ' => Some('\u{f0c6}'),
        'ழ' => Some('\u{f0f1}'),
        'ள' => Some('\u{f06a}'),
        'ற' => Some('\u{f047}'),
        'ன' => Some('\u{f0fb}'),
        'ஷ' => Some('\u{f0a3}'),
        'ஜ' => Some('\u{f0c9}'),
        'ஸ' => Some('\u{f060}'),
        'ஹ' => Some('\u{f0da}'),
        _ => None,
    }
}

/// The single glyph of a consonant together with a riding mark.
pub open spec fn pair_glyph(c: char, m: char) -> Option<char> {
    match m {
        '\u{0bcd}' => virama_form(c),
        '\u{0bbf}' => sign_i_form(c),
        '\u{0bc0}' => sign_ii_form(c),
        '\u{0bc1}' => sign_u_form(c),
        '\u{0bc2}' => sign_uu_form(c),
        _ => None,
    }
}

/// The glyph that a vowel sign puts before its consonant, if it puts one.
/// The signs O, OO and AU all take the prefix of the sign E.
pub open spec fn prefix_glyph(m: char) -> Option<char> {
    match m {
        '\u{0bc6}' | '\u{0bca}' | '\u{0bcb}' | '\u{0bcc}' => Some('\u{f0d8}'),
        '\u{0bc7}' => Some('\u{f0bc}'),
        '\u{0bc8}' => Some('\u{f0e7}'),
        _ => None,
    }
}

/// The glyph that a vowel sign puts after its consonant, if it puts one.
/// The signs O and OO take the suffix of the sign AA.
pub open spec fn suffix_glyph(m: char) -> Option<char> {
    match m {
        '\u{0bbe}' | '\u{0bca}' | '\u{0bcb}' => Some('\u{f056}'),
        '\u{0bcc}' => Some('\u{f065}'),
        _ => None,
    }
}

/// Nothing, or the one glyph.
pub open spec fn glyph_seq(g: Option<char>) -> Seq<char> {
    match g {
        Some(c) => seq![c],
        None => Seq::empty(),
    }
}

/// The glyphs of a consonant glyph with a vowel sign around it, in the order
/// in which they are drawn.
pub open spec fn composed_glyphs(consonant_glyph: char, m: char) -> Seq<char> {
    glyph_seq(prefix_glyph(m)) + seq![consonant_glyph] + glyph_seq(suffix_glyph(m))
}

/// Looks a letter up in the table of single letters.
pub fn lookup_letter(c: char) -> (r: Option<char>)
    ensures
        r == letter_glyph(c),
{
    match c {
        'அ' => Some('\u{f0b6}'),
        'ஆ' => Some('\u{f067}'),
        'இ' => Some('\u{f0d6}'),
        'ஈ' => Some('\u{f07e}'),
        'உ' => Some('\u{f063}'),
        'ஊ' => Some('\u{f0bb}'),
        'எ' => Some('\u{f0a8}'),
        'ஏ' => Some('\u{f0b0}'),
        'ஐ' => Some('\u{f06e}'),
        'ஒ' => Some('\u{f0ce}'),
        'ஓ' => Some('\u{f07b}'),
        'ஔ' => Some('\u{f0c1}'),
        'ஃ' => Some('\u{f0e0}'),
        'க' => Some('\u{f0ef}'),
        'ங' => Some('\u{f0f4}'),
        'ச' => Some('\u{f0c4}'),
        'ஞ' => Some('\u{f051}'),
        'ட' => Some('\u{f0a6}'),
        'ண' => Some('\u{f0f0}'),
        'த' => Some('\u{f03e}'),
        'ந' => Some('\u{f0e5}'),
        'ப' => Some('\u{f0c3}'),
        'ம' => Some('\u{f05c}'),
        'ய' => Some('\u{f042}'),
        'ர' => Some('\u{f0ab}'),
        'ல' => Some('\u{f0e9}'),
        'வ' => Some('\u{f06b}'),
        'ழ' => Some('\u{f077}'),
        'ள' => Some('\u{f065}'),
        'ற' => Some('\u{f0c5}'),
        'ன' => Some('\u{f0aa}'),
        'ஷ' => Some('\u{f0ad}'),
        'ஜ' => Some('\u{f0db}'),
        'ஸ' => Some('\u{f076}'),
        'ஹ' => Some('\u{f0c7}'),
        _ => None,
    }
}

/// Looks a consonant and its riding mark up in the table of pairs.
pub fn lookup_pair(c: char, m: char) -> (r: Option<char>)
    ensures
        r == pair_glyph(c, m),
{
    match (c, m) {
        ('க', '\u{0bcd}') => Some('\u{f0c2}'),
        ('ங', '\u{0bcd}') => Some('\u{f0ba}'),
        ('ச', '\u{0bcd}') => Some('\u{f0df}'),
        ('ஞ', '\u{0bcd}') => Some('\u{f0de}'),
        ('ட', '\u{0bcd}') => Some('\u{f0e2}'),
        ('ண', '\u{0bcd}') => Some('\u{f0f5}'),
        ('த', '\u{0bcd}') => Some('\u{f0dd}'),
        ('ந', '\u{0bcd}') => Some('\u{f0cd}'),
        ('ப', '\u{0bcd}') => Some('\u{f0a9}'),
        ('ம', '\u{0bcd}') => Some('\u{f044}'),
        ('ய', '\u{0bcd}') => Some('\u{f046}'),
        ('ர', '\u{0bcd}') => Some('\u{f0ec}'),
        ('ல', '\u{0bcd}') => Some('\u{f05f}'),
        ('வ', '\u{0bcd}') => Some('\u{f0cb}'),
        ('ழ', '\u{0bcd}') => Some('\u{f0b5}'),
        ('ள', '\u{0bcd}') => Some('\u{f05e}'),
        ('ற', '\u{0bcd}') => Some('\u{f075}'),
        ('ன', '\u{0bcd}') => Some('\u{f05b}'),
        ('ஷ', '\u{0bcd}') => Some('\u{f069}'),
        ('ஜ', '\u{0bcd}') => Some('\u{f0eb}'),
        ('ஸ', '\u{0bcd}') => Some('\u{f0fc}'),
        ('ஹ', '\u{0bcd}') => Some('\u{f0e3}'),
        ('க', '\u{0bbf}') => Some('\u{f0fe}'),
        ('ச', '\u{0bbf}') => Some('\u{f045}'),
        ('ட', '\u{0bbf}') => Some('\u{f0bd}'),
        ('ண', '\u{0bbf}') => Some('\u{f0e8}'),
        ('த', '\u{0bbf}') => Some('\u{f05d}'),
        ('ந', '\u{0bbf}') => Some('\u{f057}'),
        ('ப', '\u{0bbf}') => Some('\u{f0b8}'),
        ('ம', '\u{0bbf}') => Some('\u{f074}'),
        ('ய', '\u{0bbf}') => Some('\u{f06c}'),
        ('ர', '\u{0bbf}') => Some('\u{f0f6}'),
        ('ல', '\u{0bbf}') => Some('\u{f06f}'),
        ('வ', '\u{0bbf}') => Some('\u{f073}'),
        ('ழ', '\u{0bbf}') => Some('\u{f061}'),
        ('ள', '\u{0bbf}') => Some('\u{f0b9}'),
        ('ற', '\u{0bbf}') => Some('\u{f0a4}'),
        ('ன', '\u{0bbf}') => Some('\u{f04d}'),
        ('ஷ', '\u{0bbf}') => Some('\u{f0b4}'),
        ('ஜ', '\u{0bbf}') => Some('\u{f0f7}'),
        ('ஸ', '\u{0bbf}') => Some('\u{f04c}'),
        ('ஹ', '\u{0bbf}') => Some('\u{f04e}'),
        ('க', '\u{0bc0}') => Some('\u{f0ff}'),
        ('ச', '\u{0bc0}') => Some('\u{f0e6}'),
        ('ட', '\u{0bc0}') => Some('\u{f0cf}'),
        ('ண', '\u{0bc0}') => Some('\u{f0a7}'),
        ('த', '\u{0bc0}') => Some('\u{f079}'),
        ('ந', '\u{0bc0}') => Some('\u{f0c0}'),
        ('ப', '\u{0bc0}') => Some('\u{f0ac}'),
        ('ம', '\u{0bc0}') => Some('\u{f02a}'),
        ('ய', '\u{0bc0}') => Some('\u{f058}'),
        ('ர', '\u{0bc0}') => Some('\u{f05a}'),
        ('ல', '\u{0bc0}') => Some('\u{f0dc}'),
        ('வ', '\u{0bc0}') => Some('\u{f054}'),
        ('ழ', '\u{0bc0}') => Some('\u{f0d1}'),
        ('ள', '\u{0bc0}') => Some('\u{f043}'),
        ('ற', '\u{0bc0}') => Some('\u{f053}'),
        ('ன', '\u{0bc0}') => Some('\u{f0cc}'),
        ('ஷ', '\u{0bc0}') => Some('\u{f055}'),
        ('ஜ', '\u{0bc0}') => Some('\u{f0fd}'),
        ('ஸ', '\u{0bc0}') => Some('\u{f0a2}'),
        ('ஹ', '\u{0bc0}') => Some('\u{f0ea}'),
        ('க', '\u{0bc1}') => Some('\u{f07a}'),
        ('ச', '\u{0bc1}') => Some('\u{f0b7}'),
        ('ட', '\u{0bc1}') => Some('\u{f07c}'),
        ('ண', '\u{0bc1}') => Some('\u{f062}'),
        ('த', '\u{0bc1}') => Some('\u{f06d}'),
        ('ந', '\u{0bc1}') => Some('\u{f04f}'),
        ('ப', '\u{0bc1}') => Some('\u{f041}'),
        ('ம', '\u{0bc1}') => Some('\u{f078}'),
        ('ய', '\u{0bc1}') => Some('\u{f0a5}'),
        ('ர', '\u{0bc1}') => Some('\u{f0f2}'),
        ('ல', '\u{0bc1}') => Some('\u{f04b}'),
        ('வ', '\u{0bc1}') => Some('\u{f0a1}'),
        ('ழ', '\u{0bc1}') => Some('\u{f0bf}'),
        ('ள', '\u{0bc1}') => Some('\u{f0d3}'),
        ('ற', '\u{0bc1}') => Some('\u{f0ae}'),
        ('ன', '\u{0bc1}') => Some('\u{f0d0}'),
        ('ஷ', '\u{0bc1}') => Some('\u{f0d7}'),
        ('ஜ', '\u{0bc1}') => Some('\u{f068}'),
        ('ஸ', '\u{0bc1}') => Some('\u{f071}'),
        ('ஹ', '\u{0bc1}') => Some('\u{f0f8}'),
        ('க', '\u{0bc2}') => Some('\u{f0ed}'),
        ('ச', '\u{0bc2}') => Some('\u{f0f3}'),
        ('ட', '\u{0bc2}') => Some('\u{f0f9}'),
        ('ண', '\u{0bc2}') => Some('\u{f049}'),
        ('த', '\u{0bc2}') => Some('\u{f023}'),
        ('ந', '\u{0bc2}') => Some('\u{f0b1}'),
        ('ப', '\u{0bc2}') => Some('\u{f0af}'),
        ('ம', '\u{0bc2}') => Some('\u{f04a}'),
        ('ய', '\u{0bc2}') => Some('\u{f052}'),
        ('ர', '\u{0bc2}') => Some('\u{f0d4}'),
        ('ல', '\u{0bc2}') => Some('\u{f0d9}'),
        ('வ', '\u{0bc2}') => Some('\u{f0c6}'),
        ('ழ', '\u{0bc2}') => Some('\u{f0f1}'),
        ('ள', '\u{0bc2}') => Some('\u{f06a}'),
        ('ற', '\u{0bc2}') => Some('\u{f047}'),
        ('ன', '\u{0bc2}') => Some('\u{f0fb}'),
        ('ஷ', '\u{0bc2}') => Some('\u{f0a3}'),
        ('ஜ', '\u{0bc2}') => Some('\u{f0c9}'),
        ('ஸ', '\u{0bc2}') => Some('\u{f060}'),
        ('ஹ', '\u{0bc2}') => Some('\u{f0da}'),
        _ => None,
    }
}

} // verus!
