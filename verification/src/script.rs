//! The character classes of the Tamil script that the grammar distinguishes.
//!
//! Every class is a finite set of Unicode scalar values, and no two of them
//! overlap: a character is a vowel, a consonant, one of the four kinds of
//! combining mark, or none of these.

use vstd::prelude::*;

verus! {

/// The character list of the independent vowels, aytham last.
pub const VOWELS: &'static str = "அஆஇஈஉஊஎஏஐஒஓஔஃ";

/// The character list of the consonants, the Grantha letters last.
pub const CONSONANTS: &'static str = "கஙசஞடணதநபமயரலவழளறனஷஜஸஹ";

/// The virama and the vowel signs I, II, U and UU.
pub const RIDING_MARKS: &'static str = "\u{0bcd}\u{0bbf}\u{0bc0}\u{0bc1}\u{0bc2}";

/// The vowel signs E, EE and AI.
pub const PRECEDING_MARKS: &'static str = "\u{0bc6}\u{0bc7}\u{0bc8}";

/// The vowel sign AA.
pub const FOLLOWING_MARKS: &'static str = "\u{0bbe}";

/// The vowel signs O, OO and AU.
pub const PRECEDING_AND_FOLLOWING_MARKS: &'static str = "\u{0bca}\u{0bcb}\u{0bcc}";

/// The honorific that is read as one unit: SA, virama, RA, vowel sign II.
pub const SRI: &'static str = "ஸ்ரீ";

/// The twelve independent vowel letters and the aytham.
pub open spec fn is_vowel(c: char) -> bool {
    ||| c == 'அ'
    ||| c == 'ஆ'
    ||| c == 'இ'
    ||| c == 'ஈ'
    ||| c == 'உ'
    ||| c == 'ஊ'
    ||| c == 'எ'
    ||| c == 'ஏ'
    ||| c == 'ஐ'
    ||| c == 'ஒ'
    ||| c == 'ஓ'
    ||| c == 'ஔ'
    ||| c == 'ஃ'
}

/// The eighteen native consonant letters and the four Grantha letters.
pub open spec fn is_consonant(c: char) -> bool {
    ||| c == 'க'
    ||| c == 'ங'
    ||| c == 'ச'
    ||| c == 'ஞ'
    ||| c == 'ட'
    ||| c == 'ண'
    ||| c == 'த'
    ||| c == 'ந'
    ||| c == 'ப'
    ||| c == 'ம'
    ||| c == 'ய'
    ||| c == 'ர'
    ||| c == 'ல'
    ||| c == 'வ'
    ||| c == 'ழ'
    ||| c == 'ள'
    ||| c == 'ற'
    ||| c == 'ன'
    ||| c == 'ஷ'
    ||| c == 'ஜ'
    ||| c == 'ஸ'
    ||| c == 'ஹ'
}

/// A mark that is drawn in the glyph slot of its consonant: the virama and
/// the vowel signs I, II, U and UU.
pub open spec fn is_riding_mark(c: char) -> bool {
    ||| c == '\u{0bcd}'
    ||| c == '\u{0bbf}'
    ||| c == '\u{0bc0}'
    ||| c == '\u{0bc1}'
    ||| c == '\u{0bc2}'
}

/// A vowel sign that is drawn before its consonant: E, EE and AI.
pub open spec fn is_preceding_mark(c: char) -> bool {
    c == '\u{0bc6}' || c == '\u{0bc7}' || c == '\u{0bc8}'
}

/// The vowel sign that is drawn after its consonant: AA.
pub open spec fn is_following_mark(c: char) -> bool {
    c == '\u{0bbe}'
}

/// A vowel sign that is drawn in two parts, around its consonant: O, OO and AU.
pub open spec fn is_preceding_and_following_mark(c: char) -> bool {
    c == '\u{0bca}' || c == '\u{0bcb}' || c == '\u{0bcc}'
}

/// A vowel sign that has glyphs of its own beside the consonant.
pub open spec fn is_non_riding_mark(c: char) -> bool {
    is_preceding_and_following_mark(c) || is_preceding_mark(c) || is_following_mark(c)
}

/// Any of the twelve combining marks.
pub open spec fn is_mark(c: char) -> bool {
    is_riding_mark(c) || is_non_riding_mark(c)
}

/// The honorific as a sequence of its four scalar values.
pub open spec fn sri() -> Seq<char> {
    seq!['\u{0bb8}', '\u{0bcd}', '\u{0bb0}', '\u{0bc0}']
}

/// Tells whether a character is a vowel sign that has glyphs of its own.
pub fn is_non_riding(c: char) -> (r: bool)
    ensures
        r == is_non_riding_mark(c),
{
    match c {
        '\u{0bca}' | '\u{0bcb}' | '\u{0bcc}' => true,
        '\u{0bc6}' | '\u{0bc7}' | '\u{0bc8}' => true,
        '\u{0bbe}' => true,
        _ => false,
    }
}

/// The character lists name exactly the members of the classes.
pub proof fn lemma_character_lists()
    ensures
        forall|c: char| VOWELS@.contains(c) <==> is_vowel(c),
        forall|c: char| CONSONANTS@.contains(c) <==> is_consonant(c),
        forall|c: char| RIDING_MARKS@.contains(c) <==> is_riding_mark(c),
        forall|c: char| PRECEDING_MARKS@.contains(c) <==> is_preceding_mark(c),
        forall|c: char| FOLLOWING_MARKS@.contains(c) <==> is_following_mark(c),
        forall|c: char|
            PRECEDING_AND_FOLLOWING_MARKS@.contains(c) <==> is_preceding_and_following_mark(c),
        SRI@ == sri(),
{
    lemma_vowel_list();
    lemma_consonant_list();
    lemma_mark_lists();
    reveal_strlit("ஸ்ரீ");
}

/// Every index of the vowel list holds a vowel, and every vowel is at one.
proof fn lemma_vowel_list()
    ensures
        forall|c: char| VOWELS@.contains(c) <==> is_vowel(c),
{
    reveal_strlit("அஆஇஈஉஊஎஏஐஒஓஔஃ");
    assert(VOWELS@[0] == 'அ');
    assert(VOWELS@[1] == 'ஆ');
    assert(VOWELS@[2] == 'இ');
    assert(VOWELS@[3] == 'ஈ');
    assert(VOWELS@[4] == 'உ');
    assert(VOWELS@[5] == 'ஊ');
    assert(VOWELS@[6] == 'எ');
    assert(VOWELS@[7] == 'ஏ');
    assert(VOWELS@[8] == 'ஐ');
    assert(VOWELS@[9] == 'ஒ');
    assert(VOWELS@[10] == 'ஓ');
    assert(VOWELS@[11] == 'ஔ');
    assert(VOWELS@[12] == 'ஃ');
}

/// Every index of the consonant list holds a consonant, and every consonant
/// is at one.
proof fn lemma_consonant_list()
    ensures
        forall|c: char| CONSONANTS@.contains(c) <==> is_consonant(c),
{
    reveal_strlit("கஙசஞடணதநபமயரலவழளறனஷஜஸஹ");
    assert(CONSONANTS@[0] == 'க');
    assert(CONSONANTS@[1] == 'ங');
    assert(CONSONANTS@[2] == 'ச');
    assert(CONSONANTS@[3] == 'ஞ');
    assert(CONSONANTS@[4] == 'ட');
    assert(CONSONANTS@[5] == 'ண');
    assert(CONSONANTS@[6] == 'த');
    assert(CONSONANTS@[7] == 'ந');
    assert(CONSONANTS@[8] == 'ப');
    assert(CONSONANTS@[9] == 'ம');
    assert(CONSONANTS@[10] == 'ய');
    assert(CONSONANTS@[11] == 'ர');
    assert(CONSONANTS@[12] == 'ல');
    assert(CONSONANTS@[13] == 'வ');
    assert(CONSONANTS@[14] == 'ழ');
    assert(CONSONANTS@[15] == 'ள');
    assert(CONSONANTS@[16] == 'ற');
    assert(CONSONANTS@[17] == 'ன');
    assert(CONSONANTS@[18] == 'ஷ');
    assert(CONSONANTS@[19] == 'ஜ');
    assert(CONSONANTS@[20] == 'ஸ');
    assert(CONSONANTS@[21] == 'ஹ');
}

/// The same for the four lists of marks.
proof fn lemma_mark_lists()
    ensures
        forall|c: char| RIDING_MARKS@.contains(c) <==> is_riding_mark(c),
        forall|c: char| PRECEDING_MARKS@.contains(c) <==> is_preceding_mark(c),
        forall|c: char| FOLLOWING_MARKS@.contains(c) <==> is_following_mark(c),
        forall|c: char|
            PRECEDING_AND_FOLLOWING_MARKS@.contains(c) <==> is_preceding_and_following_mark(c),
{
    reveal_strlit("\u{0bcd}\u{0bbf}\u{0bc0}\u{0bc1}\u{0bc2}");
    assert(RIDING_MARKS@[0] == '\u{0bcd}');
    assert(RIDING_MARKS@[1] == '\u{0bbf}');
    assert(RIDING_MARKS@[2] == '\u{0bc0}');
    assert(RIDING_MARKS@[3] == '\u{0bc1}');
    assert(RIDING_MARKS@[4] == '\u{0bc2}');
    reveal_strlit("\u{0bc6}\u{0bc7}\u{0bc8}");
    assert(PRECEDING_MARKS@[0] == '\u{0bc6}');
    assert(PRECEDING_MARKS@[1] == '\u{0bc7}');
    assert(PRECEDING_MARKS@[2] == '\u{0bc8}');
    reveal_strlit("\u{0bbe}");
    assert(FOLLOWING_MARKS@[0] == '\u{0bbe}');
    reveal_strlit("\u{0bca}\u{0bcb}\u{0bcc}");
    assert(PRECEDING_AND_FOLLOWING_MARKS@[0] == '\u{0bca}');
    assert(PRECEDING_AND_FOLLOWING_MARKS@[1] == '\u{0bcb}');
    assert(PRECEDING_AND_FOLLOWING_MARKS@[2] == '\u{0bcc}');
}

} // verus!
