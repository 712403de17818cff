use unic_stmzh::segment::{
    parse_consonant, parse_consonant_helper, parse_following_mark, parse_mark,
    parse_non_riding_mark, parse_not_markable, parse_other, parse_preceding_and_following_mark, parse_preceding_mark,
    parse_riding_mark, parse_sri, parse_vowel,
};
use unic_stmzh::{
    parse_composed_entity, parse_entity, parse_separate_entity, MarkType, ParseError,
    TamilDetailedEntity,
};

fn entities(mut data: &str) -> Vec<TamilDetailedEntity<'_>> {
    let mut found = Vec::new();
    while let Ok((rest, entity)) = parse_entity(data) {
        found.push(entity);
        data = rest;
    }
    assert_eq!(data, "");
    found
}

fn span(entity: &TamilDetailedEntity) -> String {
    match *entity {
        TamilDetailedEntity::Vowel(c)
        | TamilDetailedEntity::Consonant(c)
        | TamilDetailedEntity::Other(c) => c.to_string(),
        TamilDetailedEntity::SeparateEntity((c, m))
        | TamilDetailedEntity::ComposedEntity((c, _, m)) => format!("{}{}", c, m),
        TamilDetailedEntity::SpecialEntity(s) => s.to_string(),
    }
}

#[test]
fn it_works() {
    assert_eq!(2 + 2, 4);
}

#[test]
fn amma_is_three_entities() {
    assert_eq!(
        entities("அம்மா"),
        vec![
            TamilDetailedEntity::Vowel('அ'),
            TamilDetailedEntity::SeparateEntity(('ம', '\u{0bcd}')),
            TamilDetailedEntity::ComposedEntity(('ம', MarkType::Following, '\u{0bbe}')),
        ]
    );
}

#[test]
fn spans_give_the_input_back() {
    for input in [
        "",
        "அம்மா",
        "தமிழ் மொழி, 2024!",
        "ஸ்ரீ ரங்கம்",
        "\u{0bcd}\u{0bbe}க",
        "ஸ்ர ஸ் ஸ",
        "abc கௌ கொ கோ கை கே கெ",
    ] {
        let joined: String = entities(input).iter().map(span).collect();
        assert_eq!(joined, input);
    }
}

#[test]
fn empty_input_has_no_entity() {
    assert_eq!(parse_entity(""), Err(ParseError::Eof));
    assert_eq!(parse_other(""), Err(ParseError::Eof));
    assert!(entities("").is_empty());
}

#[test]
fn entity_hands_back_the_rest() {
    assert_eq!(parse_entity("கா ab"), Ok((
        " ab",
        TamilDetailedEntity::ComposedEntity(('க', MarkType::Following, '\u{0bbe}')),
    )));
    assert_eq!(parse_entity("x"), Ok(("", TamilDetailedEntity::Other('x'))));
    assert_eq!(parse_entity("ஃக"), Ok(("க", TamilDetailedEntity::Vowel('ஃ'))));
}

#[test]
fn honorific_is_one_entity() {
    assert_eq!(entities("ஸ்ரீ"), vec![TamilDetailedEntity::SpecialEntity("ஸ்ரீ")]);
    assert_eq!(parse_sri("ஸ்ரீமான்"), Ok(("மான்", TamilDetailedEntity::SpecialEntity("ஸ்ரீ"))));
    assert_eq!(
        entities("கஸ்ரீ"),
        vec![TamilDetailedEntity::Consonant('க'), TamilDetailedEntity::SpecialEntity("ஸ்ரீ")]
    );
}

#[test]
fn part_of_the_honorific_is_read_letter_by_letter() {
    assert_eq!(parse_sri("ஸ்ர"), Err(ParseError::Tag));
    assert_eq!(parse_sri(""), Err(ParseError::Tag));
    assert_eq!(
        entities("ஸ்ர"),
        vec![
            TamilDetailedEntity::SeparateEntity(('ஸ', '\u{0bcd}')),
            TamilDetailedEntity::Consonant('ர'),
        ]
    );
    assert_eq!(
        entities("ஸ்ரி"),
        vec![
            TamilDetailedEntity::SeparateEntity(('ஸ', '\u{0bcd}')),
            TamilDetailedEntity::SeparateEntity(('ர', '\u{0bbf}')),
        ]
    );
}

#[test]
fn consonant_without_a_mark_is_bare() {
    assert_eq!(entities("க"), vec![TamilDetailedEntity::Consonant('க')]);
    assert_eq!(
        entities("கம"),
        vec![TamilDetailedEntity::Consonant('க'), TamilDetailedEntity::Consonant('ம')]
    );
    assert_eq!(
        entities("கa"),
        vec![TamilDetailedEntity::Consonant('க'), TamilDetailedEntity::Other('a')]
    );
}

#[test]
fn mark_without_a_consonant_is_other() {
    assert_eq!(entities("\u{0bbe}"), vec![TamilDetailedEntity::Other('\u{0bbe}')]);
    assert_eq!(
        entities("அ\u{0bcd}"),
        vec![TamilDetailedEntity::Vowel('அ'), TamilDetailedEntity::Other('\u{0bcd}')]
    );
    assert_eq!(
        entities("க\u{0bbe}\u{0bbe}"),
        vec![
            TamilDetailedEntity::ComposedEntity(('க', MarkType::Following, '\u{0bbe}')),
            TamilDetailedEntity::Other('\u{0bbe}'),
        ]
    );
}

#[test]
fn every_mark_has_its_placement() {
    for (mark, kind) in [
        ('\u{0bc6}', MarkType::Preceding),
        ('\u{0bc7}', MarkType::Preceding),
        ('\u{0bc8}', MarkType::Preceding),
        ('\u{0bbe}', MarkType::Following),
        ('\u{0bca}', MarkType::PrecedingAndFollowing),
        ('\u{0bcb}', MarkType::PrecedingAndFollowing),
        ('\u{0bcc}', MarkType::PrecedingAndFollowing),
    ] {
        let input = format!("ப{}", mark);
        assert_eq!(
            parse_composed_entity(&input),
            Ok(("", TamilDetailedEntity::ComposedEntity(('ப', kind, mark))))
        );
        assert_eq!(parse_non_riding_mark(&input[3..]), Ok(("", (kind, mark))));
        assert_eq!(parse_separate_entity(&input), Err(ParseError::OneOf));
        assert_eq!(parse_riding_mark(&input[3..]), Err(ParseError::OneOf));
    }
    for mark in ['\u{0bcd}', '\u{0bbf}', '\u{0bc0}', '\u{0bc1}', '\u{0bc2}'] {
        let input = format!("ப{}", mark);
        assert_eq!(
            parse_separate_entity(&input),
            Ok(("", TamilDetailedEntity::SeparateEntity(('ப', mark))))
        );
        assert_eq!(parse_riding_mark(&input[3..]), Ok(("", (MarkType::Riding, mark))));
        assert_eq!(parse_composed_entity(&input), Err(ParseError::OneOf));
        assert_eq!(parse_non_riding_mark(&input[3..]), Err(ParseError::OneOf));
    }
}

#[test]
fn mark_parsers_keep_to_their_class() {
    assert_eq!(parse_preceding_mark("\u{0bc6}x"), Ok(("x", (MarkType::Preceding, '\u{0bc6}'))));
    assert_eq!(parse_preceding_mark("\u{0bbe}"), Err(ParseError::OneOf));
    assert_eq!(parse_following_mark("\u{0bbe}x"), Ok(("x", (MarkType::Following, '\u{0bbe}'))));
    assert_eq!(parse_following_mark("\u{0bc6}"), Err(ParseError::OneOf));
    assert_eq!(
        parse_preceding_and_following_mark("\u{0bcc}x"),
        Ok(("x", (MarkType::PrecedingAndFollowing, '\u{0bcc}')))
    );
    assert_eq!(parse_preceding_and_following_mark("\u{0bc6}"), Err(ParseError::OneOf));
    assert_eq!(parse_preceding_and_following_mark(""), Err(ParseError::OneOf));
}

#[test]
fn pair_parsers_need_both_characters() {
    assert_eq!(parse_separate_entity(""), Err(ParseError::OneOf));
    assert_eq!(parse_separate_entity("க"), Err(ParseError::OneOf));
    assert_eq!(parse_separate_entity("அ\u{0bcd}"), Err(ParseError::OneOf));
    assert_eq!(parse_separate_entity("\u{0bcd}க"), Err(ParseError::OneOf));
    assert_eq!(parse_composed_entity(""), Err(ParseError::OneOf));
    assert_eq!(parse_composed_entity("க"), Err(ParseError::OneOf));
    assert_eq!(parse_composed_entity("அ\u{0bbe}"), Err(ParseError::OneOf));
    assert_eq!(parse_composed_entity("கக"), Err(ParseError::OneOf));
}

#[test]
fn letter_parsers_keep_to_their_class() {
    assert_eq!(parse_vowel("அக"), Ok(("க", TamilDetailedEntity::Vowel('அ'))));
    assert_eq!(parse_vowel("கஅ"), Err(ParseError::OneOf));
    assert_eq!(parse_vowel(""), Err(ParseError::OneOf));
    assert_eq!(parse_consonant("கஅ"), Ok(("அ", TamilDetailedEntity::Consonant('க'))));
    assert_eq!(parse_consonant("அக"), Err(ParseError::OneOf));
    assert_eq!(parse_consonant_helper("ஹ்"), Ok(("\u{0bcd}", 'ஹ')));
    assert_eq!(parse_consonant_helper("a"), Err(ParseError::OneOf));
    assert_eq!(parse_other("கஅ"), Ok(("அ", TamilDetailedEntity::Other('க'))));
}

#[test]
fn not_markable_is_honorific_or_vowel() {
    assert_eq!(parse_not_markable("ஸ்ரீக"), Ok(("க", TamilDetailedEntity::SpecialEntity("ஸ்ரீ"))));
    assert_eq!(parse_not_markable("ஈக"), Ok(("க", TamilDetailedEntity::Vowel('ஈ'))));
    assert_eq!(parse_not_markable("க"), Err(ParseError::OneOf));
    assert_eq!(parse_not_markable(""), Err(ParseError::OneOf));
}

#[test]
fn any_mark_is_read_with_its_placement() {
    assert_eq!(parse_mark("\u{0bcd}க"), Ok(("க", (MarkType::Riding, '\u{0bcd}'))));
    assert_eq!(parse_mark("\u{0bc2}"), Ok(("", (MarkType::Riding, '\u{0bc2}'))));
    assert_eq!(parse_mark("\u{0bc8}"), Ok(("", (MarkType::Preceding, '\u{0bc8}'))));
    assert_eq!(parse_mark("\u{0bbe}"), Ok(("", (MarkType::Following, '\u{0bbe}'))));
    assert_eq!(parse_mark("\u{0bca}"), Ok(("", (MarkType::PrecedingAndFollowing, '\u{0bca}'))));
    assert_eq!(parse_mark("க\u{0bcd}"), Err(ParseError::OneOf));
    assert_eq!(parse_mark("\u{0bd7}"), Err(ParseError::OneOf));
    assert_eq!(parse_mark(""), Err(ParseError::OneOf));
}

#[test]
fn a_text_is_segmented_as_its_parts_are() {
    for (a, b) in [
        ("அம்", "மா"),
        ("க", "கா"),
        ("தமிழ்", " மொழி"),
        ("ab", "ஸ்ரீ"),
        ("ஸ", "ஸ்ரீ"),
        ("x", "\u{0bbe}"),
        ("அ", "\u{0bcd}"),
    ] {
        let whole = format!("{}{}", a, b);
        let mut parts = entities(a);
        parts.extend(entities(b));
        assert_eq!(entities(&whole), parts);
    }
    // A cut before a mark, or through the honorific, is not respected.
    assert_ne!(entities("கா").len(), entities("க").len() + entities("\u{0bbe}").len());
    assert_ne!(entities("ஸ்ரீ").len(), entities("ஸ்").len() + entities("ரீ").len());
}
