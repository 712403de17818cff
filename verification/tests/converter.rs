use unic_stmzh::{
    conv_composed_entity, conv_entity, conv_special_entity, convert_unic_stmzh,
    try_convert_unic_stmzh, MarkType, TamilDetailedEntity,
};

#[test]
fn amma_end_to_end() {
    assert_eq!(convert_unic_stmzh("அம்மா"), "\u{f0b6}\u{f044}\u{f05c}\u{f056}");
}

#[test]
fn other_characters_stay() {
    let plain = "Hello, world! 0123456789 \t\n~ é 日本語 \u{1f600}";
    assert_eq!(convert_unic_stmzh(plain), plain);
    for c in ['a', 'Z', '0', ' ', '.', '\n', '\u{0}', '\u{10ffff}', '\u{f070}', '\u{0be6}'] {
        assert_eq!(convert_unic_stmzh(&c.to_string()), c.to_string());
    }
    assert_eq!(convert_unic_stmzh(""), "");
}

#[test]
fn lone_marks_stay() {
    assert_eq!(convert_unic_stmzh("\u{0bbe}"), "\u{0bbe}");
    assert_eq!(convert_unic_stmzh("\u{0bcd}"), "\u{0bcd}");
    assert_eq!(convert_unic_stmzh("அ\u{0bcc}"), "\u{f0b6}\u{0bcc}");
    assert_eq!(convert_unic_stmzh("a\u{0bbf}"), "a\u{0bbf}");
}

#[test]
fn honorific_is_one_glyph() {
    assert_eq!(convert_unic_stmzh("ஸ்ரீ"), "\u{f070}");
    assert_eq!(convert_unic_stmzh("aஸ்ரீb"), "a\u{f070}b");
    assert_eq!(convert_unic_stmzh("கஸ்ரீக"), "\u{f0ef}\u{f070}\u{f0ef}");
    assert_eq!(convert_unic_stmzh("ஸ்ரீஸ்ரீ"), "\u{f070}\u{f070}");
    assert_eq!(convert_unic_stmzh("ஸ்ஸ்ரீ"), "\u{f0fc}\u{f070}");
}

#[test]
fn part_of_the_honorific_is_converted_letter_by_letter() {
    assert_eq!(convert_unic_stmzh("ஸ்ர"), "\u{f0fc}\u{f0ab}");
    assert_eq!(convert_unic_stmzh("ஸ்ரி"), "\u{f0fc}\u{f0f6}");
    assert_eq!(convert_unic_stmzh("ரீ"), "\u{f05a}");
}

#[test]
fn conversion_is_repeatable() {
    let input = "தமிழ் மொழி ஸ்ரீ 123";
    let first = convert_unic_stmzh(input);
    let second = convert_unic_stmzh(input);
    assert_eq!(first, second);
    assert_eq!(first.as_bytes(), second.as_bytes());
    assert_eq!(try_convert_unic_stmzh(input), Some(first));
}

#[test]
fn a_sentence() {
    assert_eq!(
        convert_unic_stmzh("தமிழ் மொழி"),
        "\u{f03e}\u{f074}\u{f0b5} \u{f0d8}\u{f05c}\u{f056}\u{f061}"
    );
    assert_eq!(
        convert_unic_stmzh("கெ கே கை கொ கோ கௌ"),
        "\u{f0d8}\u{f0ef} \u{f0bc}\u{f0ef} \u{f0e7}\u{f0ef} \u{f0d8}\u{f0ef}\u{f056} \u{f0d8}\u{f0ef}\u{f056} \u{f0d8}\u{f0ef}\u{f065}"
    );
}

#[test]
fn vowel_signs_go_around_the_consonant() {
    assert_eq!(conv_composed_entity('x', '\u{0bbe}'), "x\u{f056}");
    assert_eq!(conv_composed_entity('x', '\u{0bc6}'), "\u{f0d8}x");
    assert_eq!(conv_composed_entity('x', '\u{0bc7}'), "\u{f0bc}x");
    assert_eq!(conv_composed_entity('x', '\u{0bc8}'), "\u{f0e7}x");
    assert_eq!(conv_composed_entity('x', '\u{0bca}'), "\u{f0d8}x\u{f056}");
    assert_eq!(conv_composed_entity('x', '\u{0bcb}'), "\u{f0d8}x\u{f056}");
    assert_eq!(conv_composed_entity('x', '\u{0bcc}'), "\u{f0d8}x\u{f065}");
}

#[test]
fn only_the_honorific_is_special() {
    assert_eq!(conv_special_entity("ஸ்ரீ"), Some("\u{f070}".to_string()));
    assert_eq!(conv_special_entity("\u{0bb8}\u{0bcd}\u{0bb0}\u{0bc0}"), Some("\u{f070}".to_string()));
    assert_eq!(conv_special_entity("ஸ்ர"), None);
    assert_eq!(conv_special_entity("ஸ்ரீ "), None);
    assert_eq!(conv_special_entity(""), None);
}

#[test]
fn entity_appends_its_glyphs() {
    let mut output = String::from("ab");
    assert!(conv_entity(&TamilDetailedEntity::Vowel('அ'), &mut output));
    assert_eq!(output, "ab\u{f0b6}");
    assert!(conv_entity(&TamilDetailedEntity::Consonant('க'), &mut output));
    assert_eq!(output, "ab\u{f0b6}\u{f0ef}");
    assert!(conv_entity(&TamilDetailedEntity::SeparateEntity(('க', '\u{0bc1}')), &mut output));
    assert_eq!(output, "ab\u{f0b6}\u{f0ef}\u{f07a}");
    assert!(conv_entity(
        &TamilDetailedEntity::ComposedEntity(('ம', MarkType::PrecedingAndFollowing, '\u{0bcb}')),
        &mut output
    ));
    assert_eq!(output, "ab\u{f0b6}\u{f0ef}\u{f07a}\u{f0d8}\u{f05c}\u{f056}");
    assert!(conv_entity(&TamilDetailedEntity::SpecialEntity("ஸ்ரீ"), &mut output));
    assert!(conv_entity(&TamilDetailedEntity::Other('!'), &mut output));
    assert_eq!(output, "ab\u{f0b6}\u{f0ef}\u{f07a}\u{f0d8}\u{f05c}\u{f056}\u{f070}!");
}

#[test]
fn entity_without_a_glyph_appends_nothing() {
    let mut output = String::from("ab");
    assert!(!conv_entity(&TamilDetailedEntity::SeparateEntity(('ங', '\u{0bbf}')), &mut output));
    assert!(!conv_entity(&TamilDetailedEntity::Vowel('a'), &mut output));
    assert!(!conv_entity(&TamilDetailedEntity::Consonant('\u{0bcd}'), &mut output));
    assert!(!conv_entity(
        &TamilDetailedEntity::ComposedEntity(('க', MarkType::Riding, '\u{0bcd}')),
        &mut output
    ));
    assert!(!conv_entity(
        &TamilDetailedEntity::ComposedEntity(('a', MarkType::Following, '\u{0bbe}')),
        &mut output
    ));
    assert!(!conv_entity(&TamilDetailedEntity::SpecialEntity("sri"), &mut output));
    assert_eq!(output, "ab");
}

#[test]
fn text_without_a_conversion() {
    assert_eq!(try_convert_unic_stmzh("ஙி"), None);
    assert_eq!(try_convert_unic_stmzh("abc ஞூ def"), None);
    assert_eq!(try_convert_unic_stmzh("ங்"), Some("\u{f0ba}".to_string()));
    assert_eq!(try_convert_unic_stmzh("ஙா"), Some("\u{f0f4}\u{f056}".to_string()));
    assert_eq!(try_convert_unic_stmzh("ங"), Some("\u{f0f4}".to_string()));
}

#[test]
fn a_text_is_converted_as_its_parts_are() {
    for (a, b) in [("அம்", "மா"), ("க", "கா"), ("தமிழ்", " மொழி"), ("ab", "ஸ்ரீ"), ("ரீ", "")] {
        let whole = format!("{}{}", a, b);
        let parts = format!("{}{}", convert_unic_stmzh(a), convert_unic_stmzh(b));
        assert_eq!(convert_unic_stmzh(&whole), parts);
    }
}

#[test]
fn a_character_that_is_no_letter_stays_in_any_context() {
    for c in ['-', ' ', '7', '\u{0be7}'] {
        let whole = format!("கா{}ஸ்ரீ", c);
        assert_eq!(convert_unic_stmzh(&whole), format!("{}{}{}", "\u{f0ef}\u{f056}", c, "\u{f070}"));
    }
}

#[test]
fn a_conversion_holds_glyphs_and_other_characters() {
    let input = "தமிழ் மொழி, ஸ்ரீ 12 \u{0bcd} கௌ";
    let output = convert_unic_stmzh(input);
    for c in output.chars() {
        let glyph = ('\u{f023}'..='\u{f0ff}').contains(&c);
        assert!(glyph || input.contains(c));
        assert!(!('\u{0b83}'..='\u{0bb9}').contains(&c));
    }
    assert_eq!(convert_unic_stmzh(&output), output);
}

#[test]
fn signs_o_and_oo_share_both_affixes() {
    for g in ['x', '\u{f0ef}', '\u{f05c}'] {
        assert_eq!(conv_composed_entity(g, '\u{0bcb}'), conv_composed_entity(g, '\u{0bca}'));
        assert_eq!(conv_composed_entity(g, '\u{0bca}'), format!("{}{}{}", '\u{f0d8}', g, '\u{f056}'));
    }
    assert_eq!(convert_unic_stmzh("கோ"), convert_unic_stmzh("கொ"));
    assert_eq!(convert_unic_stmzh("கோ"), "\u{f0d8}\u{f0ef}\u{f056}");
}

#[test]
fn a_mark_behind_no_consonant_stays_in_any_context() {
    for (a, b) in [("x", "\u{0bbe}"), ("அ", "\u{0bcd}க"), ("கா", "\u{0bbe}"), ("1", "\u{0bc0}")] {
        let whole = format!("{}{}", a, b);
        let parts = format!("{}{}", convert_unic_stmzh(a), convert_unic_stmzh(b));
        assert_eq!(convert_unic_stmzh(&whole), parts);
    }
}
