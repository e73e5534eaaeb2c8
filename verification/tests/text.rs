use robot_rename::{char_is_whitespace, contains_whitespace, StringState};

#[test]
fn the_empty_text_is_empty() {
    assert_eq!(StringState::get(""), StringState::Empty);
}

#[test]
fn text_with_whitespace_has_whitespace() {
    assert_eq!(StringState::get(" "), StringState::HasWs);
    assert_eq!(StringState::get("bot 1"), StringState::HasWs);
    assert_eq!(StringState::get(" bot"), StringState::HasWs);
    assert_eq!(StringState::get("bot "), StringState::HasWs);
    assert_eq!(StringState::get("bot\t1"), StringState::HasWs);
    assert_eq!(StringState::get("bot\n"), StringState::HasWs);
    assert_eq!(StringState::get("bot\r\n"), StringState::HasWs);
    assert_eq!(StringState::get("bot\u{a0}1"), StringState::HasWs);
    assert_eq!(StringState::get("bot\u{3000}1"), StringState::HasWs);
    assert_eq!(StringState::get("bot\u{2003}1"), StringState::HasWs);
}

#[test]
fn text_without_whitespace_is_valid() {
    assert_eq!(StringState::get("bot1"), StringState::Valid);
    assert_eq!(StringState::get("a"), StringState::Valid);
    assert_eq!(StringState::get("1"), StringState::Valid);
    assert_eq!(StringState::get("r\u{f6}b\u{f6}t"), StringState::Valid);
    assert_eq!(StringState::get("bot\u{200b}1"), StringState::Valid);
    assert_eq!(StringState::get("bot\u{feff}1"), StringState::Valid);
    assert_eq!(StringState::get("bot\u{180e}1"), StringState::Valid);
    assert_eq!(StringState::get("bot_1"), StringState::Valid);
}

#[test]
fn whitespace_is_the_unicode_property() {
    let mut count = 0;
    for code in 0..=0x10ffffu32 {
        if let Some(c) = char::from_u32(code) {
            assert_eq!(char_is_whitespace(c), c.is_whitespace(), "U+{:04X}", code);
            if char_is_whitespace(c) {
                count += 1;
            }
        }
    }
    assert_eq!(count, 25);
}

#[test]
fn whitespace_characters() {
    assert!(char_is_whitespace(' '));
    assert!(char_is_whitespace('\t'));
    assert!(char_is_whitespace('\n'));
    assert!(char_is_whitespace('\u{b}'));
    assert!(char_is_whitespace('\u{c}'));
    assert!(char_is_whitespace('\r'));
    assert!(char_is_whitespace('\u{85}'));
    assert!(char_is_whitespace('\u{2028}'));
    assert!(!char_is_whitespace('\u{8}'));
    assert!(!char_is_whitespace('\u{e}'));
    assert!(!char_is_whitespace('a'));
    assert!(!char_is_whitespace('0'));
    assert!(!char_is_whitespace('\u{200b}'));
    assert!(!char_is_whitespace('\u{1fff}'));
}

#[test]
fn finds_whitespace_anywhere() {
    assert!(!contains_whitespace(""));
    assert!(!contains_whitespace("abc"));
    assert!(contains_whitespace(" abc"));
    assert!(contains_whitespace("a bc"));
    assert!(contains_whitespace("abc "));
    assert!(contains_whitespace("\u{e9}\u{e9}\u{2009}"));
}

#[test]
fn classification_agrees_with_the_standard_search() {
    let texts = ["", " ", "a", "ab", "a b", "\t", "a\u{a0}", "\u{1680}a", "a\u{feff}b", "\u{e9}"];
    for text in texts {
        let expected = if text.is_empty() {
            StringState::Empty
        } else if text.contains(char::is_whitespace) {
            StringState::HasWs
        } else {
            StringState::Valid
        };
        assert_eq!(StringState::get(text), expected, "text {:?}", text);
    }
}
