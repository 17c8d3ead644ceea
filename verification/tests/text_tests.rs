use password_manager_lib::input::{is_space_exec, TextInput};
use password_manager_lib::text::{
    ascii_upper, chars_of, contains_text, same_str, same_text, text_le_exec,
};

fn v(s: &str) -> Vec<char> {
    s.chars().collect()
}

#[test]
fn chars_of_gives_the_characters_in_order() {
    assert_eq!(chars_of(""), Vec::<char>::new());
    assert_eq!(chars_of("ab\u{e9}\u{1f511}z"), vec!['a', 'b', '\u{e9}', '\u{1f511}', 'z']);
}

#[test]
fn ascii_upper_touches_ascii_letters_only() {
    assert_eq!(ascii_upper('a'), 'A');
    assert_eq!(ascii_upper('z'), 'Z');
    assert_eq!(ascii_upper('m'), 'M');
    assert_eq!(ascii_upper('A'), 'A');
    assert_eq!(ascii_upper('`'), '`');
    assert_eq!(ascii_upper('{'), '{');
    assert_eq!(ascii_upper('1'), '1');
    assert_eq!(ascii_upper('\u{e9}'), '\u{e9}');
    for c in (0u8..128).map(|b| b as char) {
        assert_eq!(ascii_upper(c), c.to_ascii_uppercase());
    }
}

#[test]
fn text_order_is_lexicographic() {
    assert!(text_le_exec(&v(""), &v("")));
    assert!(text_le_exec(&v(""), &v("a")));
    assert!(!text_le_exec(&v("a"), &v("")));
    assert!(text_le_exec(&v("abc"), &v("abd")));
    assert!(!text_le_exec(&v("abd"), &v("abc")));
    assert!(text_le_exec(&v("ab"), &v("abc")));
    assert!(!text_le_exec(&v("abc"), &v("ab")));
    assert!(text_le_exec(&v("Z"), &v("a")));
    assert!(text_le_exec(&v("same"), &v("same")));
    let words = ["", "a", "ab", "b", "B", "\u{e9}", "zeta", "alpha", "alp"];
    for x in words.iter() {
        for y in words.iter() {
            assert_eq!(text_le_exec(&v(x), &v(y)), x <= y);
        }
    }
}

#[test]
fn same_text_compares_every_character() {
    assert!(same_text(&v(""), &v("")));
    assert!(same_text(&v("abc"), &v("abc")));
    assert!(!same_text(&v("abc"), &v("abd")));
    assert!(!same_text(&v("abc"), &v("ab")));
    assert!(!same_text(&v("xbc"), &v("abc")));
    assert!(same_str("old.com", "old.com"));
    assert!(!same_str("old.com", "Old.com"));
}

#[test]
fn contains_text_finds_a_part_anywhere() {
    assert!(contains_text(&v("github"), &v("git")));
    assert!(contains_text(&v("github"), &v("hub")));
    assert!(contains_text(&v("github"), &v("thu")));
    assert!(contains_text(&v("github"), &v("")));
    assert!(contains_text(&v(""), &v("")));
    assert!(contains_text(&v("github"), &v("github")));
    assert!(!contains_text(&v("github"), &v("githubs")));
    assert!(!contains_text(&v("github"), &v("gih")));
    assert!(!contains_text(&v(""), &v("a")));
    assert!(contains_text(&v("aab"), &v("ab")));
}

#[test]
fn white_space_is_what_unicode_says() {
    for code in 0u32..0x3100 {
        if let Some(c) = char::from_u32(code) {
            assert_eq!(is_space_exec(c), c.is_whitespace(), "{:x}", code);
        }
    }
}

#[test]
fn typing_inserts_at_the_cursor() {
    let mut input = TextInput::new();
    assert_eq!(input.text(), "");
    input.type_char('a');
    input.type_char('c');
    input.move_left();
    input.type_char('b');
    assert_eq!(input.text(), "abc");
    assert_eq!(input.cursor, 2);
    input.move_right();
    input.move_right();
    assert_eq!(input.cursor, 3);
    input.type_char('\u{e9}');
    input.type_char('!');
    assert_eq!(input.text(), "abc\u{e9}!");
    assert_eq!(input.cursor, 5);
}

#[test]
fn backspace_erases_before_the_cursor() {
    let mut input = TextInput::holding("abcd");
    assert_eq!(input.cursor, 4);
    input.backspace();
    assert_eq!(input.text(), "abc");
    input.move_left();
    input.backspace();
    assert_eq!(input.text(), "ac");
    assert_eq!(input.cursor, 1);
    input.backspace();
    assert_eq!(input.text(), "c");
    assert_eq!(input.cursor, 0);
    input.backspace();
    input.move_left();
    assert_eq!(input.text(), "c");
    assert_eq!(input.cursor, 0);
}

#[test]
fn cursor_behind_the_end_blocks_editing() {
    let mut input = TextInput { chars: vec!['a'], cursor: 5 };
    input.type_char('x');
    input.backspace();
    input.move_right();
    assert_eq!(input, TextInput { chars: vec!['a'], cursor: 5 });
    input.move_left();
    assert_eq!(input.cursor, 4);
}

#[test]
fn clear_and_blank() {
    let mut input = TextInput::holding(" \t\u{a0}");
    assert!(input.blank());
    input.type_char('x');
    assert!(!input.blank());
    input.clear();
    assert_eq!(input, TextInput { chars: vec![], cursor: 0 });
    assert!(input.blank());
}

#[test]
fn parts_cut_the_line_at_the_cursor() {
    let mut input = TextInput::holding("abc");
    let parts = input.parts();
    assert_eq!((parts.before.as_str(), parts.at, parts.after.as_str()), ("abc", ' ', ""));
    input.move_left();
    let parts = input.parts();
    assert_eq!((parts.before.as_str(), parts.at, parts.after.as_str()), ("ab", 'c', ""));
    input.move_left();
    input.move_left();
    let parts = input.parts();
    assert_eq!((parts.before.as_str(), parts.at, parts.after.as_str()), ("", 'a', "bc"));
}
