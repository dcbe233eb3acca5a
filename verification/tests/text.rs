use compass::text::{chars_of, count_lines, decimal_string, lower_char, lowered_is, same_text};

#[test]
fn decimal_numerals() {
    assert_eq!(decimal_string(0), "0");
    assert_eq!(decimal_string(7), "7");
    assert_eq!(decimal_string(9), "9");
    assert_eq!(decimal_string(10), "10");
    assert_eq!(decimal_string(101), "101");
    assert_eq!(decimal_string(1_234_567_890), "1234567890");
    assert_eq!(decimal_string(usize::MAX), format!("{}", usize::MAX));
}

#[test]
fn lines_of_a_text() {
    assert_eq!(count_lines(""), 0);
    assert_eq!(count_lines("a"), 1);
    assert_eq!(count_lines("a\n"), 1);
    assert_eq!(count_lines("a\nb"), 2);
    assert_eq!(count_lines("a\nb\n"), 2);
    assert_eq!(count_lines("\n"), 1);
    assert_eq!(count_lines("\n\n"), 2);
    assert_eq!(count_lines("\n\na"), 3);
    assert_eq!(count_lines("a\r\nb\r\n"), 2);
    assert_eq!(count_lines("gr\u{fc}n\nbl\u{e5}\n\u{4e2d}"), 3);
}

#[test]
fn lines_are_counted_as_std_counts_them() {
    let texts = ["", "x", "x\n", "\n", "\n\n", "a\nb\nc", "a\r\nb", "a\n\nb\n", "\r", "a\r"];
    for text in texts {
        assert_eq!(count_lines(text), text.lines().count());
    }
}

#[test]
fn same_text_compares_every_character() {
    assert!(same_text("", ""));
    assert!(same_text("warning", "warning"));
    assert!(!same_text("warning", "Warning"));
    assert!(!same_text("warning", "warnin"));
    assert!(!same_text("warnin", "warning"));
    assert!(!same_text("", "a"));
    assert!(same_text("gr\u{fc}n", "gr\u{fc}n"));
    assert!(!same_text("gr\u{fc}n", "grun"));
}

#[test]
fn lowered_is_folds_ascii_capitals_only() {
    assert!(lowered_is("rs", "rs"));
    assert!(lowered_is("RS", "rs"));
    assert!(lowered_is("Rs", "rs"));
    assert!(!lowered_is("rs", "r"));
    assert!(!lowered_is("r", "rs"));
    assert!(!lowered_is("rt", "rs"));
    assert!(lowered_is("", ""));
    assert!(lowered_is("A1_Z", "a1_z"));
    assert!(!lowered_is("@", "`"));
    assert!(!lowered_is("[", "{"));
    assert!(!lowered_is("\u{212a}", "k"));
    assert!(!lowered_is("J\u{e4}va", "java"));
}

#[test]
fn lowered_is_compares_texts_beyond_ascii() {
    assert!(lowered_is("J\u{e4}va", "j\u{e4}va"));
    assert!(lowered_is("gr\u{fc}n", "gr\u{fc}n"));
    assert!(!lowered_is("\u{c4}", "\u{e4}"));
    assert!(!lowered_is("gr\u{fc}n", "gr\u{fc}"));
    assert!(!lowered_is("gr\u{fc}", "gr\u{fc}n"));
    assert!(!lowered_is("rs", "RS"));
    assert!(!lowered_is("", "\u{4e2d}"));
    assert!(lowered_is("\u{4e2d}A", "\u{4e2d}a"));
}

#[test]
fn lower_case_of_a_character() {
    assert_eq!(lower_char('A'), 'a');
    assert_eq!(lower_char('Z'), 'z');
    assert_eq!(lower_char('M'), 'm');
    assert_eq!(lower_char('a'), 'a');
    assert_eq!(lower_char('@'), '@');
    assert_eq!(lower_char('['), '[');
    assert_eq!(lower_char('7'), '7');
    assert_eq!(lower_char('\u{c4}'), '\u{c4}');
    for c in ['A', 'q', 'Z', '0', ' ', '\u{e9}', '\u{212a}'] {
        assert_eq!(lower_char(c), c.to_ascii_lowercase());
    }
}

#[test]
fn characters_of_a_text() {
    assert_eq!(chars_of(""), Vec::<char>::new());
    assert_eq!(chars_of("a\u{fc}\u{4e2d}!"), vec!['a', '\u{fc}', '\u{4e2d}', '!']);
}
