use egui_winit::is_printable_char;
use egui_winit::text::normalize_newlines;

#[test]
fn control_characters_are_not_printable() {
    // The bell character is a control character, not user text.
    assert!(!is_printable_char('\u{7}'));
    assert!(!is_printable_char('\r'));
    assert!(!is_printable_char('\n'));
    assert!(!is_printable_char('\t'));
    assert!(!is_printable_char('\u{7f}'));
}

#[test]
fn private_use_characters_are_not_printable() {
    assert!(!is_printable_char('\u{e000}'));
    assert!(!is_printable_char('\u{f8ff}'));
    assert!(!is_printable_char('\u{f0000}'));
    assert!(!is_printable_char('\u{10fffd}'));
}

#[test]
fn ordinary_characters_are_printable() {
    assert!(is_printable_char('a'));
    assert!(is_printable_char(' '));
    assert!(is_printable_char('0'));
    assert!(is_printable_char('é'));
    assert!(is_printable_char('中'));
}

#[test]
fn newline_normalization() {
    assert_eq!(normalize_newlines("a\r\nb"), "a\nb");
    assert_eq!(normalize_newlines("\r\n\r\n"), "\n\n");
    assert_eq!(normalize_newlines(""), "");
    assert_eq!(normalize_newlines("plain"), "plain");
    // A lone carriage return is kept.
    assert_eq!(normalize_newlines("a\rb"), "a\rb");
    assert_eq!(normalize_newlines("\r"), "\r");
    // A carriage return followed by a pair: only the pair collapses.
    assert_eq!(normalize_newlines("a\r\r\nb"), "a\r\nb");
}
