use egui_winit::keymap::{
    is_copy_command, is_cut_command, is_paste_command, translate_cursor, translate_mouse_button,
    translate_virtual_key_code, CursorIcon, Key, KeyCode, Modifiers, MouseButton,
    NativeCursorIcon, PointerButton,
};
use egui_winit::Platform;

fn command_modifiers() -> Modifiers {
    Modifiers { alt: false, ctrl: true, shift: false, mac_cmd: false, command: true }
}

#[test]
fn key_translation_is_stable_and_total() {
    // Same native code always yields the same abstract key.
    assert_eq!(translate_virtual_key_code(KeyCode::A), Some(Key::A));
    assert_eq!(translate_virtual_key_code(KeyCode::A), Some(Key::A));
    // Listed codes are mapped; unlisted codes yield no mapping, never a panic.
    assert_eq!(translate_virtual_key_code(KeyCode::Equals), Some(Key::PlusEquals));
    assert_eq!(translate_virtual_key_code(KeyCode::Back), Some(Key::Backspace));
    assert_eq!(translate_virtual_key_code(KeyCode::Numpad7), Some(Key::Num7));
    assert_eq!(translate_virtual_key_code(KeyCode::Key7), Some(Key::Num7));
    assert_eq!(translate_virtual_key_code(KeyCode::F20), Some(Key::F20));
    assert_eq!(translate_virtual_key_code(KeyCode::LAlt), None);
    assert_eq!(translate_virtual_key_code(KeyCode::Semicolon), None);
    assert_eq!(translate_virtual_key_code(KeyCode::NumpadEnter), None);
}

#[test]
fn mouse_button_translation() {
    assert_eq!(translate_mouse_button(MouseButton::Left), Some(PointerButton::Primary));
    assert_eq!(translate_mouse_button(MouseButton::Right), Some(PointerButton::Secondary));
    assert_eq!(translate_mouse_button(MouseButton::Middle), Some(PointerButton::Middle));
    assert_eq!(translate_mouse_button(MouseButton::Other(1)), Some(PointerButton::Extra1));
    assert_eq!(translate_mouse_button(MouseButton::Other(2)), Some(PointerButton::Extra2));
    assert_eq!(translate_mouse_button(MouseButton::Other(3)), None);
    assert_eq!(translate_mouse_button(MouseButton::Other(7)), None);
}

#[test]
fn cursor_translation() {
    assert_eq!(translate_cursor(CursorIcon::NoneIcon), None);
    assert_eq!(translate_cursor(CursorIcon::PointingHand), Some(NativeCursorIcon::Hand));
    assert_eq!(translate_cursor(CursorIcon::DefaultIcon), Some(NativeCursorIcon::DefaultIcon));
    assert_eq!(
        translate_cursor(CursorIcon::ResizeHorizontal),
        Some(NativeCursorIcon::EwResize)
    );
    assert_eq!(translate_cursor(CursorIcon::ZoomOut), Some(NativeCursorIcon::ZoomOut));
    // Stable across calls.
    assert_eq!(translate_cursor(CursorIcon::Text), translate_cursor(CursorIcon::Text));
}

#[test]
fn cut_copy_paste_detection() {
    let m = command_modifiers();
    assert!(is_cut_command(Platform::Other, m, KeyCode::X));
    assert!(is_copy_command(Platform::Other, m, KeyCode::C));
    assert!(is_paste_command(Platform::Other, m, KeyCode::V));
    assert!(!is_cut_command(Platform::Other, m, KeyCode::C));

    // The alternate shortcuts are additional matches on windows only.
    let shift = Modifiers { alt: false, ctrl: false, shift: true, mac_cmd: false, command: false };
    assert!(is_cut_command(Platform::Windows, shift, KeyCode::Delete));
    assert!(!is_cut_command(Platform::Other, shift, KeyCode::Delete));
    assert!(!is_cut_command(Platform::MacOs, shift, KeyCode::Delete));
    let ctrl = Modifiers { alt: false, ctrl: true, shift: false, mac_cmd: false, command: false };
    assert!(is_copy_command(Platform::Windows, ctrl, KeyCode::Insert));
    assert!(!is_copy_command(Platform::Other, ctrl, KeyCode::Insert));
    assert!(is_paste_command(Platform::Windows, shift, KeyCode::Insert));
    assert!(!is_paste_command(Platform::Other, shift, KeyCode::Insert));
}
