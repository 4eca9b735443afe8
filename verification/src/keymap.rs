//! Static mappings between native identifiers and abstract ones: key
//! codes to key symbols, mouse buttons to pointer buttons, and abstract
//! cursor shapes to native cursor identifiers.  Every mapping is a total
//! function of its argument; identifiers outside a table map to `None`.

use vstd::prelude::*;
use crate::Platform;

verus! {

#[derive(Clone, Copy, Debug, PartialEq, Eq, Structural)]
pub enum KeyCode {
    Down, Left, Right, Up, Escape, Tab, Back, Return, Space, Insert, Delete, Home, End, PageUp,
    PageDown, Minus, Equals, Key0, Numpad0, Key1, Numpad1, Key2, Numpad2, Key3, Numpad3, Key4,
    Numpad4, Key5, Numpad5, Key6, Numpad6, Key7, Numpad7, Key8, Numpad8, Key9, Numpad9, A, B,
    C, D, E, F, G, H, I, J, K, L, M, N, O, P, Q, R, S, T, U, V, W, X, Y, Z, F1, F2, F3, F4, F5,
    F6, F7, F8, F9, F10, F11, F12, F13, F14, F15, F16, F17, F18, F19, F20, LAlt, LControl,
    LShift, LWin, RAlt, RControl, RShift, RWin, Semicolon, Comma, Period, Slash, Backslash,
    Apostrophe, Grave, Capital, Numlock, NumpadEnter, NumpadAdd, Mute,
}

#[derive(Clone, Copy, Debug, PartialEq, Eq, Structural)]
pub enum Key {
    ArrowDown, ArrowLeft, ArrowRight, ArrowUp, Escape, Tab, Backspace, Enter, Space, Insert,
    Delete, Home, End, PageUp, PageDown, Minus, PlusEquals, Num0, Num1, Num2, Num3, Num4, Num5,
    Num6, Num7, Num8, Num9, A, B, C, D, E, F, G, H, I, J, K, L, M, N, O, P, Q, R, S, T, U, V,
    W, X, Y, Z, F1, F2, F3, F4, F5, F6, F7, F8, F9, F10, F11, F12, F13, F14, F15, F16, F17,
    F18, F19, F20,
}

/// The abstract key symbol, if any, that a native key code stands for.
pub open spec fn key_for_code(code: KeyCode) -> Option<Key> {
    match code {
        KeyCode::Down => Some(Key::ArrowDown),
        KeyCode::Left => Some(Key::ArrowLeft),
        KeyCode::Right => Some(Key::ArrowRight),
        KeyCode::Up => Some(Key::ArrowUp),
        KeyCode::Escape => Some(Key::Escape),
        KeyCode::Tab => Some(Key::Tab),
        KeyCode::Back => Some(Key::Backspace),
        KeyCode::Return => Some(Key::Enter),
        KeyCode::Space => Some(Key::Space),
        KeyCode::Insert => Some(Key::Insert),
        KeyCode::Delete => Some(Key::Delete),
        KeyCode::Home => Some(Key::Home),
        KeyCode::End => Some(Key::End),
        KeyCode::PageUp => Some(Key::PageUp),
        KeyCode::PageDown => Some(Key::PageDown),
        KeyCode::Minus => Some(Key::Minus),
        KeyCode::Equals => Some(Key::PlusEquals),
        KeyCode::Key0 => Some(Key::Num0),
        KeyCode::Numpad0 => Some(Key::Num0),
        KeyCode::Key1 => Some(Key::Num1),
        KeyCode::Numpad1 => Some(Key::Num1),
        KeyCode::Key2 => Some(Key::Num2),
        KeyCode::Numpad2 => Some(Key::Num2),
        KeyCode::Key3 => Some(Key::Num3),
        KeyCode::Numpad3 => Some(Key::Num3),
        KeyCode::Key4 => Some(Key::Num4),
        KeyCode::Numpad4 => Some(Key::Num4),
        KeyCode::Key5 => Some(Key::Num5),
        KeyCode::Numpad5 => Some(Key::Num5),
        KeyCode::Key6 => Some(Key::Num6),
        KeyCode::Numpad6 => Some(Key::Num6),
        KeyCode::Key7 => Some(Key::Num7),
        KeyCode::Numpad7 => Some(Key::Num7),
        KeyCode::Key8 => Some(Key::Num8),
        KeyCode::Numpad8 => Some(Key::Num8),
        KeyCode::Key9 => Some(Key::Num9),
        KeyCode::Numpad9 => Some(Key::Num9),
        KeyCode::A => Some(Key::A),
        KeyCode::B => Some(Key::B),
        KeyCode::C => Some(Key::C),
        KeyCode::D => Some(Key::D),
        KeyCode::E => Some(Key::E),
        KeyCode::F => Some(Key::F),
        KeyCode::G => Some(Key::G),
        KeyCode::H => Some(Key::H),
        KeyCode::I => Some(Key::I),
        KeyCode::J => Some(Key::J),
        KeyCode::K => Some(Key::K),
        KeyCode::L => Some(Key::L),
        KeyCode::M => Some(Key::M),
        KeyCode::N => Some(Key::N),
        KeyCode::O => Some(Key::O),
        KeyCode::P => Some(Key::P),
        KeyCode::Q => Some(Key::Q),
        KeyCode::R => Some(Key::R),
        KeyCode::S => Some(Key::S),
        KeyCode::T => Some(Key::T),
        KeyCode::U => Some(Key::U),
        KeyCode::V => Some(Key::V),
        KeyCode::W => Some(Key::W),
        KeyCode::X => Some(Key::X),
        KeyCode::Y => Some(Key::Y),
        KeyCode::Z => Some(Key::Z),
        KeyCode::F1 => Some(Key::F1),
        KeyCode::F2 => Some(Key::F2),
        KeyCode::F3 => Some(Key::F3),
        KeyCode::F4 => Some(Key::F4),
        KeyCode::F5 => Some(Key::F5),
        KeyCode::F6 => Some(Key::F6),
        KeyCode::F7 => Some(Key::F7),
        KeyCode::F8 => Some(Key::F8),
        KeyCode::F9 => Some(Key::F9),
        KeyCode::F10 => Some(Key::F10),
        KeyCode::F11 => Some(Key::F11),
        KeyCode::F12 => Some(Key::F12),
        KeyCode::F13 => Some(Key::F13),
        KeyCode::F14 => Some(Key::F14),
        KeyCode::F15 => Some(Key::F15),
        KeyCode::F16 => Some(Key::F16),
        KeyCode::F17 => Some(Key::F17),
        KeyCode::F18 => Some(Key::F18),
        KeyCode::F19 => Some(Key::F19),
        KeyCode::F20 => Some(Key::F20),
        _ => None,
    }
}

/// Maps a native key code to its abstract key symbol; codes outside the
/// table have no mapping.
pub fn translate_virtual_key_code(key: KeyCode) -> (r: Option<Key>)
    ensures
        r == key_for_code(key),
{
    match key {
        KeyCode::Down => Some(Key::ArrowDown),
        KeyCode::Left => Some(Key::ArrowLeft),
        KeyCode::Right => Some(Key::ArrowRight),
        KeyCode::Up => Some(Key::ArrowUp),
        KeyCode::Escape => Some(Key::Escape),
        KeyCode::Tab => Some(Key::Tab),
        KeyCode::Back => Some(Key::Backspace),
        KeyCode::Return => Some(Key::Enter),
        KeyCode::Space => Some(Key::Space),
        KeyCode::Insert => Some(Key::Insert),
        KeyCode::Delete => Some(Key::Delete),
        KeyCode::Home => Some(Key::Home),
        KeyCode::End => Some(Key::End),
        KeyCode::PageUp => Some(Key::PageUp),
        KeyCode::PageDown => Some(Key::PageDown),
        KeyCode::Minus => Some(Key::Minus),
        KeyCode::Equals => Some(Key::PlusEquals),
        KeyCode::Key0 => Some(Key::Num0),
        KeyCode::Numpad0 => Some(Key::Num0),
        KeyCode::Key1 => Some(Key::Num1),
        KeyCode::Numpad1 => Some(Key::Num1),
        KeyCode::Key2 => Some(Key::Num2),
        KeyCode::Numpad2 => Some(Key::Num2),
        KeyCode::Key3 => Some(Key::Num3),
        KeyCode::Numpad3 => Some(Key::Num3),
        KeyCode::Key4 => Some(Key::Num4),
        KeyCode::Numpad4 => Some(Key::Num4),
        KeyCode::Key5 => Some(Key::Num5),
        KeyCode::Numpad5 => Some(Key::Num5),
        KeyCode::Key6 => Some(Key::Num6),
        KeyCode::Numpad6 => Some(Key::Num6),
        KeyCode::Key7 => Some(Key::Num7),
        KeyCode::Numpad7 => Some(Key::Num7),
        KeyCode::Key8 => Some(Key::Num8),
        KeyCode::Numpad8 => Some(Key::Num8),
        KeyCode::Key9 => Some(Key::Num9),
        KeyCode::Numpad9 => Some(Key::Num9),
        KeyCode::A => Some(Key::A),
        KeyCode::B => Some(Key::B),
        KeyCode::C => Some(Key::C),
        KeyCode::D => Some(Key::D),
        KeyCode::E => Some(Key::E),
        KeyCode::F => Some(Key::F),
        KeyCode::G => Some(Key::G),
        KeyCode::H => Some(Key::H),
        KeyCode::I => Some(Key::I),
        KeyCode::J => Some(Key::J),
        KeyCode::K => Some(Key::K),
        KeyCode::L => Some(Key::L),
        KeyCode::M => Some(Key::M),
        KeyCode::N => Some(Key::N),
        KeyCode::O => Some(Key::O),
        KeyCode::P => Some(Key::P),
        KeyCode::Q => Some(Key::Q),
        KeyCode::R => Some(Key::R),
        KeyCode::S => Some(Key::S),
        KeyCode::T => Some(Key::T),
        KeyCode::U => Some(Key::U),
        KeyCode::V => Some(Key::V),
        KeyCode::W => Some(Key::W),
        KeyCode::X => Some(Key::X),
        KeyCode::Y => Some(Key::Y),
        KeyCode::Z => Some(Key::Z),
        KeyCode::F1 => Some(Key::F1),
        KeyCode::F2 => Some(Key::F2),
        KeyCode::F3 => Some(Key::F3),
        KeyCode::F4 => Some(Key::F4),
        KeyCode::F5 => Some(Key::F5),
        KeyCode::F6 => Some(Key::F6),
        KeyCode::F7 => Some(Key::F7),
        KeyCode::F8 => Some(Key::F8),
        KeyCode::F9 => Some(Key::F9),
        KeyCode::F10 => Some(Key::F10),
        KeyCode::F11 => Some(Key::F11),
        KeyCode::F12 => Some(Key::F12),
        KeyCode::F13 => Some(Key::F13),
        KeyCode::F14 => Some(Key::F14),
        KeyCode::F15 => Some(Key::F15),
        KeyCode::F16 => Some(Key::F16),
        KeyCode::F17 => Some(Key::F17),
        KeyCode::F18 => Some(Key::F18),
        KeyCode::F19 => Some(Key::F19),
        KeyCode::F20 => Some(Key::F20),
        _ => None,
    }
}

#[derive(Clone, Copy, Debug, PartialEq, Eq, Structural)]
pub enum CursorIcon {
    NoneIcon, Alias, AllScroll, Cell, ContextMenu, CopyIcon, Crosshair, DefaultIcon, Grab,
    Grabbing, Help, Move, NoDrop, NotAllowed, PointingHand, Progress, ResizeHorizontal,
    ResizeNeSw, ResizeNwSe, ResizeVertical, ResizeEast, ResizeSouthEast, ResizeSouth,
    ResizeSouthWest, ResizeWest, ResizeNorthWest, ResizeNorth, ResizeNorthEast, ResizeColumn,
    ResizeRow, Text, VerticalText, Wait, ZoomIn, ZoomOut,
}

#[derive(Clone, Copy, Debug, PartialEq, Eq, Structural)]
pub enum NativeCursorIcon {
    Alias, AllScroll, Cell, ContextMenu, CopyIcon, Crosshair, DefaultIcon, Grab, Grabbing,
    Help, Move, NoDrop, NotAllowed, Hand, Progress, EwResize, NeswResize, NwseResize, NsResize,
    EResize, SeResize, SResize, SwResize, WResize, NwResize, NResize, NeResize, ColResize,
    RowResize, Text, VerticalText, Wait, ZoomIn, ZoomOut,
}

/// The native cursor identifier, if any, that stands for an abstract
/// cursor shape; the hidden cursor has no native identifier.
pub open spec fn cursor_for_icon(icon: CursorIcon) -> Option<NativeCursorIcon> {
    match icon {
        CursorIcon::NoneIcon => None,
        CursorIcon::Alias => Some(NativeCursorIcon::Alias),
        CursorIcon::AllScroll => Some(NativeCursorIcon::AllScroll),
        CursorIcon::Cell => Some(NativeCursorIcon::Cell),
        CursorIcon::ContextMenu => Some(NativeCursorIcon::ContextMenu),
        CursorIcon::CopyIcon => Some(NativeCursorIcon::CopyIcon),
        CursorIcon::Crosshair => Some(NativeCursorIcon::Crosshair),
        CursorIcon::DefaultIcon => Some(NativeCursorIcon::DefaultIcon),
        CursorIcon::Grab => Some(NativeCursorIcon::Grab),
        CursorIcon::Grabbing => Some(NativeCursorIcon::Grabbing),
        CursorIcon::Help => Some(NativeCursorIcon::Help),
        CursorIcon::Move => Some(NativeCursorIcon::Move),
        CursorIcon::NoDrop => Some(NativeCursorIcon::NoDrop),
        CursorIcon::NotAllowed => Some(NativeCursorIcon::NotAllowed),
        CursorIcon::PointingHand => Some(NativeCursorIcon::Hand),
        CursorIcon::Progress => Some(NativeCursorIcon::Progress),
        CursorIcon::ResizeHorizontal => Some(NativeCursorIcon::EwResize),
        CursorIcon::ResizeNeSw => Some(NativeCursorIcon::NeswResize),
        CursorIcon::ResizeNwSe => Some(NativeCursorIcon::NwseResize),
        CursorIcon::ResizeVertical => Some(NativeCursorIcon::NsResize),
        CursorIcon::ResizeEast => Some(NativeCursorIcon::EResize),
        CursorIcon::ResizeSouthEast => Some(NativeCursorIcon::SeResize),
        CursorIcon::ResizeSouth => Some(NativeCursorIcon::SResize),
        CursorIcon::ResizeSouthWest => Some(NativeCursorIcon::SwResize),
        CursorIcon::ResizeWest => Some(NativeCursorIcon::WResize),
        CursorIcon::ResizeNorthWest => Some(NativeCursorIcon::NwResize),
        CursorIcon::ResizeNorth => Some(NativeCursorIcon::NResize),
        CursorIcon::ResizeNorthEast => Some(NativeCursorIcon::NeResize),
        CursorIcon::ResizeColumn => Some(NativeCursorIcon::ColResize),
        CursorIcon::ResizeRow => Some(NativeCursorIcon::RowResize),
        CursorIcon::Text => Some(NativeCursorIcon::Text),
        CursorIcon::VerticalText => Some(NativeCursorIcon::VerticalText),
        CursorIcon::Wait => Some(NativeCursorIcon::Wait),
        CursorIcon::ZoomIn => Some(NativeCursorIcon::ZoomIn),
        CursorIcon::ZoomOut => Some(NativeCursorIcon::ZoomOut),
    }
}

/// Maps an abstract cursor shape to the native cursor identifier.
pub fn translate_cursor(cursor_icon: CursorIcon) -> (r: Option<NativeCursorIcon>)
    ensures
        r == cursor_for_icon(cursor_icon),
{
    match cursor_icon {
        CursorIcon::NoneIcon => None,
        CursorIcon::Alias => Some(NativeCursorIcon::Alias),
        CursorIcon::AllScroll => Some(NativeCursorIcon::AllScroll),
        CursorIcon::Cell => Some(NativeCursorIcon::Cell),
        CursorIcon::ContextMenu => Some(NativeCursorIcon::ContextMenu),
        CursorIcon::CopyIcon => Some(NativeCursorIcon::CopyIcon),
        CursorIcon::Crosshair => Some(NativeCursorIcon::Crosshair),
        CursorIcon::DefaultIcon => Some(NativeCursorIcon::DefaultIcon),
        CursorIcon::Grab => Some(NativeCursorIcon::Grab),
        CursorIcon::Grabbing => Some(NativeCursorIcon::Grabbing),
        CursorIcon::Help => Some(NativeCursorIcon::Help),
        CursorIcon::Move => Some(NativeCursorIcon::Move),
        CursorIcon::NoDrop => Some(NativeCursorIcon::NoDrop),
        CursorIcon::NotAllowed => Some(NativeCursorIcon::NotAllowed),
        CursorIcon::PointingHand => Some(NativeCursorIcon::Hand),
        CursorIcon::Progress => Some(NativeCursorIcon::Progress),
        CursorIcon::ResizeHorizontal => Some(NativeCursorIcon::EwResize),
        CursorIcon::ResizeNeSw => Some(NativeCursorIcon::NeswResize),
        CursorIcon::ResizeNwSe => Some(NativeCursorIcon::NwseResize),
        CursorIcon::ResizeVertical => Some(NativeCursorIcon::NsResize),
        CursorIcon::ResizeEast => Some(NativeCursorIcon::EResize),
        CursorIcon::ResizeSouthEast => Some(NativeCursorIcon::SeResize),
        CursorIcon::ResizeSouth => Some(NativeCursorIcon::SResize),
        CursorIcon::ResizeSouthWest => Some(NativeCursorIcon::SwResize),
        CursorIcon::ResizeWest => Some(NativeCursorIcon::WResize),
        CursorIcon::ResizeNorthWest => Some(NativeCursorIcon::NwResize),
        CursorIcon::ResizeNorth => Some(NativeCursorIcon::NResize),
        CursorIcon::ResizeNorthEast => Some(NativeCursorIcon::NeResize),
        CursorIcon::ResizeColumn => Some(NativeCursorIcon::ColResize),
        CursorIcon::ResizeRow => Some(NativeCursorIcon::RowResize),
        CursorIcon::Text => Some(NativeCursorIcon::Text),
        CursorIcon::VerticalText => Some(NativeCursorIcon::VerticalText),
        CursorIcon::Wait => Some(NativeCursorIcon::Wait),
        CursorIcon::ZoomIn => Some(NativeCursorIcon::ZoomIn),
        CursorIcon::ZoomOut => Some(NativeCursorIcon::ZoomOut),
    }
}

/// A native mouse button report.
#[derive(Clone, Copy, Debug, PartialEq, Eq, Structural)]
pub enum MouseButton {
    Left,
    Right,
    Middle,
    Other(u16),
}

/// An abstract pointer button.
#[derive(Clone, Copy, Debug, PartialEq, Eq, Structural)]
pub enum PointerButton {
    Primary,
    Secondary,
    Middle,
    Extra1,
    Extra2,
}

/// The abstract pointer button, if any, that a native mouse button stands
/// for; auxiliary buttons beyond the first two extras have none.
pub open spec fn button_for_mouse_button(button: MouseButton) -> Option<PointerButton> {
    match button {
        MouseButton::Left => Some(PointerButton::Primary),
        MouseButton::Right => Some(PointerButton::Secondary),
        MouseButton::Middle => Some(PointerButton::Middle),
        MouseButton::Other(1u16) => Some(PointerButton::Extra1),
        MouseButton::Other(2u16) => Some(PointerButton::Extra2),
        MouseButton::Other(_) => None,
    }
}

/// Maps a native mouse button to the abstract pointer button.
pub fn translate_mouse_button(button: MouseButton) -> (r: Option<PointerButton>)
    ensures
        r == button_for_mouse_button(button),
{
    match button {
        MouseButton::Left => Some(PointerButton::Primary),
        MouseButton::Right => Some(PointerButton::Secondary),
        MouseButton::Middle => Some(PointerButton::Middle),
        MouseButton::Other(1u16) => Some(PointerButton::Extra1),
        MouseButton::Other(2u16) => Some(PointerButton::Extra2),
        MouseButton::Other(_) => None,
    }
}

/// The abstract modifier-key set.  `command` is the primary command
/// modifier: the logo key on mac, control elsewhere; `mac_cmd` is set only
/// on mac.
#[derive(Clone, Copy, Debug, PartialEq, Eq, Structural)]
pub struct Modifiers {
    pub alt: bool,
    pub ctrl: bool,
    pub shift: bool,
    pub mac_cmd: bool,
    pub command: bool,
}

impl Modifiers {
    /// The empty modifier set.
    pub fn none() -> (r: Modifiers)
        ensures
            r == Modifiers::empty(),
    {
        Modifiers { alt: false, ctrl: false, shift: false, mac_cmd: false, command: false }
    }

    /// The empty modifier set, as a specification value.
    pub open spec fn empty() -> Modifiers {
        Modifiers { alt: false, ctrl: false, shift: false, mac_cmd: false, command: false }
    }
}

impl Default for Modifiers {
    /// The default modifier set has no modifier held.
    fn default() -> (r: Modifiers)
        ensures
            r == Modifiers::empty(),
    {
        Modifiers::none()
    }
}

/// Whether the modifier set and key code together stand for the cut
/// shortcut.  The platform-reported intent codes are unreliable, so the
/// shortcut is detected from the raw combination; shift+delete is an
/// additional match on windows only.
pub open spec fn spec_is_cut_command(platform: Platform, modifiers: Modifiers, keycode: KeyCode) -> bool {
    (modifiers.command && keycode == KeyCode::X)
        || (platform == Platform::Windows && modifiers.shift && keycode == KeyCode::Delete)
}

/// Detects the cut shortcut from a modifier set and a key code.
pub fn is_cut_command(platform: Platform, modifiers: Modifiers, keycode: KeyCode) -> (r: bool)
    ensures
        r == spec_is_cut_command(platform, modifiers, keycode),
{
    (modifiers.command && keycode == KeyCode::X)
        || (platform == Platform::Windows && modifiers.shift && keycode == KeyCode::Delete)
}

/// Whether the modifier set and key code together stand for the copy
/// shortcut; ctrl+insert is an additional match on windows only.
pub open spec fn spec_is_copy_command(platform: Platform, modifiers: Modifiers, keycode: KeyCode) -> bool {
    (modifiers.command && keycode == KeyCode::C)
        || (platform == Platform::Windows && modifiers.ctrl && keycode == KeyCode::Insert)
}

/// Detects the copy shortcut from a modifier set and a key code.
pub fn is_copy_command(platform: Platform, modifiers: Modifiers, keycode: KeyCode) -> (r: bool)
    ensures
        r == spec_is_copy_command(platform, modifiers, keycode),
{
    (modifiers.command && keycode == KeyCode::C)
        || (platform == Platform::Windows && modifiers.ctrl && keycode == KeyCode::Insert)
}

/// Whether the modifier set and key code together stand for the paste
/// shortcut; shift+insert is an additional match on windows only.
pub open spec fn spec_is_paste_command(platform: Platform, modifiers: Modifiers, keycode: KeyCode) -> bool {
    (modifiers.command && keycode == KeyCode::V)
        || (platform == Platform::Windows && modifiers.shift && keycode == KeyCode::Insert)
}

/// Detects the paste shortcut from a modifier set and a key code.
pub fn is_paste_command(platform: Platform, modifiers: Modifiers, keycode: KeyCode) -> (r: bool)
    ensures
        r == spec_is_paste_command(platform, modifiers, keycode),
{
    (modifiers.command && keycode == KeyCode::V)
        || (platform == Platform::Windows && modifiers.shift && keycode == KeyCode::Insert)
}

/// Key translation is a pure function of the native code alone: the same
/// code always yields the same abstract key, and the exec translation
/// never panics, returning `None` outside the table.
pub proof fn lemma_key_translation_deterministic(a: KeyCode, b: KeyCode)
    requires
        a == b,
    ensures
        key_for_code(a) == key_for_code(b),
{
}

/// Cursor translation is likewise a pure function of the abstract shape.
pub proof fn lemma_cursor_translation_deterministic(a: CursorIcon, b: CursorIcon)
    requires
        a == b,
    ensures
        cursor_for_icon(a) == cursor_for_icon(b),
{
}

} // verus!
