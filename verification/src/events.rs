//! The data model of the translation layer: native input events as the
//! windowing system reports them, and the normalized abstract events the
//! GUI library consumes.  Positions are in logical points; fractional
//! scale and zoom quantities are integers in thousandths.

use vstd::prelude::*;
use crate::keymap::{Key, KeyCode, Modifiers, MouseButton, PointerButton};

verus! {

/// A position in logical points.
#[derive(Clone, Copy, Debug, PartialEq, Eq, Structural)]
pub struct Pos2 {
    pub x: i32,
    pub y: i32,
}

/// An axis-aligned rectangle in logical points.
#[derive(Clone, Copy, Debug, PartialEq, Eq, Structural)]
pub struct Rect {
    pub min: Pos2,
    pub max: Pos2,
}

/// The phase of an abstract touch event.
#[derive(Clone, Copy, Debug, PartialEq, Eq, Structural)]
pub enum TouchPhase {
    Start,
    Move,
    End,
    Cancel,
}

/// The phase of a native touch report.
#[derive(Clone, Copy, Debug, PartialEq, Eq, Structural)]
pub enum NativeTouchPhase {
    Started,
    Moved,
    Ended,
    Cancelled,
}

/// The unit a raw wheel event is measured in.
#[derive(Clone, Copy, Debug, PartialEq, Eq, Structural)]
pub enum MouseWheelUnit {
    Line,
    Point,
}

/// A native scroll report: whole lines, or logical points.
#[derive(Clone, Copy, Debug, PartialEq, Eq, Structural)]
pub enum ScrollDelta {
    LineDelta(i32, i32),
    PointDelta(i32, i32),
}

/// A native text-composition notification.
#[derive(Clone, Debug, PartialEq)]
pub enum ImeEvent {
    Enabled,
    Preedit(String),
    Commit(String),
    Disabled,
}

/// An input event as the windowing system reports it, reduced to plain
/// values: positions already converted to logical points, scale factors
/// in thousandths, and magnification deltas as the natural logarithm of
/// the factor in thousandths.
#[derive(Clone, Debug, PartialEq)]
pub enum NativeEvent {
    ScaleFactorChanged { pixels_per_point_milli: u32 },
    MouseInput { pressed: bool, button: MouseButton },
    MouseWheel { delta: ScrollDelta },
    CursorMoved { pos: Pos2 },
    CursorEntered,
    CursorLeft,
    Touch { device_id: u64, id: u64, phase: NativeTouchPhase, pos: Pos2, force_milli: Option<u32> },
    ReceivedCharacter(char),
    Ime(ImeEvent),
    KeyboardInput { pressed: bool, keycode: Option<KeyCode> },
    Focused(bool),
    HoveredFile(String),
    HoveredFileCancelled,
    DroppedFile(String),
    ModifiersChanged { alt: bool, ctrl: bool, shift: bool, logo: bool },
    CloseRequested,
    Destroyed,
    Occluded(bool),
    Resized,
    Moved,
    ThemeChanged,
    TouchpadPressure,
    TouchpadMagnify { ln_factor_milli: i64 },
    AxisMotion,
    SmartMagnify,
    TouchpadRotate,
}

/// A normalized input event, independent of the windowing system.  Zoom
/// events carry the natural logarithm of the zoom factor in thousandths.
#[derive(Clone, Debug, PartialEq)]
pub enum Event {
    PointerMoved(Pos2),
    PointerButton { pos: Pos2, button: PointerButton, pressed: bool, modifiers: Modifiers },
    PointerGone,
    MouseWheel { unit: MouseWheelUnit, delta_x: i64, delta_y: i64, modifiers: Modifiers },
    Scroll { delta_x: i64, delta_y: i64 },
    Zoom { ln_factor_milli: i64 },
    Key { key: Key, pressed: bool, repeat: bool, modifiers: Modifiers },
    Text(String),
    Cut,
    CopyText,
    Paste(String),
    CompositionStart,
    CompositionUpdate(String),
    CompositionEnd(String),
    Touch { device_id: u64, id: u64, phase: TouchPhase, pos: Pos2, force_milli: Option<u32> },
    WindowFocused(bool),
    CloseRequested,
}

/// The specification value of an [`Event`], with text as character
/// sequences.
pub enum EventView {
    PointerMoved(Pos2),
    PointerButton { pos: Pos2, button: PointerButton, pressed: bool, modifiers: Modifiers },
    PointerGone,
    MouseWheel { unit: MouseWheelUnit, delta_x: i64, delta_y: i64, modifiers: Modifiers },
    Scroll { delta_x: i64, delta_y: i64 },
    Zoom { ln_factor_milli: i64 },
    Key { key: Key, pressed: bool, repeat: bool, modifiers: Modifiers },
    Text(Seq<char>),
    Cut,
    CopyText,
    Paste(Seq<char>),
    CompositionStart,
    CompositionUpdate(Seq<char>),
    CompositionEnd(Seq<char>),
    Touch { device_id: u64, id: u64, phase: TouchPhase, pos: Pos2, force_milli: Option<u32> },
    WindowFocused(bool),
    CloseRequested,
}

impl DeepView for Event {
    type V = EventView;

    open spec fn deep_view(&self) -> EventView {
        match self {
            Event::PointerMoved(pos) => EventView::PointerMoved(*pos),
            Event::PointerButton { pos, button, pressed, modifiers } => (EventView::PointerButton {
                pos: *pos,
                button: *button,
                pressed: *pressed,
                modifiers: *modifiers,
            }),
            Event::PointerGone => EventView::PointerGone,
            Event::MouseWheel { unit, delta_x, delta_y, modifiers } => (EventView::MouseWheel {
                unit: *unit,
                delta_x: *delta_x,
                delta_y: *delta_y,
                modifiers: *modifiers,
            }),
            Event::Scroll { delta_x, delta_y } => (EventView::Scroll {
                delta_x: *delta_x,
                delta_y: *delta_y,
            }),
            Event::Zoom { ln_factor_milli } => (EventView::Zoom { ln_factor_milli: *ln_factor_milli }),
            Event::Key { key, pressed, repeat, modifiers } => (EventView::Key {
                key: *key,
                pressed: *pressed,
                repeat: *repeat,
                modifiers: *modifiers,
            }),
            Event::Text(s) => EventView::Text(s@),
            Event::Cut => EventView::Cut,
            Event::CopyText => EventView::CopyText,
            Event::Paste(s) => EventView::Paste(s@),
            Event::CompositionStart => EventView::CompositionStart,
            Event::CompositionUpdate(s) => EventView::CompositionUpdate(s@),
            Event::CompositionEnd(s) => EventView::CompositionEnd(s@),
            Event::Touch { device_id, id, phase, pos, force_milli } => (EventView::Touch {
                device_id: *device_id,
                id: *id,
                phase: *phase,
                pos: *pos,
                force_milli: *force_milli,
            }),
            Event::WindowFocused(f) => EventView::WindowFocused(*f),
            Event::CloseRequested => EventView::CloseRequested,
        }
    }
}

/// How the owning window should treat a native event after translation.
#[derive(Clone, Copy, Debug, PartialEq, Eq, Structural)]
pub struct EventResponse {
    /// If true, the GUI claimed the event for itself and the window
    /// should suppress its default handling of it.
    pub consumed: bool,
    /// If true, the GUI needs to repaint because of the event.
    pub repaint: bool,
}

/// What the GUI library currently answers about its input appetite; a
/// snapshot taken just before a native event is translated.
#[derive(Clone, Copy, Debug, PartialEq, Eq, Structural)]
pub struct GuiQueries {
    /// Whether the GUI wants exclusive pointer input right now.
    pub wants_pointer_input: bool,
    /// Whether the GUI wants exclusive keyboard input right now.
    pub wants_keyboard_input: bool,
    /// Whether the GUI is in the middle of a pointer interaction.
    pub is_using_pointer: bool,
}

} // verus!
