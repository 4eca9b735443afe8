//! The stateful input translator: consumes native window events and
//! accumulates a normalized input record for the GUI library, tracking
//! pointer position, modifier keys, touch-to-pointer emulation and
//! text-composition bracketing along the way.

use vstd::prelude::*;
use crate::Platform;
use crate::events::{
    Event, EventResponse, EventView, GuiQueries, ImeEvent, MouseWheelUnit, NativeEvent,
    NativeTouchPhase, Pos2, Rect, ScrollDelta, TouchPhase,
};
use crate::keymap::{
    button_for_mouse_button, cursor_for_icon, is_copy_command, is_cut_command, is_paste_command,
    key_for_code, spec_is_copy_command, spec_is_cut_command, spec_is_paste_command,
    translate_cursor, translate_mouse_button, translate_virtual_key_code, CursorIcon, KeyCode,
    Modifiers, MouseButton, NativeCursorIcon,
};
use crate::text::{is_printable_char, normalize_newlines, spec_is_printable_char,
    spec_normalize_newlines};

verus! {

/// The input accumulated for the GUI library since the last frame: an
/// append-only queue of abstract events plus ancillary continuous state.
#[derive(Clone, Debug, PartialEq)]
pub struct RawInput {
    /// Time since the translator was created, in milliseconds, set when a
    /// frame is taken.
    pub time_millis: Option<u64>,
    /// Position and size of the screen area in logical points, set when a
    /// frame is taken and the window is not minimized.
    pub screen_rect: Option<Rect>,
    /// Physical pixels per logical point, in thousandths, once known.
    pub pixels_per_point_milli: Option<u32>,
    /// Largest texture side the graphics context supports, once known.
    pub max_texture_side: Option<usize>,
    /// The modifier keys currently held.
    pub modifiers: Modifiers,
    /// The abstract events accumulated since the last frame, in order.
    pub events: Vec<Event>,
    /// Paths currently hovering over the window in a drag-and-drop.
    pub hovered_files: Vec<String>,
    /// Paths dropped onto the window since the last frame.
    pub dropped_files: Vec<String>,
    /// Whether the window currently has keyboard focus.
    pub focused: bool,
}

/// The specification value of a [`RawInput`].
#[verifier::ext_equal]
pub struct RawInputView {
    pub time_millis: Option<u64>,
    pub screen_rect: Option<Rect>,
    pub pixels_per_point_milli: Option<u32>,
    pub max_texture_side: Option<usize>,
    pub modifiers: Modifiers,
    pub events: Seq<EventView>,
    pub hovered_files: Seq<Seq<char>>,
    pub dropped_files: Seq<Seq<char>>,
    pub focused: bool,
}

impl View for RawInput {
    type V = RawInputView;

    open spec fn view(&self) -> RawInputView {
        RawInputView {
            time_millis: self.time_millis,
            screen_rect: self.screen_rect,
            pixels_per_point_milli: self.pixels_per_point_milli,
            max_texture_side: self.max_texture_side,
            modifiers: self.modifiers,
            events: self.events.deep_view(),
            hovered_files: self.hovered_files.deep_view(),
            dropped_files: self.dropped_files.deep_view(),
            focused: self.focused,
        }
    }
}

/// The per-window translator state.
pub struct State {
    egui_input: RawInput,
    pointer_pos_in_points: Option<Pos2>,
    any_pointer_button_down: bool,
    current_cursor_icon: Option<CursorIcon>,
    current_pixels_per_point_milli: u32,
    simulate_touch_screen: bool,
    pointer_touch_id: Option<u64>,
    input_method_editor_started: bool,
    platform: Platform,
}

/// The specification value of a [`State`].
#[verifier::ext_equal]
pub struct StateView {
    /// The accumulated input record.
    pub input: RawInputView,
    /// Last known pointer position in logical points, while the pointer
    /// is inside the window.
    pub pointer_pos_in_points: Option<Pos2>,
    /// Whether the emulated pointer button is held, in touch simulation.
    pub any_pointer_button_down: bool,
    /// The cursor shape last applied, while the pointer is inside the
    /// window; forgotten when it leaves so it is reapplied on re-entry.
    pub current_cursor_icon: Option<CursorIcon>,
    /// Physical pixels per logical point, in thousandths.
    pub current_pixels_per_point_milli: u32,
    /// Whether mouse input is additionally translated into touch events.
    pub simulate_touch_screen: bool,
    /// The identifier of the touch currently emulating the pointer.
    pub pointer_touch_id: Option<u64>,
    /// Whether a text composition is in progress.
    pub input_method_editor_started: bool,
    /// How shortcuts and modifiers are interpreted.
    pub platform: Platform,
}

impl View for State {
    type V = StateView;

    closed spec fn view(&self) -> StateView {
        StateView {
            input: self.egui_input@,
            pointer_pos_in_points: self.pointer_pos_in_points,
            any_pointer_button_down: self.any_pointer_button_down,
            current_cursor_icon: self.current_cursor_icon,
            current_pixels_per_point_milli: self.current_pixels_per_point_milli,
            simulate_touch_screen: self.simulate_touch_screen,
            pointer_touch_id: self.pointer_touch_id,
            input_method_editor_started: self.input_method_editor_started,
            platform: self.platform,
        }
    }
}

/// The state with the given events appended to the input queue and
/// nothing else changed.
pub open spec fn with_events(s: StateView, evs: Seq<EventView>) -> StateView {
    StateView { input: RawInputView { events: s.input.events + evs, ..s.input }, ..s }
}

/// The state of a freshly constructed translator: an empty input record
/// without focus, no pointer, no composition, and a scale of one.
pub open spec fn initial_state(platform: Platform, simulate_touch_screen: bool) -> StateView {
    StateView {
        input: RawInputView {
            time_millis: None,
            screen_rect: None,
            pixels_per_point_milli: None,
            max_texture_side: None,
            modifiers: Modifiers::empty(),
            events: Seq::empty(),
            hovered_files: Seq::empty(),
            dropped_files: Seq::empty(),
            focused: false,
        },
        pointer_pos_in_points: None,
        any_pointer_button_down: false,
        current_cursor_icon: None,
        current_pixels_per_point_milli: 1000,
        simulate_touch_screen,
        pointer_touch_id: None,
        input_method_editor_started: false,
        platform,
    }
}

impl State {
    /// Constructs a translator for one window.  The windowing system
    /// reports focus later, so the input record starts unfocused.
    pub fn new(platform: Platform, simulate_touch_screen: bool) -> (r: State)
        ensures
            r@ == initial_state(platform, simulate_touch_screen),
    {
        let r = State {
            egui_input: RawInput {
                time_millis: None,
                screen_rect: None,
                pixels_per_point_milli: None,
                max_texture_side: None,
                modifiers: Modifiers::none(),
                events: Vec::new(),
                hovered_files: Vec::new(),
                dropped_files: Vec::new(),
                focused: false,
            },
            pointer_pos_in_points: None,
            any_pointer_button_down: false,
            current_cursor_icon: None,
            current_pixels_per_point_milli: 1000,
            simulate_touch_screen,
            pointer_touch_id: None,
            input_method_editor_started: false,
            platform,
        };
        proof {
            assert(r@ =~= initial_state(platform, simulate_touch_screen));
        }
        r
    }

    /// Records the maximum texture dimension of the graphics context.
    pub fn set_max_texture_side(&mut self, max_texture_side: usize)
        ensures
            final(self)@ == (StateView {
                input: RawInputView {
                    max_texture_side: Some(max_texture_side),
                    ..old(self)@.input
                },
                ..old(self)@
            }),
    {
        self.egui_input.max_texture_side = Some(max_texture_side);
    }

    /// Initializes the scale for a newly created native window, in
    /// thousandths of a pixel per point.
    pub fn set_pixels_per_point(&mut self, pixels_per_point_milli: u32)
        ensures
            final(self)@ == (StateView {
                input: RawInputView {
                    pixels_per_point_milli: Some(pixels_per_point_milli),
                    ..old(self)@.input
                },
                current_pixels_per_point_milli: pixels_per_point_milli,
                ..old(self)@
            }),
    {
        self.egui_input.pixels_per_point_milli = Some(pixels_per_point_milli);
        self.current_pixels_per_point_milli = pixels_per_point_milli;
    }

    /// The number of physical pixels per logical point, in thousandths.
    pub fn pixels_per_point(&self) -> (r: u32)
        ensures
            r == self@.current_pixels_per_point_milli,
    {
        self.current_pixels_per_point_milli
    }

    /// The input accumulated so far, changed by translation and cleared
    /// when a frame is taken.
    pub fn egui_input(&self) -> (r: &RawInput)
        ensures
            r@ == self@.input,
    {
        &self.egui_input
    }

    /// Appends one abstract event to the input queue.
    fn push_event(&mut self, event: Event)
        ensures
            final(self)@ == with_events(old(self)@, seq![event.deep_view()]),
    {
        let ghost e = event.deep_view();
        self.egui_input.events.push(event);
        proof {
            assert(self@ =~= with_events(old(self)@, seq![e]));
        }
    }
}

} // verus!

verus! {

/// The synthetic touch event used when mouse input is simulated as a
/// touch screen: a fixed device and touch identifier of zero.
pub open spec fn synthetic_touch(phase: TouchPhase, pos: Pos2) -> EventView {
    EventView::Touch { device_id: 0, id: 0, phase, pos, force_milli: None }
}

/// The events a pointer move emits: a pointer-move event, accompanied in
/// touch simulation by a synthetic touch move while the button is held,
/// and nothing while it is not.
pub open spec fn cursor_moved_emitted(s: StateView, pos: Pos2) -> Seq<EventView> {
    if s.simulate_touch_screen {
        if s.any_pointer_button_down {
            seq![EventView::PointerMoved(pos), synthetic_touch(TouchPhase::Move, pos)]
        } else {
            Seq::empty()
        }
    } else {
        seq![EventView::PointerMoved(pos)]
    }
}

/// The state after a pointer move: the pointer position is recorded and
/// the move events are appended.
pub open spec fn cursor_moved_step(s: StateView, pos: Pos2) -> StateView {
    with_events(
        StateView { pointer_pos_in_points: Some(pos), ..s },
        cursor_moved_emitted(s, pos),
    )
}

/// The events a mouse-button report emits: nothing while the pointer is
/// outside the window or the button has no abstract counterpart;
/// otherwise a pointer-button event, followed in touch simulation by a
/// synthetic touch start on press, or by pointer-gone and a synthetic
/// touch end on release.
pub open spec fn mouse_button_emitted(s: StateView, pressed: bool, button: MouseButton) -> Seq<
    EventView,
> {
    match (s.pointer_pos_in_points, button_for_mouse_button(button)) {
        (Some(pos), Some(b)) => {
            let base = seq![
                EventView::PointerButton { pos, button: b, pressed, modifiers: s.input.modifiers },
            ];
            if s.simulate_touch_screen {
                if pressed {
                    base + seq![synthetic_touch(TouchPhase::Start, pos)]
                } else {
                    base + seq![EventView::PointerGone, synthetic_touch(TouchPhase::End, pos)]
                }
            } else {
                base
            }
        },
        _ => Seq::empty(),
    }
}

/// The state after a mouse-button report: in touch simulation the held
/// flag follows the button, and the button events are appended.
pub open spec fn mouse_button_step(s: StateView, pressed: bool, button: MouseButton) -> StateView {
    match (s.pointer_pos_in_points, button_for_mouse_button(button)) {
        (Some(pos), Some(b)) => {
            let s1 = if s.simulate_touch_screen {
                StateView { any_pointer_button_down: pressed, ..s }
            } else {
                s
            };
            with_events(s1, mouse_button_emitted(s, pressed, button))
        },
        _ => s,
    }
}

/// The abstract phase of a native touch phase.
pub open spec fn abstract_touch_phase(phase: NativeTouchPhase) -> TouchPhase {
    match phase {
        NativeTouchPhase::Started => TouchPhase::Start,
        NativeTouchPhase::Moved => TouchPhase::Move,
        NativeTouchPhase::Ended => TouchPhase::End,
        NativeTouchPhase::Cancelled => TouchPhase::Cancel,
    }
}

/// The state after a native touch report.  The raw touch event is always
/// emitted.  Pointer emulation follows only when no touch is the pointer
/// surrogate yet or this very touch is: a start claims the surrogate and
/// acts as a pointer move plus a left press; a move acts as a pointer
/// move; an end releases the surrogate, acts as a left release and makes
/// the pointer vanish; a cancel releases the surrogate and makes the
/// pointer vanish.
pub open spec fn touch_step(
    s: StateView,
    device_id: u64,
    id: u64,
    phase: NativeTouchPhase,
    pos: Pos2,
    force_milli: Option<u32>,
) -> StateView {
    let s1 = with_events(
        s,
        seq![
            EventView::Touch {
                device_id,
                id,
                phase: abstract_touch_phase(phase),
                pos,
                force_milli,
            },
        ],
    );
    if s.pointer_touch_id is None || s.pointer_touch_id == Some(id) {
        match phase {
            NativeTouchPhase::Started => {
                let s2 = StateView { pointer_touch_id: Some(id), ..s1 };
                let s3 = cursor_moved_step(s2, pos);
                mouse_button_step(s3, true, MouseButton::Left)
            },
            NativeTouchPhase::Moved => cursor_moved_step(s1, pos),
            NativeTouchPhase::Ended => {
                let s2 = StateView { pointer_touch_id: None, ..s1 };
                let s3 = mouse_button_step(s2, false, MouseButton::Left);
                let s4 = StateView { pointer_pos_in_points: None, ..s3 };
                with_events(s4, seq![EventView::PointerGone])
            },
            NativeTouchPhase::Cancelled => {
                let s2 = StateView {
                    pointer_touch_id: None,
                    pointer_pos_in_points: None,
                    ..s1
                };
                with_events(s2, seq![EventView::PointerGone])
            },
        }
    } else {
        s1
    }
}

/// The horizontal scroll magnitude of a wheel report in logical points;
/// a line counts as fifty points.
pub open spec fn scroll_points_x(delta: ScrollDelta) -> int {
    match delta {
        ScrollDelta::LineDelta(x, _y) => x * 50,
        ScrollDelta::PointDelta(x, _y) => x as int,
    }
}

/// The vertical scroll magnitude of a wheel report in logical points.
pub open spec fn scroll_points_y(delta: ScrollDelta) -> int {
    match delta {
        ScrollDelta::LineDelta(_x, y) => y * 50,
        ScrollDelta::PointDelta(_x, y) => y as int,
    }
}

/// The raw wheel event: the delta in its native unit, with the current
/// modifiers attached.
pub open spec fn wheel_raw_event(s: StateView, delta: ScrollDelta) -> EventView {
    match delta {
        ScrollDelta::LineDelta(x, y) => (EventView::MouseWheel {
            unit: MouseWheelUnit::Line,
            delta_x: x as i64,
            delta_y: y as i64,
            modifiers: s.input.modifiers,
        }),
        ScrollDelta::PointDelta(x, y) => (EventView::MouseWheel {
            unit: MouseWheelUnit::Point,
            delta_x: x as i64,
            delta_y: y as i64,
            modifiers: s.input.modifiers,
        }),
    }
}

/// The derived wheel event.  With a zoom modifier held (ctrl or command)
/// the vertical magnitude becomes a zoom whose factor is the exponential
/// of points over two hundred, so the logarithm in thousandths is five
/// per point; zoom takes precedence over the shift redirection.  With
/// shift held the vertical magnitude is redirected to the horizontal
/// axis.  Otherwise the wheel scrolls.
pub open spec fn wheel_derived_event(s: StateView, delta: ScrollDelta) -> EventView {
    if s.input.modifiers.ctrl || s.input.modifiers.command {
        EventView::Zoom { ln_factor_milli: (scroll_points_y(delta) * 5) as i64 }
    } else if s.input.modifiers.shift {
        EventView::Scroll {
            delta_x: (scroll_points_x(delta) + scroll_points_y(delta)) as i64,
            delta_y: 0,
        }
    } else {
        EventView::Scroll {
            delta_x: scroll_points_x(delta) as i64,
            delta_y: scroll_points_y(delta) as i64,
        }
    }
}

/// The two events a wheel report emits: the raw event, then the derived
/// one.
pub open spec fn wheel_emitted(s: StateView, delta: ScrollDelta) -> Seq<EventView> {
    seq![wheel_raw_event(s, delta), wheel_derived_event(s, delta)]
}

/// The events a character report emits: a text event for printable user
/// text, and nothing for control characters, private-use characters, or
/// command side effects on mac (a character arriving while ctrl or the
/// command key is held).
pub open spec fn char_emitted(s: StateView, ch: char) -> Seq<EventView> {
    let is_mac_cmd = s.platform == Platform::MacOs && (s.input.modifiers.ctrl
        || s.input.modifiers.mac_cmd);
    if spec_is_printable_char(ch) && !is_mac_cmd {
        seq![EventView::Text(seq![ch])]
    } else {
        Seq::empty()
    }
}

/// The events a composition notification emits.  The first preedit of a
/// session opens the composition explicitly before the update; a commit
/// closes it; enable and disable notifications are ignored because their
/// meaning differs between platforms.
pub open spec fn ime_emitted(started: bool, ime: ImeEvent) -> Seq<EventView> {
    match ime {
        ImeEvent::Enabled => Seq::empty(),
        ImeEvent::Disabled => Seq::empty(),
        ImeEvent::Commit(text) => seq![EventView::CompositionEnd(text@)],
        ImeEvent::Preedit(text) => if !started {
            seq![EventView::CompositionStart, EventView::CompositionUpdate(text@)]
        } else {
            seq![EventView::CompositionUpdate(text@)]
        },
    }
}

/// Whether a composition is in progress after a notification.
pub open spec fn ime_started_after(started: bool, ime: ImeEvent) -> bool {
    match ime {
        ImeEvent::Enabled => started,
        ImeEvent::Disabled => started,
        ImeEvent::Commit(_) => false,
        ImeEvent::Preedit(_) => true,
    }
}

/// The state after a composition notification.
pub open spec fn ime_step(s: StateView, ime: ImeEvent) -> StateView {
    with_events(
        StateView {
            input_method_editor_started: ime_started_after(s.input_method_editor_started, ime),
            ..s
        },
        ime_emitted(s.input_method_editor_started, ime),
    )
}

/// The events a key report emits.  On a press, the cut, copy and paste
/// shortcuts are detected from the raw modifier and key combination; a
/// detected paste pastes the clipboard contents with line endings
/// normalized, unless the clipboard is unavailable or empty.  A key with
/// an abstract mapping additionally emits a key event on both press and
/// release; an unmapped key emits none.
pub open spec fn keyboard_emitted(
    s: StateView,
    pressed: bool,
    keycode: Option<KeyCode>,
    clipboard_text: Option<String>,
) -> Seq<EventView> {
    match keycode {
        None => Seq::empty(),
        Some(kc) => {
            let shortcut = if pressed {
                if spec_is_cut_command(s.platform, s.input.modifiers, kc) {
                    seq![EventView::Cut]
                } else if spec_is_copy_command(s.platform, s.input.modifiers, kc) {
                    seq![EventView::CopyText]
                } else if spec_is_paste_command(s.platform, s.input.modifiers, kc) {
                    match clipboard_text {
                        None => Seq::empty(),
                        Some(contents) => {
                            let n = spec_normalize_newlines(contents@);
                            if n.len() == 0 {
                                Seq::empty()
                            } else {
                                seq![EventView::Paste(n)]
                            }
                        },
                    }
                } else {
                    Seq::empty()
                }
            } else {
                Seq::empty()
            };
            let key_event = match key_for_code(kc) {
                None => Seq::empty(),
                Some(key) => seq![
                    EventView::Key { key, pressed, repeat: false, modifiers: s.input.modifiers },
                ],
            };
            shortcut + key_event
        },
    }
}

/// The modifier set after a native modifier report: the command modifier
/// follows the logo key on mac and the control key elsewhere, and the
/// mac command flag is set only on mac.
pub open spec fn modifiers_from_native(
    platform: Platform,
    alt: bool,
    ctrl: bool,
    shift: bool,
    logo: bool,
) -> Modifiers {
    Modifiers {
        alt,
        ctrl,
        shift,
        mac_cmd: platform == Platform::MacOs && logo,
        command: if platform == Platform::MacOs {
            logo
        } else {
            ctrl
        },
    }
}

impl State {
    /// Translates a pointer move to the given position in logical points.
    fn on_cursor_moved(&mut self, pos: Pos2)
        ensures
            final(self)@ == cursor_moved_step(old(self)@, pos),
    {
        self.pointer_pos_in_points = Some(pos);
        if self.simulate_touch_screen {
            if self.any_pointer_button_down {
                self.push_event(Event::PointerMoved(pos));
                self.push_event(Event::Touch {
                    device_id: 0,
                    id: 0,
                    phase: TouchPhase::Move,
                    pos,
                    force_milli: None,
                });
            }
        } else {
            self.push_event(Event::PointerMoved(pos));
        }
        proof {
            assert(self@ =~= cursor_moved_step(old(self)@, pos));
        }
    }

    /// Translates a mouse-button press or release.
    fn on_mouse_button_input(&mut self, pressed: bool, button: MouseButton)
        ensures
            final(self)@ == mouse_button_step(old(self)@, pressed, button),
    {
        if let Some(pos) = self.pointer_pos_in_points {
            if let Some(b) = translate_mouse_button(button) {
                let modifiers = self.egui_input.modifiers;
                self.push_event(Event::PointerButton { pos, button: b, pressed, modifiers });
                if self.simulate_touch_screen {
                    if pressed {
                        self.any_pointer_button_down = true;
                        self.push_event(Event::Touch {
                            device_id: 0,
                            id: 0,
                            phase: TouchPhase::Start,
                            pos,
                            force_milli: None,
                        });
                    } else {
                        self.any_pointer_button_down = false;
                        self.push_event(Event::PointerGone);
                        self.push_event(Event::Touch {
                            device_id: 0,
                            id: 0,
                            phase: TouchPhase::End,
                            pos,
                            force_milli: None,
                        });
                    }
                }
            }
        }
        proof {
            assert(self@ =~= mouse_button_step(old(self)@, pressed, button));
        }
    }

    /// Translates a native touch report, emulating the pointer through
    /// the surrogate touch.
    fn on_touch(
        &mut self,
        device_id: u64,
        id: u64,
        phase: NativeTouchPhase,
        pos: Pos2,
        force_milli: Option<u32>,
    )
        ensures
            final(self)@ == touch_step(old(self)@, device_id, id, phase, pos, force_milli),
    {
        let abstract_phase = match phase {
            NativeTouchPhase::Started => TouchPhase::Start,
            NativeTouchPhase::Moved => TouchPhase::Move,
            NativeTouchPhase::Ended => TouchPhase::End,
            NativeTouchPhase::Cancelled => TouchPhase::Cancel,
        };
        self.push_event(Event::Touch { device_id, id, phase: abstract_phase, pos, force_milli });
        let is_surrogate = match self.pointer_touch_id {
            None => true,
            Some(current) => current == id,
        };
        if is_surrogate {
            match phase {
                NativeTouchPhase::Started => {
                    self.pointer_touch_id = Some(id);
                    self.on_cursor_moved(pos);
                    self.on_mouse_button_input(true, MouseButton::Left);
                },
                NativeTouchPhase::Moved => {
                    self.on_cursor_moved(pos);
                },
                NativeTouchPhase::Ended => {
                    self.pointer_touch_id = None;
                    self.on_mouse_button_input(false, MouseButton::Left);
                    self.pointer_pos_in_points = None;
                    self.push_event(Event::PointerGone);
                },
                NativeTouchPhase::Cancelled => {
                    self.pointer_touch_id = None;
                    self.pointer_pos_in_points = None;
                    self.push_event(Event::PointerGone);
                },
            }
        }
        proof {
            assert(self@ =~= touch_step(old(self)@, device_id, id, phase, pos, force_milli));
        }
    }

    /// Translates a wheel report into the raw wheel event and the derived
    /// scroll or zoom event.
    fn on_mouse_wheel(&mut self, delta: ScrollDelta)
        ensures
            final(self)@ == with_events(old(self)@, wheel_emitted(old(self)@, delta)),
    {
        let modifiers = self.egui_input.modifiers;
        let (px, py): (i64, i64) = match delta {
            ScrollDelta::LineDelta(x, y) => {
                self.push_event(Event::MouseWheel {
                    unit: MouseWheelUnit::Line,
                    delta_x: x as i64,
                    delta_y: y as i64,
                    modifiers,
                });
                ((x as i64) * 50, (y as i64) * 50)
            },
            ScrollDelta::PointDelta(x, y) => {
                self.push_event(Event::MouseWheel {
                    unit: MouseWheelUnit::Point,
                    delta_x: x as i64,
                    delta_y: y as i64,
                    modifiers,
                });
                (x as i64, y as i64)
            },
        };
        if modifiers.ctrl || modifiers.command {
            self.push_event(Event::Zoom { ln_factor_milli: py * 5 });
        } else if modifiers.shift {
            self.push_event(Event::Scroll { delta_x: px + py, delta_y: 0 });
        } else {
            self.push_event(Event::Scroll { delta_x: px, delta_y: py });
        }
        proof {
            assert(self@ =~= with_events(old(self)@, wheel_emitted(old(self)@, delta)));
        }
    }

    /// Translates a character report, dropping what is not user text.
    fn on_received_character(&mut self, ch: char)
        ensures
            final(self)@ == with_events(old(self)@, char_emitted(old(self)@, ch)),
    {
        let is_mac_cmd = self.platform == Platform::MacOs && (self.egui_input.modifiers.ctrl
            || self.egui_input.modifiers.mac_cmd);
        if is_printable_char(ch) && !is_mac_cmd {
            self.push_event(Event::Text(crate::text::char_to_string(ch)));
        }
        proof {
            assert(self@ =~= with_events(old(self)@, char_emitted(old(self)@, ch)));
        }
    }

    /// Translates a composition notification, bracketing the session
    /// explicitly.
    fn on_ime(&mut self, ime: &ImeEvent)
        ensures
            final(self)@ == ime_step(old(self)@, *ime),
    {
        match ime {
            ImeEvent::Enabled => (),
            ImeEvent::Disabled => (),
            ImeEvent::Commit(text) => {
                self.input_method_editor_started = false;
                self.push_event(Event::CompositionEnd(text.clone()));
            },
            ImeEvent::Preedit(text) => {
                if !self.input_method_editor_started {
                    self.input_method_editor_started = true;
                    self.push_event(Event::CompositionStart);
                }
                self.push_event(Event::CompositionUpdate(text.clone()));
            },
        }
        proof {
            assert(self@ =~= ime_step(old(self)@, *ime));
        }
    }

    /// Translates a key press or release, detecting the cut, copy and
    /// paste shortcuts from the raw combination.
    fn on_keyboard_input(
        &mut self,
        pressed: bool,
        keycode: Option<KeyCode>,
        clipboard_text: Option<String>,
    )
        ensures
            final(self)@ == with_events(
                old(self)@,
                keyboard_emitted(old(self)@, pressed, keycode, clipboard_text),
            ),
    {
        if let Some(kc) = keycode {
            let modifiers = self.egui_input.modifiers;
            if pressed {
                if is_cut_command(self.platform, modifiers, kc) {
                    self.push_event(Event::Cut);
                } else if is_copy_command(self.platform, modifiers, kc) {
                    self.push_event(Event::CopyText);
                } else if is_paste_command(self.platform, modifiers, kc) {
                    if let Some(contents) = clipboard_text {
                        let contents = normalize_newlines(contents.as_str());
                        if !contents.as_str().is_empty() {
                            self.push_event(Event::Paste(contents));
                        }
                    }
                }
            }
            if let Some(key) = translate_virtual_key_code(kc) {
                let modifiers = self.egui_input.modifiers;
                self.push_event(Event::Key { key, pressed, repeat: false, modifiers });
            }
        }
        proof {
            assert(self@ =~= with_events(
                old(self)@,
                keyboard_emitted(old(self)@, pressed, keycode, clipboard_text),
            ));
        }
    }
}

} // verus!

verus! {

/// The state after one native window event is translated.
pub open spec fn on_event_step(
    s: StateView,
    clipboard_text: Option<String>,
    event: NativeEvent,
) -> StateView {
    match event {
        NativeEvent::ScaleFactorChanged { pixels_per_point_milli } => (StateView {
            input: RawInputView {
                pixels_per_point_milli: Some(pixels_per_point_milli),
                ..s.input
            },
            current_pixels_per_point_milli: pixels_per_point_milli,
            ..s
        }),
        NativeEvent::MouseInput { pressed, button } => mouse_button_step(s, pressed, button),
        NativeEvent::MouseWheel { delta } => with_events(s, wheel_emitted(s, delta)),
        NativeEvent::CursorMoved { pos } => cursor_moved_step(s, pos),
        NativeEvent::CursorLeft => with_events(
            StateView { pointer_pos_in_points: None, ..s },
            seq![EventView::PointerGone],
        ),
        NativeEvent::Touch { device_id, id, phase, pos, force_milli } => touch_step(
            s,
            device_id,
            id,
            phase,
            pos,
            force_milli,
        ),
        NativeEvent::ReceivedCharacter(ch) => with_events(s, char_emitted(s, ch)),
        NativeEvent::Ime(ime) => ime_step(s, ime),
        NativeEvent::KeyboardInput { pressed, keycode } => with_events(
            s,
            keyboard_emitted(s, pressed, keycode, clipboard_text),
        ),
        NativeEvent::Focused(focused) => with_events(
            StateView {
                input: RawInputView { modifiers: Modifiers::empty(), focused, ..s.input },
                ..s
            },
            seq![EventView::WindowFocused(focused)],
        ),
        NativeEvent::HoveredFile(path) => (StateView {
            input: RawInputView {
                hovered_files: s.input.hovered_files + seq![path@],
                ..s.input
            },
            ..s
        }),
        NativeEvent::HoveredFileCancelled => (StateView {
            input: RawInputView { hovered_files: Seq::empty(), ..s.input },
            ..s
        }),
        NativeEvent::DroppedFile(path) => (StateView {
            input: RawInputView {
                hovered_files: Seq::empty(),
                dropped_files: s.input.dropped_files + seq![path@],
                ..s.input
            },
            ..s
        }),
        NativeEvent::ModifiersChanged { alt, ctrl, shift, logo } => (StateView {
            input: RawInputView {
                modifiers: modifiers_from_native(s.platform, alt, ctrl, shift, logo),
                ..s.input
            },
            ..s
        }),
        NativeEvent::CloseRequested => with_events(s, seq![EventView::CloseRequested]),
        NativeEvent::TouchpadMagnify { ln_factor_milli } => with_events(
            s,
            seq![EventView::Zoom { ln_factor_milli }],
        ),
        _ => s,
    }
}

/// How the window should treat a native event.  Focus, lifecycle, resize
/// and move events are never consumed and always repaint; axis motion and
/// touchpad rotation are ignored entirely; pointer events are consumed
/// when the GUI wants pointer input, key and composition events when it
/// wants keyboard input; a close request is always consumed; the tab key
/// is always consumed because the GUI uses it to move focus.
pub open spec fn on_event_response(s: StateView, gui: GuiQueries, event: NativeEvent) -> EventResponse {
    match event {
        NativeEvent::ScaleFactorChanged { .. } => EventResponse { consumed: false, repaint: true },
        NativeEvent::MouseInput { .. } => (EventResponse {
            consumed: gui.wants_pointer_input,
            repaint: true,
        }),
        NativeEvent::MouseWheel { .. } => (EventResponse {
            consumed: gui.wants_pointer_input,
            repaint: true,
        }),
        NativeEvent::CursorMoved { .. } => (EventResponse {
            consumed: gui.is_using_pointer,
            repaint: true,
        }),
        NativeEvent::CursorLeft => EventResponse { consumed: false, repaint: true },
        NativeEvent::Touch { phase, .. } => (EventResponse {
            consumed: match phase {
                NativeTouchPhase::Moved => gui.is_using_pointer,
                _ => gui.wants_pointer_input,
            },
            repaint: true,
        }),
        NativeEvent::ReceivedCharacter(ch) => (EventResponse {
            consumed: char_emitted(s, ch).len() > 0 && gui.wants_keyboard_input,
            repaint: true,
        }),
        NativeEvent::Ime(_) => EventResponse { consumed: gui.wants_keyboard_input, repaint: true },
        NativeEvent::KeyboardInput { keycode, .. } => (EventResponse {
            consumed: gui.wants_keyboard_input || keycode == Some(KeyCode::Tab),
            repaint: true,
        }),
        NativeEvent::Focused(_) => EventResponse { consumed: false, repaint: true },
        NativeEvent::HoveredFile(_) => EventResponse { consumed: false, repaint: true },
        NativeEvent::HoveredFileCancelled => EventResponse { consumed: false, repaint: true },
        NativeEvent::DroppedFile(_) => EventResponse { consumed: false, repaint: true },
        NativeEvent::ModifiersChanged { .. } => EventResponse { consumed: false, repaint: true },
        NativeEvent::CloseRequested => EventResponse { consumed: true, repaint: true },
        NativeEvent::CursorEntered => EventResponse { consumed: false, repaint: true },
        NativeEvent::Destroyed => EventResponse { consumed: false, repaint: true },
        NativeEvent::Occluded(_) => EventResponse { consumed: false, repaint: true },
        NativeEvent::Resized => EventResponse { consumed: false, repaint: true },
        NativeEvent::Moved => EventResponse { consumed: false, repaint: true },
        NativeEvent::ThemeChanged => EventResponse { consumed: false, repaint: true },
        NativeEvent::TouchpadPressure => EventResponse { consumed: false, repaint: true },
        NativeEvent::TouchpadMagnify { .. } => (EventResponse {
            consumed: gui.wants_pointer_input,
            repaint: true,
        }),
        NativeEvent::AxisMotion => EventResponse { consumed: false, repaint: false },
        NativeEvent::SmartMagnify => EventResponse { consumed: false, repaint: false },
        NativeEvent::TouchpadRotate => EventResponse { consumed: false, repaint: false },
    }
}

impl State {
    /// Records a scale change reported by the windowing system.
    fn on_scale_factor_changed(&mut self, pixels_per_point_milli: u32)
        ensures
            final(self)@ == (StateView {
                input: RawInputView {
                    pixels_per_point_milli: Some(pixels_per_point_milli),
                    ..old(self)@.input
                },
                current_pixels_per_point_milli: pixels_per_point_milli,
                ..old(self)@
            }),
    {
        self.egui_input.pixels_per_point_milli = Some(pixels_per_point_milli);
        self.current_pixels_per_point_milli = pixels_per_point_milli;
        proof {
            assert(self@ =~= (StateView {
                input: RawInputView {
                    pixels_per_point_milli: Some(pixels_per_point_milli),
                    ..old(self)@.input
                },
                current_pixels_per_point_milli: pixels_per_point_milli,
                ..old(self)@
            }));
        }
    }

    /// Forgets the pointer when it leaves the window, so hover effects
    /// end.
    fn on_cursor_left(&mut self)
        ensures
            final(self)@ == with_events(
                StateView { pointer_pos_in_points: None, ..old(self)@ },
                seq![EventView::PointerGone],
            ),
    {
        self.pointer_pos_in_points = None;
        self.push_event(Event::PointerGone);
        proof {
            assert(self@ =~= with_events(
                StateView { pointer_pos_in_points: None, ..old(self)@ },
                seq![EventView::PointerGone],
            ));
        }
    }

    /// Records a focus change.  No key release arrives while the window
    /// is unfocused, so the modifier set is cleared to be safe.
    fn on_focused(&mut self, focused: bool)
        ensures
            final(self)@ == with_events(
                StateView {
                    input: RawInputView {
                        modifiers: Modifiers::empty(),
                        focused,
                        ..old(self)@.input
                    },
                    ..old(self)@
                },
                seq![EventView::WindowFocused(focused)],
            ),
    {
        self.egui_input.focused = focused;
        self.egui_input.modifiers = Modifiers::none();
        self.push_event(Event::WindowFocused(focused));
        proof {
            assert(self@ =~= with_events(
                StateView {
                    input: RawInputView {
                        modifiers: Modifiers::empty(),
                        focused,
                        ..old(self)@.input
                    },
                    ..old(self)@
                },
                seq![EventView::WindowFocused(focused)],
            ));
        }
    }

    /// Records a path hovering over the window.
    fn on_hovered_file(&mut self, path: &String)
        ensures
            final(self)@ == (StateView {
                input: RawInputView {
                    hovered_files: old(self)@.input.hovered_files + seq![path@],
                    ..old(self)@.input
                },
                ..old(self)@
            }),
    {
        self.egui_input.hovered_files.push(path.clone());
        proof {
            assert(self@ =~= (StateView {
                input: RawInputView {
                    hovered_files: old(self)@.input.hovered_files + seq![path@],
                    ..old(self)@.input
                },
                ..old(self)@
            }));
        }
    }

    /// Forgets the hovering paths when the drag leaves the window.
    fn on_hovered_file_cancelled(&mut self)
        ensures
            final(self)@ == (StateView {
                input: RawInputView { hovered_files: Seq::empty(), ..old(self)@.input },
                ..old(self)@
            }),
    {
        self.egui_input.hovered_files = Vec::new();
        proof {
            assert(self@ =~= (StateView {
                input: RawInputView { hovered_files: Seq::empty(), ..old(self)@.input },
                ..old(self)@
            }));
        }
    }

    /// Records a path dropped onto the window and ends the hover.
    fn on_dropped_file(&mut self, path: &String)
        ensures
            final(self)@ == (StateView {
                input: RawInputView {
                    hovered_files: Seq::empty(),
                    dropped_files: old(self)@.input.dropped_files + seq![path@],
                    ..old(self)@.input
                },
                ..old(self)@
            }),
    {
        self.egui_input.hovered_files = Vec::new();
        self.egui_input.dropped_files.push(path.clone());
        proof {
            assert(self@ =~= (StateView {
                input: RawInputView {
                    hovered_files: Seq::empty(),
                    dropped_files: old(self)@.input.dropped_files + seq![path@],
                    ..old(self)@.input
                },
                ..old(self)@
            }));
        }
    }

    /// Records a native modifier report, normalizing the command
    /// modifier for the platform.
    fn on_modifiers_changed(&mut self, alt: bool, ctrl: bool, shift: bool, logo: bool)
        ensures
            final(self)@ == (StateView {
                input: RawInputView {
                    modifiers: modifiers_from_native(old(self)@.platform, alt, ctrl, shift, logo),
                    ..old(self)@.input
                },
                ..old(self)@
            }),
    {
        let is_mac = self.platform == Platform::MacOs;
        self.egui_input.modifiers = Modifiers {
            alt,
            ctrl,
            shift,
            mac_cmd: is_mac && logo,
            command: if is_mac {
                logo
            } else {
                ctrl
            },
        };
        proof {
            assert(self@ =~= (StateView {
                input: RawInputView {
                    modifiers: modifiers_from_native(old(self)@.platform, alt, ctrl, shift, logo),
                    ..old(self)@.input
                },
                ..old(self)@
            }));
        }
    }

    /// Appends the close request to the input queue.
    fn on_close_requested(&mut self)
        ensures
            final(self)@ == with_events(old(self)@, seq![EventView::CloseRequested]),
    {
        self.push_event(Event::CloseRequested);
    }

    /// Translates a magnification gesture; the gesture already reports
    /// the natural logarithm of the factor.
    fn on_touchpad_magnify(&mut self, ln_factor_milli: i64)
        ensures
            final(self)@ == with_events(
                old(self)@,
                seq![EventView::Zoom { ln_factor_milli }],
            ),
    {
        self.push_event(Event::Zoom { ln_factor_milli });
    }

    /// Translates one native window event.  The GUI queries are a
    /// snapshot of what the GUI library currently answers, and the
    /// clipboard text is what a clipboard read would yield right now,
    /// consumed only when a paste shortcut is detected.  The translated
    /// events accumulate in the input record until a frame is taken.
    #[verifier::rlimit(50)]
    #[verifier::spinoff_prover]
    pub fn on_event(
        &mut self,
        gui: &GuiQueries,
        clipboard_text: Option<String>,
        event: &NativeEvent,
    ) -> (r: EventResponse)
        ensures
            final(self)@ == on_event_step(old(self)@, clipboard_text, *event),
            r == on_event_response(old(self)@, *gui, *event),
    {
        match event {
            NativeEvent::ScaleFactorChanged { pixels_per_point_milli } => {
                self.on_scale_factor_changed(*pixels_per_point_milli);
                EventResponse { consumed: false, repaint: true }
            },
            NativeEvent::MouseInput { pressed, button } => {
                self.on_mouse_button_input(*pressed, *button);
                EventResponse { consumed: gui.wants_pointer_input, repaint: true }
            },
            NativeEvent::MouseWheel { delta } => {
                self.on_mouse_wheel(*delta);
                EventResponse { consumed: gui.wants_pointer_input, repaint: true }
            },
            NativeEvent::CursorMoved { pos } => {
                self.on_cursor_moved(*pos);
                EventResponse { consumed: gui.is_using_pointer, repaint: true }
            },
            NativeEvent::CursorLeft => {
                self.on_cursor_left();
                EventResponse { consumed: false, repaint: true }
            },
            NativeEvent::Touch { device_id, id, phase, pos, force_milli } => {
                self.on_touch(*device_id, *id, *phase, *pos, *force_milli);
                let consumed = match phase {
                    NativeTouchPhase::Moved => gui.is_using_pointer,
                    _ => gui.wants_pointer_input,
                };
                EventResponse { consumed, repaint: true }
            },
            NativeEvent::ReceivedCharacter(ch) => {
                let is_mac_cmd = self.platform == Platform::MacOs && (self.egui_input.modifiers.ctrl
                    || self.egui_input.modifiers.mac_cmd);
                let printable = is_printable_char(*ch);
                self.on_received_character(*ch);
                let consumed = printable && !is_mac_cmd && gui.wants_keyboard_input;
                EventResponse { consumed, repaint: true }
            },
            NativeEvent::Ime(ime) => {
                self.on_ime(ime);
                EventResponse { consumed: gui.wants_keyboard_input, repaint: true }
            },
            NativeEvent::KeyboardInput { pressed, keycode } => {
                let is_tab = match keycode {
                    Some(kc) => *kc == KeyCode::Tab,
                    None => false,
                };
                self.on_keyboard_input(*pressed, *keycode, clipboard_text);
                EventResponse { consumed: gui.wants_keyboard_input || is_tab, repaint: true }
            },
            NativeEvent::Focused(focused) => {
                self.on_focused(*focused);
                EventResponse { consumed: false, repaint: true }
            },
            NativeEvent::HoveredFile(path) => {
                self.on_hovered_file(path);
                EventResponse { consumed: false, repaint: true }
            },
            NativeEvent::HoveredFileCancelled => {
                self.on_hovered_file_cancelled();
                EventResponse { consumed: false, repaint: true }
            },
            NativeEvent::DroppedFile(path) => {
                self.on_dropped_file(path);
                EventResponse { consumed: false, repaint: true }
            },
            NativeEvent::ModifiersChanged { alt, ctrl, shift, logo } => {
                self.on_modifiers_changed(*alt, *ctrl, *shift, *logo);
                EventResponse { consumed: false, repaint: true }
            },
            NativeEvent::CloseRequested => {
                self.on_close_requested();
                EventResponse { consumed: true, repaint: true }
            },
            NativeEvent::TouchpadMagnify { ln_factor_milli } => {
                self.on_touchpad_magnify(*ln_factor_milli);
                EventResponse { consumed: gui.wants_pointer_input, repaint: true }
            },
            NativeEvent::CursorEntered => EventResponse { consumed: false, repaint: true },
            NativeEvent::Destroyed => EventResponse { consumed: false, repaint: true },
            NativeEvent::Occluded(_) => EventResponse { consumed: false, repaint: true },
            NativeEvent::Resized => EventResponse { consumed: false, repaint: true },
            NativeEvent::Moved => EventResponse { consumed: false, repaint: true },
            NativeEvent::ThemeChanged => EventResponse { consumed: false, repaint: true },
            NativeEvent::TouchpadPressure => EventResponse { consumed: false, repaint: true },
            NativeEvent::AxisMotion => EventResponse { consumed: false, repaint: false },
            NativeEvent::SmartMagnify => EventResponse { consumed: false, repaint: false },
            NativeEvent::TouchpadRotate => EventResponse { consumed: false, repaint: false },
        }
    }
}

} // verus!

verus! {

/// What a host must know to bundle a frame: the time since the
/// translator was created, the window's outer position as reported, the
/// screen area in logical points, and whether the window is minimized
/// (`None` when the windowing system cannot tell).
#[derive(Clone, Copy, Debug, PartialEq, Eq, Structural)]
pub struct FrameInfo {
    pub elapsed_millis: u64,
    pub outer_pos: Option<Pos2>,
    pub screen_size_points: Pos2,
    pub minimized: Option<bool>,
}

/// The screen rectangle of a frame: absent while the window is minimized
/// or its minimized state cannot be determined (a minimized window
/// reports a zero size on some platforms, which would displace the GUI's
/// windows); otherwise from the reported outer position (the origin when
/// unknown) to the screen size.
pub open spec fn frame_screen_rect(frame: FrameInfo) -> Option<Rect> {
    match frame.minimized {
        Some(false) => Some(
            Rect {
                min: match frame.outer_pos {
                    Some(p) => p,
                    None => Pos2 { x: 0, y: 0 },
                },
                max: frame.screen_size_points,
            },
        ),
        _ => None,
    }
}

/// The input record as a taken frame returns it: the accumulated record
/// with the time and screen rectangle filled in.
pub open spec fn taken_input(s: StateView, frame: FrameInfo) -> RawInputView {
    RawInputView {
        time_millis: Some(frame.elapsed_millis),
        screen_rect: frame_screen_rect(frame),
        ..s.input
    }
}

impl State {
    /// Bundles the accumulated input for a new frame, filling in the
    /// time and the screen rectangle, and clears the event queue and the
    /// dropped files; hovering paths and the continuous state persist.
    pub fn take_egui_input(&mut self, frame: &FrameInfo) -> (r: RawInput)
        ensures
            r@ == taken_input(old(self)@, *frame),
            final(self)@ == (StateView {
                input: RawInputView {
                    events: Seq::empty(),
                    dropped_files: Seq::empty(),
                    ..taken_input(old(self)@, *frame)
                },
                ..old(self)@
            }),
    {
        self.egui_input.time_millis = Some(frame.elapsed_millis);
        let not_minimized = match frame.minimized {
            Some(m) => !m,
            None => false,
        };
        self.egui_input.screen_rect = if not_minimized {
            Some(
                Rect {
                    min: match frame.outer_pos {
                        Some(p) => p,
                        None => Pos2 { x: 0, y: 0 },
                    },
                    max: frame.screen_size_points,
                },
            )
        } else {
            None
        };
        let mut events: Vec<Event> = Vec::new();
        core::mem::swap(&mut self.egui_input.events, &mut events);
        let mut dropped_files: Vec<String> = Vec::new();
        core::mem::swap(&mut self.egui_input.dropped_files, &mut dropped_files);
        let hovered_files = self.egui_input.hovered_files.clone();
        proof {
            assert(hovered_files.deep_view() =~= self.egui_input.hovered_files.deep_view());
        }
        let r = RawInput {
            time_millis: self.egui_input.time_millis,
            screen_rect: self.egui_input.screen_rect,
            pixels_per_point_milli: self.egui_input.pixels_per_point_milli,
            max_texture_side: self.egui_input.max_texture_side,
            modifiers: self.egui_input.modifiers,
            events,
            hovered_files,
            dropped_files,
            focused: self.egui_input.focused,
        };
        proof {
            assert(r@ =~= taken_input(old(self)@, *frame));
            assert(self@ =~= (StateView {
                input: RawInputView {
                    events: Seq::empty(),
                    dropped_files: Seq::empty(),
                    ..taken_input(old(self)@, *frame)
                },
                ..old(self)@
            }));
        }
        r
    }
}

/// What the GUI library asks the platform to do after a frame: the
/// cursor shape to show, an address to open in a browser, text to place
/// on the clipboard, and where the text caret is for composition
/// placement.
#[derive(Clone, Debug, PartialEq)]
pub struct PlatformOutput {
    pub cursor_icon: CursorIcon,
    pub open_url: Option<String>,
    pub copied_text: String,
    pub text_cursor_pos: Option<Pos2>,
}

/// One native call the platform side must make on the GUI's behalf.
#[derive(Clone, Debug, PartialEq)]
pub enum PlatformAction {
    SetCursorVisible(bool),
    SetCursorIcon(NativeCursorIcon),
    OpenUrl(String),
    SetClipboardText(String),
    SetImePosition(Pos2),
}

/// The specification value of a [`PlatformAction`].
pub enum PlatformActionView {
    SetCursorVisible(bool),
    SetCursorIcon(NativeCursorIcon),
    OpenUrl(Seq<char>),
    SetClipboardText(Seq<char>),
    SetImePosition(Pos2),
}

impl DeepView for PlatformAction {
    type V = PlatformActionView;

    open spec fn deep_view(&self) -> PlatformActionView {
        match self {
            PlatformAction::SetCursorVisible(v) => PlatformActionView::SetCursorVisible(*v),
            PlatformAction::SetCursorIcon(i) => PlatformActionView::SetCursorIcon(*i),
            PlatformAction::OpenUrl(u) => PlatformActionView::OpenUrl(u@),
            PlatformAction::SetClipboardText(t) => PlatformActionView::SetClipboardText(t@),
            PlatformAction::SetImePosition(p) => PlatformActionView::SetImePosition(*p),
        }
    }
}

/// The native calls that applying a cursor shape requires.  Re-applying
/// the shape already shown requires none, which avoids flicker when the
/// native layer fights over the icon near a frame boundary.  While the
/// pointer is inside the window, a shape with a native counterpart makes
/// the cursor visible and sets it, and the hidden shape makes the cursor
/// invisible.  While the pointer is outside, nothing is called.
pub open spec fn cursor_icon_actions(s: StateView, icon: CursorIcon) -> Seq<PlatformActionView> {
    if s.pointer_pos_in_points is None {
        Seq::empty()
    } else if s.current_cursor_icon == Some(icon) {
        Seq::empty()
    } else {
        match cursor_for_icon(icon) {
            Some(native) => seq![
                PlatformActionView::SetCursorVisible(true),
                PlatformActionView::SetCursorIcon(native),
            ],
            None => seq![PlatformActionView::SetCursorVisible(false)],
        }
    }
}

/// The state after a cursor shape is applied: the shape is remembered
/// while the pointer is inside the window, and forgotten while it is
/// outside so the shape is applied again on re-entry.
pub open spec fn cursor_icon_step(s: StateView, icon: CursorIcon) -> StateView {
    if s.pointer_pos_in_points is None {
        StateView { current_cursor_icon: None, ..s }
    } else if s.current_cursor_icon == Some(icon) {
        s
    } else {
        StateView { current_cursor_icon: Some(icon), ..s }
    }
}

/// The native calls a platform-output record requires, in order: cursor
/// calls, then opening the address, then writing non-empty copied text
/// to the clipboard, then placing the composition window at the caret.
pub open spec fn platform_output_actions(s: StateView, output: PlatformOutput) -> Seq<
    PlatformActionView,
> {
    cursor_icon_actions(s, output.cursor_icon) + (match output.open_url {
        Some(url) => seq![PlatformActionView::OpenUrl(url@)],
        None => Seq::empty(),
    }) + (if output.copied_text@.len() > 0 {
        seq![PlatformActionView::SetClipboardText(output.copied_text@)]
    } else {
        Seq::empty()
    }) + (match output.text_cursor_pos {
        Some(pos) => seq![PlatformActionView::SetImePosition(pos)],
        None => Seq::empty(),
    })
}

impl State {
    /// Applies a cursor shape, returning the native calls to make.
    fn set_cursor_icon(&mut self, cursor_icon: CursorIcon) -> (actions: Vec<PlatformAction>)
        ensures
            final(self)@ == cursor_icon_step(old(self)@, cursor_icon),
            actions.deep_view() == cursor_icon_actions(old(self)@, cursor_icon),
    {
        let is_pointer_in_window = match self.pointer_pos_in_points {
            Some(_) => true,
            None => false,
        };
        if !is_pointer_in_window {
            // Forget the shape while the pointer is away, so it is
            // applied again on re-entry.
            self.current_cursor_icon = None;
            let actions: Vec<PlatformAction> = Vec::new();
            proof {
                assert(self@ =~= cursor_icon_step(old(self)@, cursor_icon));
                assert(actions.deep_view() =~= cursor_icon_actions(old(self)@, cursor_icon));
            }
            return actions;
        }
        let same = match self.current_cursor_icon {
            Some(current) => current == cursor_icon,
            None => false,
        };
        if same {
            let actions: Vec<PlatformAction> = Vec::new();
            proof {
                assert(actions.deep_view() =~= cursor_icon_actions(old(self)@, cursor_icon));
            }
            return actions;
        }
        {
            self.current_cursor_icon = Some(cursor_icon);
            let mut actions: Vec<PlatformAction> = Vec::new();
            match translate_cursor(cursor_icon) {
                Some(native) => {
                    actions.push(PlatformAction::SetCursorVisible(true));
                    actions.push(PlatformAction::SetCursorIcon(native));
                },
                None => {
                    actions.push(PlatformAction::SetCursorVisible(false));
                },
            }
            proof {
                assert(self@ =~= cursor_icon_step(old(self)@, cursor_icon));
                assert(actions.deep_view() =~= cursor_icon_actions(old(self)@, cursor_icon));
            }
            actions
        }
    }

    /// Turns the GUI's platform output into the ordered native calls the
    /// host must make, and adopts the scale the GUI may have changed.
    /// Failures of the calls are the host's to log; none aborts the rest.
    pub fn handle_platform_output(
        &mut self,
        pixels_per_point_milli: u32,
        output: PlatformOutput,
    ) -> (actions: Vec<PlatformAction>)
        ensures
            final(self)@ == (StateView {
                current_pixels_per_point_milli: pixels_per_point_milli,
                ..cursor_icon_step(old(self)@, output.cursor_icon)
            }),
            actions.deep_view() == platform_output_actions(old(self)@, output),
    {
        self.current_pixels_per_point_milli = pixels_per_point_milli;
        let mut actions = self.set_cursor_icon(output.cursor_icon);
        if let Some(url) = output.open_url {
            actions.push(PlatformAction::OpenUrl(url));
        }
        if !output.copied_text.as_str().is_empty() {
            actions.push(PlatformAction::SetClipboardText(output.copied_text));
        }
        if let Some(pos) = output.text_cursor_pos {
            actions.push(PlatformAction::SetImePosition(pos));
        }
        proof {
            assert(self@ =~= (StateView {
                current_pixels_per_point_milli: pixels_per_point_milli,
                ..cursor_icon_step(old(self)@, output.cursor_icon)
            }));
            assert(actions.deep_view() =~= platform_output_actions(old(self)@, output));
        }
        actions
    }
}

} // verus!
