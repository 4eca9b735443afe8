use egui_winit::events::{
    Event, GuiQueries, ImeEvent, MouseWheelUnit, NativeEvent, NativeTouchPhase, Pos2, Rect,
    ScrollDelta, TouchPhase,
};
use egui_winit::keymap::{CursorIcon, Key, KeyCode, Modifiers, MouseButton, NativeCursorIcon,
    PointerButton};
use egui_winit::state::{FrameInfo, PlatformAction, PlatformOutput, State};
use egui_winit::Platform;

fn quiet_gui() -> GuiQueries {
    GuiQueries { wants_pointer_input: false, wants_keyboard_input: false, is_using_pointer: false }
}

fn eager_gui() -> GuiQueries {
    GuiQueries { wants_pointer_input: true, wants_keyboard_input: true, is_using_pointer: true }
}

fn no_output(cursor_icon: CursorIcon) -> PlatformOutput {
    PlatformOutput { cursor_icon, open_url: None, copied_text: String::new(), text_cursor_pos: None }
}

fn hold_ctrl(state: &mut State) {
    state.on_event(
        &quiet_gui(),
        None,
        &NativeEvent::ModifiersChanged { alt: false, ctrl: true, shift: false, logo: false },
    );
}

#[test]
fn scroll_with_zoom_modifier_becomes_zoom() {
    // A scroll of 120 points with the zoom modifier held yields exactly
    // one zoom event with factor exp(120/200), i.e. a logarithm of
    // 600 thousandths, and no scroll event.
    let mut state = State::new(Platform::Other, false);
    hold_ctrl(&mut state);
    state.on_event(
        &quiet_gui(),
        None,
        &NativeEvent::MouseWheel { delta: ScrollDelta::PointDelta(0, 120) },
    );
    let events = &state.egui_input().events;
    let zooms: Vec<&Event> = events
        .iter()
        .filter(|e| matches!(e, Event::Zoom { .. }))
        .collect();
    assert_eq!(zooms.len(), 1);
    assert_eq!(*zooms[0], Event::Zoom { ln_factor_milli: 600 });
    assert!(!events.iter().any(|e| matches!(e, Event::Scroll { .. })));
    // The raw wheel event is still reported.
    assert!(events.iter().any(|e| matches!(
        e,
        Event::MouseWheel { unit: MouseWheelUnit::Point, delta_x: 0, delta_y: 120, .. }
    )));
}

#[test]
fn zoom_takes_precedence_over_shift_scroll() {
    let mut state = State::new(Platform::Other, false);
    state.on_event(
        &quiet_gui(),
        None,
        &NativeEvent::ModifiersChanged { alt: false, ctrl: true, shift: true, logo: false },
    );
    state.on_event(
        &quiet_gui(),
        None,
        &NativeEvent::MouseWheel { delta: ScrollDelta::LineDelta(0, 2) },
    );
    let events = &state.egui_input().events;
    // Two lines are a hundred points, so the logarithm is 500 thousandths.
    assert!(events.iter().any(|e| matches!(e, Event::Zoom { ln_factor_milli: 500 })));
    assert!(!events.iter().any(|e| matches!(e, Event::Scroll { .. })));
}

#[test]
fn shift_redirects_vertical_scroll() {
    let mut state = State::new(Platform::Other, false);
    state.on_event(
        &quiet_gui(),
        None,
        &NativeEvent::ModifiersChanged { alt: false, ctrl: false, shift: true, logo: false },
    );
    state.on_event(
        &quiet_gui(),
        None,
        &NativeEvent::MouseWheel { delta: ScrollDelta::PointDelta(30, 50) },
    );
    let events = &state.egui_input().events;
    assert!(events.iter().any(|e| matches!(e, Event::Scroll { delta_x: 80, delta_y: 0 })));
}

#[test]
fn plain_scroll_in_points_and_lines() {
    let mut state = State::new(Platform::Other, false);
    state.on_event(
        &quiet_gui(),
        None,
        &NativeEvent::MouseWheel { delta: ScrollDelta::LineDelta(1, -2) },
    );
    let events = &state.egui_input().events;
    // A line counts as fifty points.
    assert!(events.iter().any(|e| matches!(e, Event::Scroll { delta_x: 50, delta_y: -100 })));
    assert!(events.iter().any(|e| matches!(
        e,
        Event::MouseWheel { unit: MouseWheelUnit::Line, delta_x: 1, delta_y: -2, .. }
    )));
}

#[test]
fn bell_character_is_dropped() {
    let mut state = State::new(Platform::Other, false);
    let response = state.on_event(&eager_gui(), None, &NativeEvent::ReceivedCharacter('\u{7}'));
    assert!(!state.egui_input().events.iter().any(|e| matches!(e, Event::Text(_))));
    assert!(!response.consumed);
    assert!(response.repaint);
}

#[test]
fn printable_character_becomes_text() {
    let mut state = State::new(Platform::Other, false);
    let response = state.on_event(&eager_gui(), None, &NativeEvent::ReceivedCharacter('a'));
    assert_eq!(state.egui_input().events, vec![Event::Text("a".to_string())]);
    assert!(response.consumed);
}

#[test]
fn mac_command_character_is_dropped() {
    let mut state = State::new(Platform::MacOs, false);
    state.on_event(
        &quiet_gui(),
        None,
        &NativeEvent::ModifiersChanged { alt: false, ctrl: false, shift: false, logo: true },
    );
    let response = state.on_event(&eager_gui(), None, &NativeEvent::ReceivedCharacter('c'));
    assert!(!state.egui_input().events.iter().any(|e| matches!(e, Event::Text(_))));
    assert!(!response.consumed);
}

#[test]
fn touch_surrogate_is_exclusive() {
    let mut state = State::new(Platform::Other, false);
    let touch = |id: u64, phase: NativeTouchPhase, x: i32| NativeEvent::Touch {
        device_id: 1,
        id,
        phase,
        pos: Pos2 { x, y: 10 },
        force_milli: None,
    };
    // The first start claims the surrogate and emulates the pointer.
    state.on_event(&quiet_gui(), None, &touch(5, NativeTouchPhase::Started, 1));
    let after_first = state.egui_input().events.len();
    assert!(state.egui_input().events.iter().any(|e| matches!(
        e,
        Event::PointerButton { button: PointerButton::Primary, pressed: true, .. }
    )));
    // Another touch only reports its raw event: no pointer emulation.
    state.on_event(&quiet_gui(), None, &touch(9, NativeTouchPhase::Started, 2));
    let events = &state.egui_input().events;
    assert_eq!(events.len(), after_first + 1);
    assert!(matches!(events[after_first], Event::Touch { id: 9, phase: TouchPhase::Start, .. }));
    // The surrogate's end releases the emulated pointer completely.
    state.on_event(&quiet_gui(), None, &touch(5, NativeTouchPhase::Ended, 1));
    let events = &state.egui_input().events;
    assert!(events.iter().any(|e| matches!(
        e,
        Event::PointerButton { button: PointerButton::Primary, pressed: false, .. }
    )));
    assert!(matches!(events[events.len() - 1], Event::PointerGone));
    let after_release = events.len();
    // A new touch can claim the surrogate now.
    state.on_event(&quiet_gui(), None, &touch(9, NativeTouchPhase::Started, 3));
    assert!(state.egui_input().events.iter().skip(after_release).any(|e| matches!(
        e,
        Event::PointerButton { pressed: true, .. }
    )));
}

#[test]
fn ime_session_is_bracketed() {
    let mut state = State::new(Platform::Other, false);
    let gui = eager_gui();
    state.on_event(&gui, None, &NativeEvent::Ime(ImeEvent::Enabled));
    state.on_event(&gui, None, &NativeEvent::Ime(ImeEvent::Preedit("n".to_string())));
    state.on_event(&gui, None, &NativeEvent::Ime(ImeEvent::Preedit("ni".to_string())));
    state.on_event(&gui, None, &NativeEvent::Ime(ImeEvent::Commit("ni".to_string())));
    let events = &state.egui_input().events;
    assert_eq!(
        *events,
        vec![
            Event::CompositionStart,
            Event::CompositionUpdate("n".to_string()),
            Event::CompositionUpdate("ni".to_string()),
            Event::CompositionEnd("ni".to_string()),
        ]
    );
    // A second session opens a fresh bracket.
    state.on_event(&gui, None, &NativeEvent::Ime(ImeEvent::Preedit("x".to_string())));
    let events = &state.egui_input().events;
    assert!(matches!(events[4], Event::CompositionStart));
}

#[test]
fn paste_normalizes_line_endings() {
    let mut state = State::new(Platform::Other, false);
    hold_ctrl(&mut state);
    state.on_event(
        &eager_gui(),
        Some("a\r\nb".to_string()),
        &NativeEvent::KeyboardInput { pressed: true, keycode: Some(KeyCode::V) },
    );
    let events = &state.egui_input().events;
    assert!(events.contains(&Event::Paste("a\nb".to_string())));
    assert!(events.iter().any(|e| matches!(e, Event::Key { key: Key::V, pressed: true, .. })));
}

#[test]
fn paste_of_empty_clipboard_is_skipped() {
    let mut state = State::new(Platform::Other, false);
    hold_ctrl(&mut state);
    state.on_event(
        &eager_gui(),
        Some(String::new()),
        &NativeEvent::KeyboardInput { pressed: true, keycode: Some(KeyCode::V) },
    );
    assert!(!state.egui_input().events.iter().any(|e| matches!(e, Event::Paste(_))));
}

#[test]
fn cut_and_copy_shortcuts() {
    let mut state = State::new(Platform::Other, false);
    hold_ctrl(&mut state);
    state.on_event(
        &eager_gui(),
        None,
        &NativeEvent::KeyboardInput { pressed: true, keycode: Some(KeyCode::X) },
    );
    state.on_event(
        &eager_gui(),
        None,
        &NativeEvent::KeyboardInput { pressed: true, keycode: Some(KeyCode::C) },
    );
    let events = &state.egui_input().events;
    assert!(events.contains(&Event::Cut));
    assert!(events.contains(&Event::CopyText));
    // A release emits no shortcut, only the key event.
    let before = events.len();
    state.on_event(
        &eager_gui(),
        None,
        &NativeEvent::KeyboardInput { pressed: false, keycode: Some(KeyCode::X) },
    );
    let events = &state.egui_input().events;
    assert_eq!(events.len(), before + 1);
    assert!(matches!(events[before], Event::Key { key: Key::X, pressed: false, .. }));
}

#[test]
fn unmapped_key_emits_nothing() {
    let mut state = State::new(Platform::Other, false);
    state.on_event(
        &quiet_gui(),
        None,
        &NativeEvent::KeyboardInput { pressed: true, keycode: Some(KeyCode::LAlt) },
    );
    assert!(state.egui_input().events.is_empty());
}

#[test]
fn tab_is_always_consumed() {
    let mut state = State::new(Platform::Other, false);
    let response = state.on_event(
        &quiet_gui(),
        None,
        &NativeEvent::KeyboardInput { pressed: true, keycode: Some(KeyCode::Tab) },
    );
    assert!(response.consumed);
}

#[test]
fn focus_change_clears_modifiers() {
    let mut state = State::new(Platform::Other, false);
    hold_ctrl(&mut state);
    assert!(state.egui_input().modifiers.ctrl);
    let response = state.on_event(&quiet_gui(), None, &NativeEvent::Focused(true));
    assert_eq!(state.egui_input().modifiers, Modifiers::none());
    assert!(state.egui_input().focused);
    assert!(state.egui_input().events.contains(&Event::WindowFocused(true)));
    assert!(!response.consumed);
}

#[test]
fn modifier_normalization_per_platform() {
    let mut mac = State::new(Platform::MacOs, false);
    mac.on_event(
        &quiet_gui(),
        None,
        &NativeEvent::ModifiersChanged { alt: false, ctrl: false, shift: false, logo: true },
    );
    assert!(mac.egui_input().modifiers.command);
    assert!(mac.egui_input().modifiers.mac_cmd);
    assert!(!mac.egui_input().modifiers.ctrl);

    let mut other = State::new(Platform::Other, false);
    other.on_event(
        &quiet_gui(),
        None,
        &NativeEvent::ModifiersChanged { alt: false, ctrl: false, shift: false, logo: true },
    );
    assert!(!other.egui_input().modifiers.command);
    assert!(!other.egui_input().modifiers.mac_cmd);
    hold_ctrl(&mut other);
    assert!(other.egui_input().modifiers.command);
}

#[test]
fn cursor_left_makes_pointer_gone() {
    let mut state = State::new(Platform::Other, false);
    state.on_event(&quiet_gui(), None, &NativeEvent::CursorMoved { pos: Pos2 { x: 3, y: 4 } });
    assert!(state.egui_input().events.contains(&Event::PointerMoved(Pos2 { x: 3, y: 4 })));
    state.on_event(&quiet_gui(), None, &NativeEvent::CursorLeft);
    let events = &state.egui_input().events;
    assert!(matches!(events[events.len() - 1], Event::PointerGone));
}

#[test]
fn close_request_is_consumed() {
    let mut state = State::new(Platform::Other, false);
    let response = state.on_event(&quiet_gui(), None, &NativeEvent::CloseRequested);
    assert!(response.consumed);
    assert!(state.egui_input().events.contains(&Event::CloseRequested));
}

#[test]
fn magnify_gesture_becomes_zoom() {
    let mut state = State::new(Platform::MacOs, false);
    let response = state.on_event(
        &eager_gui(),
        None,
        &NativeEvent::TouchpadMagnify { ln_factor_milli: 250 },
    );
    assert_eq!(state.egui_input().events, vec![Event::Zoom { ln_factor_milli: 250 }]);
    assert!(response.consumed);
}

#[test]
fn ignored_events_do_not_repaint() {
    let mut state = State::new(Platform::Other, false);
    let response = state.on_event(&quiet_gui(), None, &NativeEvent::AxisMotion);
    assert!(!response.repaint);
    assert!(!response.consumed);
    let response = state.on_event(&quiet_gui(), None, &NativeEvent::Resized);
    assert!(response.repaint);
}

#[test]
fn scale_factor_is_tracked() {
    let mut state = State::new(Platform::Other, false);
    assert_eq!(state.pixels_per_point(), 1000);
    state.on_event(
        &quiet_gui(),
        None,
        &NativeEvent::ScaleFactorChanged { pixels_per_point_milli: 2000 },
    );
    assert_eq!(state.pixels_per_point(), 2000);
    assert_eq!(state.egui_input().pixels_per_point_milli, Some(2000));
}

#[test]
fn taking_a_frame_clears_the_queue() {
    let mut state = State::new(Platform::Other, false);
    state.set_max_texture_side(4096);
    state.on_event(&quiet_gui(), None, &NativeEvent::CursorMoved { pos: Pos2 { x: 1, y: 2 } });
    state.on_event(&quiet_gui(), None, &NativeEvent::DroppedFile("a.txt".to_string()));
    let frame = FrameInfo {
        elapsed_millis: 16,
        outer_pos: Some(Pos2 { x: 10, y: 20 }),
        screen_size_points: Pos2 { x: 800, y: 600 },
        minimized: Some(false),
    };
    let taken = state.take_egui_input(&frame);
    assert_eq!(taken.time_millis, Some(16));
    assert_eq!(
        taken.screen_rect,
        Some(Rect { min: Pos2 { x: 10, y: 20 }, max: Pos2 { x: 800, y: 600 } })
    );
    assert_eq!(taken.max_texture_side, Some(4096));
    assert_eq!(taken.events.len(), 1);
    assert_eq!(taken.dropped_files, vec!["a.txt".to_string()]);
    // The queue and the dropped files are cleared; the rest persists.
    assert!(state.egui_input().events.is_empty());
    assert!(state.egui_input().dropped_files.is_empty());
    assert_eq!(state.egui_input().max_texture_side, Some(4096));
}

#[test]
fn minimized_window_has_no_screen_rect() {
    let mut state = State::new(Platform::Other, false);
    let minimized = FrameInfo {
        elapsed_millis: 1,
        outer_pos: None,
        screen_size_points: Pos2 { x: 0, y: 0 },
        minimized: Some(true),
    };
    assert_eq!(state.take_egui_input(&minimized).screen_rect, None);
    // An unknown minimized state counts as minimized.
    let unknown = FrameInfo { minimized: None, ..minimized };
    assert_eq!(state.take_egui_input(&unknown).screen_rect, None);
}

#[test]
fn hovered_files_follow_the_drag() {
    let mut state = State::new(Platform::Other, false);
    state.on_event(&quiet_gui(), None, &NativeEvent::HoveredFile("x".to_string()));
    state.on_event(&quiet_gui(), None, &NativeEvent::HoveredFile("y".to_string()));
    assert_eq!(state.egui_input().hovered_files, vec!["x".to_string(), "y".to_string()]);
    state.on_event(&quiet_gui(), None, &NativeEvent::HoveredFileCancelled);
    assert!(state.egui_input().hovered_files.is_empty());
    state.on_event(&quiet_gui(), None, &NativeEvent::HoveredFile("z".to_string()));
    state.on_event(&quiet_gui(), None, &NativeEvent::DroppedFile("z".to_string()));
    assert!(state.egui_input().hovered_files.is_empty());
    assert_eq!(state.egui_input().dropped_files, vec!["z".to_string()]);
}

#[test]
fn touch_simulation_duplicates_mouse_input() {
    let mut state = State::new(Platform::Other, true);
    state.on_event(&quiet_gui(), None, &NativeEvent::CursorMoved { pos: Pos2 { x: 5, y: 5 } });
    // With no button held, a simulated-touch move emits nothing.
    assert!(state.egui_input().events.is_empty());
    state.on_event(
        &quiet_gui(),
        None,
        &NativeEvent::MouseInput { pressed: true, button: MouseButton::Left },
    );
    let events = &state.egui_input().events;
    assert!(events.iter().any(|e| matches!(e, Event::PointerButton { pressed: true, .. })));
    assert!(events.iter().any(|e| matches!(
        e,
        Event::Touch { device_id: 0, id: 0, phase: TouchPhase::Start, .. }
    )));
    state.on_event(&quiet_gui(), None, &NativeEvent::CursorMoved { pos: Pos2 { x: 6, y: 5 } });
    assert!(state.egui_input().events.iter().any(|e| matches!(
        e,
        Event::Touch { phase: TouchPhase::Move, .. }
    )));
    state.on_event(
        &quiet_gui(),
        None,
        &NativeEvent::MouseInput { pressed: false, button: MouseButton::Left },
    );
    let events = &state.egui_input().events;
    assert!(events.iter().any(|e| matches!(e, Event::PointerGone)));
    assert!(events.iter().any(|e| matches!(e, Event::Touch { phase: TouchPhase::End, .. })));
}

#[test]
fn mouse_button_outside_window_is_ignored() {
    let mut state = State::new(Platform::Other, false);
    state.on_event(
        &quiet_gui(),
        None,
        &NativeEvent::MouseInput { pressed: true, button: MouseButton::Left },
    );
    assert!(state.egui_input().events.is_empty());
}

#[test]
fn cursor_icon_application_is_idempotent() {
    let mut state = State::new(Platform::Other, false);
    state.on_event(&quiet_gui(), None, &NativeEvent::CursorMoved { pos: Pos2 { x: 1, y: 1 } });
    let actions = state.handle_platform_output(1000, no_output(CursorIcon::Text));
    assert_eq!(
        actions,
        vec![
            PlatformAction::SetCursorVisible(true),
            PlatformAction::SetCursorIcon(NativeCursorIcon::Text),
        ]
    );
    // Applying the same icon again is a no-op: no native call at all.
    let actions = state.handle_platform_output(1000, no_output(CursorIcon::Text));
    assert!(actions.is_empty());
}

#[test]
fn hidden_cursor_hides_instead_of_setting() {
    let mut state = State::new(Platform::Other, false);
    state.on_event(&quiet_gui(), None, &NativeEvent::CursorMoved { pos: Pos2 { x: 1, y: 1 } });
    let actions = state.handle_platform_output(1000, no_output(CursorIcon::NoneIcon));
    assert_eq!(actions, vec![PlatformAction::SetCursorVisible(false)]);
}

#[test]
fn cursor_icon_reapplied_after_reentry() {
    let mut state = State::new(Platform::Other, false);
    state.on_event(&quiet_gui(), None, &NativeEvent::CursorMoved { pos: Pos2 { x: 1, y: 1 } });
    assert_eq!(state.handle_platform_output(1000, no_output(CursorIcon::Grab)).len(), 2);
    assert!(state.handle_platform_output(1000, no_output(CursorIcon::Grab)).is_empty());
    // While the pointer is outside, nothing is applied and the shape is
    // forgotten.
    state.on_event(&quiet_gui(), None, &NativeEvent::CursorLeft);
    assert!(state.handle_platform_output(1000, no_output(CursorIcon::Grab)).is_empty());
    // On re-entry the shape is applied again.
    state.on_event(&quiet_gui(), None, &NativeEvent::CursorMoved { pos: Pos2 { x: 2, y: 2 } });
    assert_eq!(state.handle_platform_output(1000, no_output(CursorIcon::Grab)).len(), 2);
}

#[test]
fn platform_output_actions_in_order() {
    let mut state = State::new(Platform::Other, false);
    state.on_event(&quiet_gui(), None, &NativeEvent::CursorMoved { pos: Pos2 { x: 1, y: 1 } });
    let output = PlatformOutput {
        cursor_icon: CursorIcon::DefaultIcon,
        open_url: Some("https://example.invalid".to_string()),
        copied_text: "copied".to_string(),
        text_cursor_pos: Some(Pos2 { x: 7, y: 8 }),
    };
    let actions = state.handle_platform_output(1500, output);
    assert_eq!(
        actions,
        vec![
            PlatformAction::SetCursorVisible(true),
            PlatformAction::SetCursorIcon(NativeCursorIcon::DefaultIcon),
            PlatformAction::OpenUrl("https://example.invalid".to_string()),
            PlatformAction::SetClipboardText("copied".to_string()),
            PlatformAction::SetImePosition(Pos2 { x: 7, y: 8 }),
        ]
    );
    // The GUI may have rescaled the interface.
    assert_eq!(state.pixels_per_point(), 1500);
}

#[test]
fn empty_copied_text_writes_nothing() {
    let mut state = State::new(Platform::Other, false);
    let actions = state.handle_platform_output(1000, no_output(CursorIcon::DefaultIcon));
    assert!(!actions.iter().any(|a| matches!(a, PlatformAction::SetClipboardText(_))));
}

#[test]
fn consumed_follows_gui_appetite() {
    let mut state = State::new(Platform::Other, false);
    state.on_event(&quiet_gui(), None, &NativeEvent::CursorMoved { pos: Pos2 { x: 0, y: 0 } });
    // Pointer events are consumed only while the GUI wants pointer input.
    let wheel = NativeEvent::MouseWheel { delta: ScrollDelta::LineDelta(0, 1) };
    assert!(!state.on_event(&quiet_gui(), None, &wheel).consumed);
    assert!(state.on_event(&eager_gui(), None, &wheel).consumed);
    let click = NativeEvent::MouseInput { pressed: true, button: MouseButton::Left };
    assert!(!state.on_event(&quiet_gui(), None, &click).consumed);
    assert!(state.on_event(&eager_gui(), None, &click).consumed);
    // Moves are consumed only during a pointer interaction.
    let moved = NativeEvent::CursorMoved { pos: Pos2 { x: 1, y: 0 } };
    assert!(!state.on_event(&quiet_gui(), None, &moved).consumed);
    assert!(state.on_event(&eager_gui(), None, &moved).consumed);
    // Composition events follow the keyboard appetite.
    let ime = NativeEvent::Ime(ImeEvent::Preedit("a".to_string()));
    assert!(state.on_event(&eager_gui(), None, &ime).consumed);
}
