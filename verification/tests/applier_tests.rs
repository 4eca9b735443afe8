use egui_winit::applier::{
    CursorGrabMode, ImePurpose, ResizeDirection, Theme, UserAttentionType, WindowCall,
    WindowLevel,
};
use egui_winit::process_viewport_commands;
use egui_winit::viewport::{ViewportCommand, ViewportId};

#[test]
fn unfocused_drag_is_silently_dropped() {
    // A drag from a viewport that does not hold focus makes no native
    // call at all.
    let calls = process_viewport_commands(
        vec![ViewportCommand::Drag],
        ViewportId(1),
        Some(ViewportId(2)),
    );
    assert!(calls.is_empty());
    let calls = process_viewport_commands(vec![ViewportCommand::Drag], ViewportId(1), None);
    assert!(calls.is_empty());
}

#[test]
fn focused_drag_is_honored() {
    let calls = process_viewport_commands(
        vec![ViewportCommand::Drag],
        ViewportId(1),
        Some(ViewportId(1)),
    );
    assert_eq!(calls, vec![WindowCall::DragWindow]);
}

#[test]
fn degenerate_inner_size_is_clamped() {
    let calls = process_viewport_commands(
        vec![ViewportCommand::InnerSize(0, 0)],
        ViewportId(1),
        None,
    );
    assert_eq!(calls, vec![WindowCall::SetInnerSize(1, 1)]);
}

#[test]
fn resize_directions_are_resolved() {
    let direction = |t, b, r, l| {
        let calls = process_viewport_commands(
            vec![ViewportCommand::Resize(t, b, r, l)],
            ViewportId(1),
            None,
        );
        match &calls[..] {
            [WindowCall::DragResizeWindow(d)] => *d,
            other => panic!("unexpected calls: {other:?}"),
        }
    };
    assert_eq!(direction(true, false, false, false), ResizeDirection::North);
    assert_eq!(direction(false, true, false, false), ResizeDirection::South);
    assert_eq!(direction(false, false, false, true), ResizeDirection::West);
    assert_eq!(direction(true, false, true, false), ResizeDirection::NorthEast);
    assert_eq!(direction(false, true, true, false), ResizeDirection::SouthEast);
    assert_eq!(direction(true, false, false, true), ResizeDirection::NorthWest);
    assert_eq!(direction(false, true, false, true), ResizeDirection::SouthWest);
    // Anything else falls back to east.
    assert_eq!(direction(false, false, true, false), ResizeDirection::East);
    assert_eq!(direction(true, true, true, true), ResizeDirection::East);
}

#[test]
fn numeric_codes_are_resolved() {
    let calls = process_viewport_commands(
        vec![
            ViewportCommand::WindowLevel(1),
            ViewportCommand::WindowLevel(2),
            ViewportCommand::WindowLevel(0),
            ViewportCommand::ImePurpose(1),
            ViewportCommand::ImePurpose(2),
            ViewportCommand::ImePurpose(9),
            ViewportCommand::CursorGrab(1),
            ViewportCommand::CursorGrab(2),
            ViewportCommand::CursorGrab(0),
            ViewportCommand::SetTheme(Some(1)),
            ViewportCommand::SetTheme(Some(0)),
            ViewportCommand::SetTheme(None),
            ViewportCommand::RequestUserAttention(Some(1)),
            ViewportCommand::RequestUserAttention(Some(2)),
            ViewportCommand::RequestUserAttention(None),
        ],
        ViewportId(1),
        None,
    );
    assert_eq!(
        calls,
        vec![
            WindowCall::SetWindowLevel(WindowLevel::AlwaysOnBottom),
            WindowCall::SetWindowLevel(WindowLevel::AlwaysOnTop),
            WindowCall::SetWindowLevel(WindowLevel::Normal),
            WindowCall::SetImePurpose(ImePurpose::Password),
            WindowCall::SetImePurpose(ImePurpose::Terminal),
            WindowCall::SetImePurpose(ImePurpose::Normal),
            WindowCall::SetCursorGrab(CursorGrabMode::Confined),
            WindowCall::SetCursorGrab(CursorGrabMode::Locked),
            WindowCall::SetCursorGrab(CursorGrabMode::NoGrab),
            WindowCall::SetTheme(Some(Theme::Dark)),
            WindowCall::SetTheme(Some(Theme::Light)),
            WindowCall::SetTheme(None),
            WindowCall::RequestUserAttention(Some(UserAttentionType::Critical)),
            WindowCall::RequestUserAttention(Some(UserAttentionType::Informational)),
            WindowCall::RequestUserAttention(None),
        ]
    );
}

#[test]
fn batch_order_is_preserved() {
    let calls = process_viewport_commands(
        vec![
            ViewportCommand::Title("t".to_string()),
            ViewportCommand::Drag,
            ViewportCommand::Visible(true),
            ViewportCommand::EnableButtons { close: true, minimized: false, maximize: true },
            ViewportCommand::Fullscreen(false),
        ],
        ViewportId(3),
        Some(ViewportId(3)),
    );
    assert_eq!(
        calls,
        vec![
            WindowCall::SetTitle("t".to_string()),
            WindowCall::DragWindow,
            WindowCall::SetVisible(true),
            WindowCall::SetEnabledButtons { close: true, minimize: false, maximize: true },
            WindowCall::SetFullscreen(false),
        ]
    );
}
