//! Turning viewport commands into the native window calls they stand
//! for.  The mapping is pure: it resolves numeric codes to native
//! identifiers, clamps degenerate sizes, and drops a drag request from
//! an unfocused viewport; a host performs the resulting calls on the
//! native window, logging failures without aborting the rest.

use vstd::prelude::*;
use crate::viewport::{IconData, IconDataView, ViewportCommand, ViewportCommandView, ViewportId};

verus! {

/// The side a drag resize starts from.
#[derive(Clone, Copy, Debug, PartialEq, Eq, Structural)]
pub enum ResizeDirection {
    North,
    South,
    East,
    West,
    NorthEast,
    NorthWest,
    SouthEast,
    SouthWest,
}

/// The stacking level of a window.
#[derive(Clone, Copy, Debug, PartialEq, Eq, Structural)]
pub enum WindowLevel {
    AlwaysOnBottom,
    AlwaysOnTop,
    Normal,
}

/// What kind of text a composition serves.
#[derive(Clone, Copy, Debug, PartialEq, Eq, Structural)]
pub enum ImePurpose {
    Password,
    Terminal,
    Normal,
}

/// How urgently the window asks for the user's attention.
#[derive(Clone, Copy, Debug, PartialEq, Eq, Structural)]
pub enum UserAttentionType {
    Critical,
    Informational,
}

/// The forced theme of a window.
#[derive(Clone, Copy, Debug, PartialEq, Eq, Structural)]
pub enum Theme {
    Dark,
    Light,
}

/// How the cursor is confined to the window.
#[derive(Clone, Copy, Debug, PartialEq, Eq, Structural)]
pub enum CursorGrabMode {
    NoGrab,
    Confined,
    Locked,
}

/// One native window call.
#[derive(Clone, Debug, PartialEq)]
pub enum WindowCall {
    DragWindow,
    SetInnerSize(u32, u32),
    DragResizeWindow(ResizeDirection),
    SetTitle(String),
    SetTransparent(bool),
    SetVisible(bool),
    SetOuterPosition(i32, i32),
    SetMinInnerSize(Option<(u32, u32)>),
    SetMaxInnerSize(Option<(u32, u32)>),
    SetResizeIncrements(Option<(u32, u32)>),
    SetResizable(bool),
    SetEnabledButtons { close: bool, minimize: bool, maximize: bool },
    SetMinimized(bool),
    SetMaximized(bool),
    SetFullscreen(bool),
    SetDecorations(bool),
    SetWindowLevel(WindowLevel),
    SetWindowIcon(Option<IconData>),
    SetImePosition(i32, i32),
    SetImeAllowed(bool),
    SetImePurpose(ImePurpose),
    RequestUserAttention(Option<UserAttentionType>),
    SetTheme(Option<Theme>),
    SetContentProtected(bool),
    SetCursorPosition(i32, i32),
    SetCursorGrab(CursorGrabMode),
    SetCursorVisible(bool),
    SetCursorHitTest(bool),
}

/// The specification value of a [`WindowCall`].
pub enum WindowCallView {
    DragWindow,
    SetInnerSize(u32, u32),
    DragResizeWindow(ResizeDirection),
    SetTitle(Seq<char>),
    SetTransparent(bool),
    SetVisible(bool),
    SetOuterPosition(i32, i32),
    SetMinInnerSize(Option<(u32, u32)>),
    SetMaxInnerSize(Option<(u32, u32)>),
    SetResizeIncrements(Option<(u32, u32)>),
    SetResizable(bool),
    SetEnabledButtons { close: bool, minimize: bool, maximize: bool },
    SetMinimized(bool),
    SetMaximized(bool),
    SetFullscreen(bool),
    SetDecorations(bool),
    SetWindowLevel(WindowLevel),
    SetWindowIcon(Option<IconDataView>),
    SetImePosition(i32, i32),
    SetImeAllowed(bool),
    SetImePurpose(ImePurpose),
    RequestUserAttention(Option<UserAttentionType>),
    SetTheme(Option<Theme>),
    SetContentProtected(bool),
    SetCursorPosition(i32, i32),
    SetCursorGrab(CursorGrabMode),
    SetCursorVisible(bool),
    SetCursorHitTest(bool),
}

impl DeepView for WindowCall {
    type V = WindowCallView;

    open spec fn deep_view(&self) -> WindowCallView {
        match self {
            WindowCall::DragWindow => WindowCallView::DragWindow,
            WindowCall::SetInnerSize(w, h) => WindowCallView::SetInnerSize(*w, *h),
            WindowCall::DragResizeWindow(d) => WindowCallView::DragResizeWindow(*d),
            WindowCall::SetTitle(t) => WindowCallView::SetTitle(t@),
            WindowCall::SetTransparent(v) => WindowCallView::SetTransparent(*v),
            WindowCall::SetVisible(v) => WindowCallView::SetVisible(*v),
            WindowCall::SetOuterPosition(x, y) => WindowCallView::SetOuterPosition(*x, *y),
            WindowCall::SetMinInnerSize(s) => WindowCallView::SetMinInnerSize(*s),
            WindowCall::SetMaxInnerSize(s) => WindowCallView::SetMaxInnerSize(*s),
            WindowCall::SetResizeIncrements(s) => WindowCallView::SetResizeIncrements(*s),
            WindowCall::SetResizable(v) => WindowCallView::SetResizable(*v),
            WindowCall::SetEnabledButtons { close, minimize, maximize } => (
            WindowCallView::SetEnabledButtons {
                close: *close,
                minimize: *minimize,
                maximize: *maximize,
            }),
            WindowCall::SetMinimized(v) => WindowCallView::SetMinimized(*v),
            WindowCall::SetMaximized(v) => WindowCallView::SetMaximized(*v),
            WindowCall::SetFullscreen(v) => WindowCallView::SetFullscreen(*v),
            WindowCall::SetDecorations(v) => WindowCallView::SetDecorations(*v),
            WindowCall::SetWindowLevel(v) => WindowCallView::SetWindowLevel(*v),
            WindowCall::SetWindowIcon(icon) => WindowCallView::SetWindowIcon(
                match icon {
                    Some(i) => Some(i.deep_view()),
                    None => None,
                },
            ),
            WindowCall::SetImePosition(x, y) => WindowCallView::SetImePosition(*x, *y),
            WindowCall::SetImeAllowed(v) => WindowCallView::SetImeAllowed(*v),
            WindowCall::SetImePurpose(v) => WindowCallView::SetImePurpose(*v),
            WindowCall::RequestUserAttention(v) => WindowCallView::RequestUserAttention(*v),
            WindowCall::SetTheme(v) => WindowCallView::SetTheme(*v),
            WindowCall::SetContentProtected(v) => WindowCallView::SetContentProtected(*v),
            WindowCall::SetCursorPosition(x, y) => WindowCallView::SetCursorPosition(*x, *y),
            WindowCall::SetCursorGrab(v) => WindowCallView::SetCursorGrab(*v),
            WindowCall::SetCursorVisible(v) => WindowCallView::SetCursorVisible(*v),
            WindowCall::SetCursorHitTest(v) => WindowCallView::SetCursorHitTest(*v),
        }
    }
}

/// The side a drag resize starts from, given which sides are marked, in
/// the order top, bottom, right, left; unmarked combinations fall back
/// to east, as the windowing layer does.
pub open spec fn resize_direction(top: bool, bottom: bool, right: bool, left: bool) -> ResizeDirection {
    match (top, bottom, right, left) {
        (true, false, false, false) => ResizeDirection::North,
        (false, true, false, false) => ResizeDirection::South,
        (false, false, false, true) => ResizeDirection::West,
        (true, false, true, false) => ResizeDirection::NorthEast,
        (false, true, true, false) => ResizeDirection::SouthEast,
        (true, false, false, true) => ResizeDirection::NorthWest,
        (false, true, false, true) => ResizeDirection::SouthWest,
        _ => ResizeDirection::East,
    }
}

/// The stacking level a numeric code stands for.
pub open spec fn window_level_of(code: u8) -> WindowLevel {
    if code == 1 {
        WindowLevel::AlwaysOnBottom
    } else if code == 2 {
        WindowLevel::AlwaysOnTop
    } else {
        WindowLevel::Normal
    }
}

/// The composition purpose a numeric code stands for.
pub open spec fn ime_purpose_of(code: u8) -> ImePurpose {
    if code == 1 {
        ImePurpose::Password
    } else if code == 2 {
        ImePurpose::Terminal
    } else {
        ImePurpose::Normal
    }
}

/// The grab mode a numeric code stands for.
pub open spec fn cursor_grab_of(code: u8) -> CursorGrabMode {
    if code == 1 {
        CursorGrabMode::Confined
    } else if code == 2 {
        CursorGrabMode::Locked
    } else {
        CursorGrabMode::NoGrab
    }
}

/// The native calls one viewport command stands for.  Every command maps
/// to exactly one call, except a drag request, which is honored only
/// while the issuing viewport holds focus: on some platforms a drag from
/// an unfocused window would capture the pointer until the process dies,
/// so it is silently dropped.  A requested inner size is clamped to at
/// least one pixel on each side.
pub open spec fn calls_for_command(
    command: ViewportCommandView,
    viewport_id: ViewportId,
    focused: Option<ViewportId>,
) -> Seq<WindowCallView> {
    match command {
        ViewportCommandView::Drag => if focused == Some(viewport_id) {
            seq![WindowCallView::DragWindow]
        } else {
            Seq::empty()
        },
        ViewportCommandView::InnerSize(width, height) => seq![
            WindowCallView::SetInnerSize(
                if width >= 1 {
                    width
                } else {
                    1
                },
                if height >= 1 {
                    height
                } else {
                    1
                },
            ),
        ],
        ViewportCommandView::Resize(top, bottom, right, left) => seq![
            WindowCallView::DragResizeWindow(resize_direction(top, bottom, right, left)),
        ],
        ViewportCommandView::Title(title) => seq![WindowCallView::SetTitle(title)],
        ViewportCommandView::Transparent(v) => seq![WindowCallView::SetTransparent(v)],
        ViewportCommandView::Visible(v) => seq![WindowCallView::SetVisible(v)],
        ViewportCommandView::OuterPosition(x, y) => seq![WindowCallView::SetOuterPosition(x, y)],
        ViewportCommandView::MinInnerSize(s) => seq![WindowCallView::SetMinInnerSize(s)],
        ViewportCommandView::MaxInnerSize(s) => seq![WindowCallView::SetMaxInnerSize(s)],
        ViewportCommandView::ResizeIncrements(s) => seq![WindowCallView::SetResizeIncrements(s)],
        ViewportCommandView::Resizable(v) => seq![WindowCallView::SetResizable(v)],
        ViewportCommandView::EnableButtons { close, minimized, maximize } => seq![
            WindowCallView::SetEnabledButtons { close, minimize: minimized, maximize },
        ],
        ViewportCommandView::Minimized(v) => seq![WindowCallView::SetMinimized(v)],
        ViewportCommandView::Maximized(v) => seq![WindowCallView::SetMaximized(v)],
        ViewportCommandView::Fullscreen(v) => seq![WindowCallView::SetFullscreen(v)],
        ViewportCommandView::Decorations(v) => seq![WindowCallView::SetDecorations(v)],
        ViewportCommandView::WindowLevel(code) => seq![
            WindowCallView::SetWindowLevel(window_level_of(code)),
        ],
        ViewportCommandView::WindowIcon(icon) => seq![WindowCallView::SetWindowIcon(icon)],
        ViewportCommandView::ImePosition(x, y) => seq![WindowCallView::SetImePosition(x, y)],
        ViewportCommandView::ImeAllowed(v) => seq![WindowCallView::SetImeAllowed(v)],
        ViewportCommandView::ImePurpose(code) => seq![
            WindowCallView::SetImePurpose(ime_purpose_of(code)),
        ],
        ViewportCommandView::RequestUserAttention(code) => seq![
            WindowCallView::RequestUserAttention(
                match code {
                    Some(c) => Some(
                        if c == 1 {
                            UserAttentionType::Critical
                        } else {
                            UserAttentionType::Informational
                        },
                    ),
                    None => None,
                },
            ),
        ],
        ViewportCommandView::SetTheme(code) => seq![
            WindowCallView::SetTheme(
                match code {
                    Some(c) => Some(
                        if c == 1 {
                            Theme::Dark
                        } else {
                            Theme::Light
                        },
                    ),
                    None => None,
                },
            ),
        ],
        ViewportCommandView::ContentProtected(v) => seq![WindowCallView::SetContentProtected(v)],
        ViewportCommandView::CursorPosition(x, y) => seq![WindowCallView::SetCursorPosition(x, y)],
        ViewportCommandView::CursorGrab(code) => seq![
            WindowCallView::SetCursorGrab(cursor_grab_of(code)),
        ],
        ViewportCommandView::CursorVisible(v) => seq![WindowCallView::SetCursorVisible(v)],
        ViewportCommandView::CursorHitTest(v) => seq![WindowCallView::SetCursorHitTest(v)],
    }
}

/// The native calls a batch of viewport commands stands for, in order.
pub open spec fn calls_for_commands(
    commands: Seq<ViewportCommandView>,
    viewport_id: ViewportId,
    focused: Option<ViewportId>,
) -> Seq<WindowCallView>
    decreases commands.len(),
{
    if commands.len() == 0 {
        Seq::empty()
    } else {
        calls_for_command(commands[0], viewport_id, focused) + calls_for_commands(
            commands.skip(1),
            viewport_id,
            focused,
        )
    }
}

/// Turns one viewport command into the native calls it stands for.
#[verifier::rlimit(50)]
#[verifier::spinoff_prover]
fn apply_command(
    command: ViewportCommand,
    viewport_id: ViewportId,
    focused: Option<ViewportId>,
    calls: &mut Vec<WindowCall>,
)
    ensures
        final(calls).deep_view() == old(calls).deep_view() + calls_for_command(
            command.deep_view(),
            viewport_id,
            focused,
        ),
{
    let ghost c0 = command.deep_view();
    match command {
        ViewportCommand::Drag => {
            // An unfocused viewport must not start a drag: on some
            // platforms the pointer would stay captured until the
            // process is killed.
            let is_focused = match focused {
                Some(focus) => focus.0 == viewport_id.0,
                None => false,
            };
            if is_focused {
                calls.push(WindowCall::DragWindow);
            }
        },
        ViewportCommand::InnerSize(width, height) => {
            let width = if width >= 1 {
                width
            } else {
                1
            };
            let height = if height >= 1 {
                height
            } else {
                1
            };
            calls.push(WindowCall::SetInnerSize(width, height));
        },
        ViewportCommand::Resize(top, bottom, right, left) => {
            let direction = match (top, bottom, right, left) {
                (true, false, false, false) => ResizeDirection::North,
                (false, true, false, false) => ResizeDirection::South,
                (false, false, false, true) => ResizeDirection::West,
                (true, false, true, false) => ResizeDirection::NorthEast,
                (false, true, true, false) => ResizeDirection::SouthEast,
                (true, false, false, true) => ResizeDirection::NorthWest,
                (false, true, false, true) => ResizeDirection::SouthWest,
                _ => ResizeDirection::East,
            };
            calls.push(WindowCall::DragResizeWindow(direction));
        },
        ViewportCommand::Title(title) => {
            calls.push(WindowCall::SetTitle(title));
        },
        ViewportCommand::Transparent(v) => {
            calls.push(WindowCall::SetTransparent(v));
        },
        ViewportCommand::Visible(v) => {
            calls.push(WindowCall::SetVisible(v));
        },
        ViewportCommand::OuterPosition(x, y) => {
            calls.push(WindowCall::SetOuterPosition(x, y));
        },
        ViewportCommand::MinInnerSize(s) => {
            calls.push(WindowCall::SetMinInnerSize(s));
        },
        ViewportCommand::MaxInnerSize(s) => {
            calls.push(WindowCall::SetMaxInnerSize(s));
        },
        ViewportCommand::ResizeIncrements(s) => {
            calls.push(WindowCall::SetResizeIncrements(s));
        },
        ViewportCommand::Resizable(v) => {
            calls.push(WindowCall::SetResizable(v));
        },
        ViewportCommand::EnableButtons { close, minimized, maximize } => {
            calls.push(WindowCall::SetEnabledButtons { close, minimize: minimized, maximize });
        },
        ViewportCommand::Minimized(v) => {
            calls.push(WindowCall::SetMinimized(v));
        },
        ViewportCommand::Maximized(v) => {
            calls.push(WindowCall::SetMaximized(v));
        },
        ViewportCommand::Fullscreen(v) => {
            calls.push(WindowCall::SetFullscreen(v));
        },
        ViewportCommand::Decorations(v) => {
            calls.push(WindowCall::SetDecorations(v));
        },
        ViewportCommand::WindowLevel(code) => {
            let level = if code == 1 {
                WindowLevel::AlwaysOnBottom
            } else if code == 2 {
                WindowLevel::AlwaysOnTop
            } else {
                WindowLevel::Normal
            };
            calls.push(WindowCall::SetWindowLevel(level));
        },
        ViewportCommand::WindowIcon(icon) => {
            calls.push(WindowCall::SetWindowIcon(icon));
        },
        ViewportCommand::ImePosition(x, y) => {
            calls.push(WindowCall::SetImePosition(x, y));
        },
        ViewportCommand::ImeAllowed(v) => {
            calls.push(WindowCall::SetImeAllowed(v));
        },
        ViewportCommand::ImePurpose(code) => {
            let purpose = if code == 1 {
                ImePurpose::Password
            } else if code == 2 {
                ImePurpose::Terminal
            } else {
                ImePurpose::Normal
            };
            calls.push(WindowCall::SetImePurpose(purpose));
        },
        ViewportCommand::RequestUserAttention(code) => {
            let attention = match code {
                Some(c) => Some(
                    if c == 1 {
                        UserAttentionType::Critical
                    } else {
                        UserAttentionType::Informational
                    },
                ),
                None => None,
            };
            calls.push(WindowCall::RequestUserAttention(attention));
        },
        ViewportCommand::SetTheme(code) => {
            let theme = match code {
                Some(c) => Some(
                    if c == 1 {
                        Theme::Dark
                    } else {
                        Theme::Light
                    },
                ),
                None => None,
            };
            calls.push(WindowCall::SetTheme(theme));
        },
        ViewportCommand::ContentProtected(v) => {
            calls.push(WindowCall::SetContentProtected(v));
        },
        ViewportCommand::CursorPosition(x, y) => {
            calls.push(WindowCall::SetCursorPosition(x, y));
        },
        ViewportCommand::CursorGrab(code) => {
            let mode = if code == 1 {
                CursorGrabMode::Confined
            } else if code == 2 {
                CursorGrabMode::Locked
            } else {
                CursorGrabMode::NoGrab
            };
            calls.push(WindowCall::SetCursorGrab(mode));
        },
        ViewportCommand::CursorVisible(v) => {
            calls.push(WindowCall::SetCursorVisible(v));
        },
        ViewportCommand::CursorHitTest(v) => {
            calls.push(WindowCall::SetCursorHitTest(v));
        },
    }
    proof {
        assert(calls.deep_view() =~= old(calls).deep_view() + calls_for_command(
            c0,
            viewport_id,
            focused,
        ));
    }
}

/// Turns a batch of viewport commands into the ordered native calls a
/// host must make on the viewport's window.  A drag request from a
/// viewport that does not hold focus is silently dropped.
pub fn process_viewport_commands(
    commands: Vec<ViewportCommand>,
    viewport_id: ViewportId,
    focused: Option<ViewportId>,
) -> (calls: Vec<WindowCall>)
    ensures
        calls.deep_view() == calls_for_commands(commands.deep_view(), viewport_id, focused),
{
    let ghost all = commands.deep_view();
    let mut commands = commands;
    let mut calls: Vec<WindowCall> = Vec::new();
    proof {
        assert(calls.deep_view() + calls_for_commands(all, viewport_id, focused)
            =~= calls_for_commands(all, viewport_id, focused));
    }
    while commands.len() > 0
        invariant
            calls.deep_view() + calls_for_commands(commands.deep_view(), viewport_id, focused)
                == calls_for_commands(all, viewport_id, focused),
        decreases commands.len(),
    {
        let ghost pre_commands = commands.deep_view();
        let ghost pre_calls = calls.deep_view();
        let command = commands.remove(0);
        proof {
            assert(commands.deep_view() =~= pre_commands.skip(1));
        }
        apply_command(command, viewport_id, focused, &mut calls);
        proof {
            assert(pre_calls + (calls_for_command(pre_commands[0], viewport_id, focused)
                + calls_for_commands(pre_commands.skip(1), viewport_id, focused)) =~= (pre_calls
                + calls_for_command(pre_commands[0], viewport_id, focused))
                + calls_for_commands(pre_commands.skip(1), viewport_id, focused));
        }
    }
    proof {
        assert(calls.deep_view() =~= calls.deep_view() + calls_for_commands(
            commands.deep_view(),
            viewport_id,
            focused,
        ));
    }
    calls
}

/// A drag request from a viewport that does not hold focus produces no
/// native call at all; in particular the drag never reaches the window.
pub proof fn lemma_unfocused_drag_dropped(viewport_id: ViewportId, focused: Option<ViewportId>)
    requires
        focused != Some(viewport_id),
    ensures
        calls_for_command(ViewportCommandView::Drag, viewport_id, focused)
            == Seq::<WindowCallView>::empty(),
{
}

/// No batch of commands from an unfocused viewport ever yields a drag
/// call.
pub proof fn lemma_unfocused_batch_never_drags(
    commands: Seq<ViewportCommandView>,
    viewport_id: ViewportId,
    focused: Option<ViewportId>,
)
    requires
        focused != Some(viewport_id),
    ensures
        forall|k: int|
            0 <= k < calls_for_commands(commands, viewport_id, focused).len()
                ==> calls_for_commands(commands, viewport_id, focused)[k]
                !is DragWindow,
    decreases commands.len(),
{
    if commands.len() > 0 {
        lemma_unfocused_batch_never_drags(commands.skip(1), viewport_id, focused);
        assert forall|k: int|
            0 <= k < calls_for_commands(commands, viewport_id, focused).len() implies
            calls_for_commands(commands, viewport_id, focused)[k] !is DragWindow by {
            let head = calls_for_command(commands[0], viewport_id, focused);
            let tail = calls_for_commands(commands.skip(1), viewport_id, focused);
            if k < head.len() {
                assert(calls_for_commands(commands, viewport_id, focused)[k] == head[k]);
            } else {
                assert(calls_for_commands(commands, viewport_id, focused)[k] == tail[
                    k - head.len()]);
            }
        }
    }
}

} // verus!
