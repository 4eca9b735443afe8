//! Declarative window configuration and its reconciliation: comparing a
//! desired configuration against the last applied one yields the ordered
//! commands needed to converge, plus a flag for properties that only a
//! freshly created window can take.

use vstd::prelude::*;

verus! {

/// The identifier of one logical viewport.
#[derive(Clone, Copy, Debug, PartialEq, Eq, Hash, Structural)]
pub struct ViewportId(pub u64);

/// Window icon pixels plus an identity token.  Two icons with the same
/// token are the same shared allocation; the reconciler compares tokens
/// instead of pixel bytes, which keeps the per-frame comparison cheap.
#[derive(Debug, PartialEq)]
pub struct IconData {
    pub id: u64,
    pub width: u32,
    pub height: u32,
    pub rgba: Vec<u8>,
}

/// The specification value of an [`IconData`].
pub struct IconDataView {
    pub id: u64,
    pub width: u32,
    pub height: u32,
    pub rgba: Seq<u8>,
}

impl DeepView for IconData {
    type V = IconDataView;

    open spec fn deep_view(&self) -> IconDataView {
        IconDataView { id: self.id, width: self.width, height: self.height, rgba: self.rgba@ }
    }
}

impl Clone for IconData {
    /// A clone keeps the identity token as well as the pixels, as a
    /// shared allocation would.
    fn clone(&self) -> (r: IconData)
        ensures
            r.deep_view() == self.deep_view(),
    {
        let rgba = self.rgba.clone();
        proof {
            assert(rgba@ =~= self.rgba@);
        }
        IconData { id: self.id, width: self.width, height: self.height, rgba }
    }
}

/// A declarative snapshot of window properties.  An outer `None` means
/// "unspecified, leave as it is"; for position, sizes and the icon the
/// inner option distinguishes "clear the property" from a value.
#[derive(Clone, Debug, PartialEq)]
pub struct ViewportBuilder {
    /// The window title, reconciled after every other field.
    pub title: Option<String>,
    pub position: Option<Option<(i32, i32)>>,
    pub inner_size: Option<Option<(u32, u32)>>,
    pub min_inner_size: Option<Option<(u32, u32)>>,
    pub max_inner_size: Option<Option<(u32, u32)>>,
    pub fullscreen: Option<bool>,
    pub minimized: Option<bool>,
    pub maximized: Option<bool>,
    pub resizable: Option<bool>,
    pub transparent: Option<bool>,
    pub decorations: Option<bool>,
    pub icon: Option<Option<IconData>>,
    pub visible: Option<bool>,
    pub hittest: Option<bool>,
    pub active: Option<bool>,
    pub close_button: Option<bool>,
    pub minimize_button: Option<bool>,
    pub maximize_button: Option<bool>,
    pub title_hidden: Option<bool>,
    pub titlebar_transparent: Option<bool>,
    pub fullsize_content_view: Option<bool>,
    pub drag_and_drop: Option<bool>,
}

/// The specification value of a [`ViewportBuilder`].
#[verifier::ext_equal]
pub struct ViewportBuilderView {
    pub title: Option<Seq<char>>,
    pub position: Option<Option<(i32, i32)>>,
    pub inner_size: Option<Option<(u32, u32)>>,
    pub min_inner_size: Option<Option<(u32, u32)>>,
    pub max_inner_size: Option<Option<(u32, u32)>>,
    pub fullscreen: Option<bool>,
    pub minimized: Option<bool>,
    pub maximized: Option<bool>,
    pub resizable: Option<bool>,
    pub transparent: Option<bool>,
    pub decorations: Option<bool>,
    pub icon: Option<Option<IconDataView>>,
    pub visible: Option<bool>,
    pub hittest: Option<bool>,
    pub active: Option<bool>,
    pub close_button: Option<bool>,
    pub minimize_button: Option<bool>,
    pub maximize_button: Option<bool>,
    pub title_hidden: Option<bool>,
    pub titlebar_transparent: Option<bool>,
    pub fullsize_content_view: Option<bool>,
    pub drag_and_drop: Option<bool>,
}

impl View for ViewportBuilder {
    type V = ViewportBuilderView;

    open spec fn view(&self) -> ViewportBuilderView {
        ViewportBuilderView {
            title: match &self.title {
                Some(t) => Some(t@),
                None => None,
            },
            position: self.position,
            inner_size: self.inner_size,
            min_inner_size: self.min_inner_size,
            max_inner_size: self.max_inner_size,
            fullscreen: self.fullscreen,
            minimized: self.minimized,
            maximized: self.maximized,
            resizable: self.resizable,
            transparent: self.transparent,
            decorations: self.decorations,
            icon: match &self.icon {
                Some(Some(icon)) => Some(Some(icon.deep_view())),
                Some(None) => Some(None),
                None => None,
            },
            visible: self.visible,
            hittest: self.hittest,
            active: self.active,
            close_button: self.close_button,
            minimize_button: self.minimize_button,
            maximize_button: self.maximize_button,
            title_hidden: self.title_hidden,
            titlebar_transparent: self.titlebar_transparent,
            fullsize_content_view: self.fullsize_content_view,
            drag_and_drop: self.drag_and_drop,
        }
    }
}

/// One imperative command changing a live window's property.  Level,
/// purpose, attention, theme and grab values are carried as the small
/// numeric codes the GUI library uses; the applier maps them to native
/// identifiers.
#[derive(Clone, Debug, PartialEq)]
pub enum ViewportCommand {
    Drag,
    InnerSize(u32, u32),
    /// Begin an interactive resize on the sides marked true, in the
    /// order top, bottom, right, left.
    Resize(bool, bool, bool, bool),
    Title(String),
    Transparent(bool),
    Visible(bool),
    OuterPosition(i32, i32),
    MinInnerSize(Option<(u32, u32)>),
    MaxInnerSize(Option<(u32, u32)>),
    ResizeIncrements(Option<(u32, u32)>),
    Resizable(bool),
    EnableButtons { close: bool, minimized: bool, maximize: bool },
    Minimized(bool),
    Maximized(bool),
    Fullscreen(bool),
    Decorations(bool),
    WindowLevel(u8),
    WindowIcon(Option<IconData>),
    ImePosition(i32, i32),
    ImeAllowed(bool),
    ImePurpose(u8),
    RequestUserAttention(Option<u8>),
    SetTheme(Option<u8>),
    ContentProtected(bool),
    CursorPosition(i32, i32),
    CursorGrab(u8),
    CursorVisible(bool),
    CursorHitTest(bool),
}

/// The specification value of a [`ViewportCommand`].
pub enum ViewportCommandView {
    Drag,
    InnerSize(u32, u32),
    Resize(bool, bool, bool, bool),
    Title(Seq<char>),
    Transparent(bool),
    Visible(bool),
    OuterPosition(i32, i32),
    MinInnerSize(Option<(u32, u32)>),
    MaxInnerSize(Option<(u32, u32)>),
    ResizeIncrements(Option<(u32, u32)>),
    Resizable(bool),
    EnableButtons { close: bool, minimized: bool, maximize: bool },
    Minimized(bool),
    Maximized(bool),
    Fullscreen(bool),
    Decorations(bool),
    WindowLevel(u8),
    WindowIcon(Option<IconDataView>),
    ImePosition(i32, i32),
    ImeAllowed(bool),
    ImePurpose(u8),
    RequestUserAttention(Option<u8>),
    SetTheme(Option<u8>),
    ContentProtected(bool),
    CursorPosition(i32, i32),
    CursorGrab(u8),
    CursorVisible(bool),
    CursorHitTest(bool),
}

impl DeepView for ViewportCommand {
    type V = ViewportCommandView;

    open spec fn deep_view(&self) -> ViewportCommandView {
        match self {
            ViewportCommand::Drag => ViewportCommandView::Drag,
            ViewportCommand::InnerSize(w, h) => ViewportCommandView::InnerSize(*w, *h),
            ViewportCommand::Resize(t, b, r, l) => ViewportCommandView::Resize(*t, *b, *r, *l),
            ViewportCommand::Title(t) => ViewportCommandView::Title(t@),
            ViewportCommand::Transparent(v) => ViewportCommandView::Transparent(*v),
            ViewportCommand::Visible(v) => ViewportCommandView::Visible(*v),
            ViewportCommand::OuterPosition(x, y) => ViewportCommandView::OuterPosition(*x, *y),
            ViewportCommand::MinInnerSize(s) => ViewportCommandView::MinInnerSize(*s),
            ViewportCommand::MaxInnerSize(s) => ViewportCommandView::MaxInnerSize(*s),
            ViewportCommand::ResizeIncrements(s) => ViewportCommandView::ResizeIncrements(*s),
            ViewportCommand::Resizable(v) => ViewportCommandView::Resizable(*v),
            ViewportCommand::EnableButtons { close, minimized, maximize } => (
            ViewportCommandView::EnableButtons {
                close: *close,
                minimized: *minimized,
                maximize: *maximize,
            }),
            ViewportCommand::Minimized(v) => ViewportCommandView::Minimized(*v),
            ViewportCommand::Maximized(v) => ViewportCommandView::Maximized(*v),
            ViewportCommand::Fullscreen(v) => ViewportCommandView::Fullscreen(*v),
            ViewportCommand::Decorations(v) => ViewportCommandView::Decorations(*v),
            ViewportCommand::WindowLevel(v) => ViewportCommandView::WindowLevel(*v),
            ViewportCommand::WindowIcon(icon) => ViewportCommandView::WindowIcon(
                match icon {
                    Some(i) => Some(i.deep_view()),
                    None => None,
                },
            ),
            ViewportCommand::ImePosition(x, y) => ViewportCommandView::ImePosition(*x, *y),
            ViewportCommand::ImeAllowed(v) => ViewportCommandView::ImeAllowed(*v),
            ViewportCommand::ImePurpose(v) => ViewportCommandView::ImePurpose(*v),
            ViewportCommand::RequestUserAttention(v) => ViewportCommandView::RequestUserAttention(
                *v,
            ),
            ViewportCommand::SetTheme(v) => ViewportCommandView::SetTheme(*v),
            ViewportCommand::ContentProtected(v) => ViewportCommandView::ContentProtected(*v),
            ViewportCommand::CursorPosition(x, y) => ViewportCommandView::CursorPosition(*x, *y),
            ViewportCommand::CursorGrab(v) => ViewportCommandView::CursorGrab(*v),
            ViewportCommand::CursorVisible(v) => ViewportCommandView::CursorVisible(*v),
            ViewportCommand::CursorHitTest(v) => ViewportCommandView::CursorHitTest(*v),
        }
    }
}

/// Whether a desired icon equals the last applied one: present icons are
/// the same shared allocation (same identity token), or both clear the
/// icon.  Pixel bytes are never compared.
pub open spec fn icon_eq(new_icon: Option<IconDataView>, last_icon: Option<Option<IconDataView>>) -> bool {
    match new_icon {
        Some(i) => match last_icon {
            Some(Some(l)) => l.id == i.id,
            _ => false,
        },
        None => last_icon == Some(None::<IconDataView>),
    }
}

} // verus!

verus! {

/// The command the position field contributes, if any.
pub open spec fn cmd_position(new: ViewportBuilderView, last: ViewportBuilderView) -> Seq<
    ViewportCommandView,
> {
    match new.position {
        Some(position) => if Some(position) != last.position {
            match position {
                Some(p) => seq![ViewportCommandView::OuterPosition(p.0, p.1)],
                None => Seq::empty(),
            }
        } else {
            Seq::empty()
        },
        None => Seq::empty(),
    }
}

/// The command the inner-size field contributes, if any.
pub open spec fn cmd_inner_size(new: ViewportBuilderView, last: ViewportBuilderView) -> Seq<
    ViewportCommandView,
> {
    match new.inner_size {
        Some(inner_size) => if Some(inner_size) != last.inner_size {
            match inner_size {
                Some(s) => seq![ViewportCommandView::InnerSize(s.0, s.1)],
                None => Seq::empty(),
            }
        } else {
            Seq::empty()
        },
        None => Seq::empty(),
    }
}

/// The command the minimum-inner-size field contributes, if any.
pub open spec fn cmd_min_inner_size(new: ViewportBuilderView, last: ViewportBuilderView) -> Seq<
    ViewportCommandView,
> {
    match new.min_inner_size {
        Some(v) => if Some(v) != last.min_inner_size {
            seq![ViewportCommandView::MinInnerSize(v)]
        } else {
            Seq::empty()
        },
        None => Seq::empty(),
    }
}

/// The command the maximum-inner-size field contributes, if any.
pub open spec fn cmd_max_inner_size(new: ViewportBuilderView, last: ViewportBuilderView) -> Seq<
    ViewportCommandView,
> {
    match new.max_inner_size {
        Some(v) => if Some(v) != last.max_inner_size {
            seq![ViewportCommandView::MaxInnerSize(v)]
        } else {
            Seq::empty()
        },
        None => Seq::empty(),
    }
}

/// The command the fullscreen field contributes, if any.
pub open spec fn cmd_fullscreen(new: ViewportBuilderView, last: ViewportBuilderView) -> Seq<
    ViewportCommandView,
> {
    match new.fullscreen {
        Some(v) => if Some(v) != last.fullscreen {
            seq![ViewportCommandView::Fullscreen(v)]
        } else {
            Seq::empty()
        },
        None => Seq::empty(),
    }
}

/// The command the minimized field contributes, if any.
pub open spec fn cmd_minimized(new: ViewportBuilderView, last: ViewportBuilderView) -> Seq<
    ViewportCommandView,
> {
    match new.minimized {
        Some(v) => if Some(v) != last.minimized {
            seq![ViewportCommandView::Minimized(v)]
        } else {
            Seq::empty()
        },
        None => Seq::empty(),
    }
}

/// The command the maximized field contributes, if any.
pub open spec fn cmd_maximized(new: ViewportBuilderView, last: ViewportBuilderView) -> Seq<
    ViewportCommandView,
> {
    match new.maximized {
        Some(v) => if Some(v) != last.maximized {
            seq![ViewportCommandView::Maximized(v)]
        } else {
            Seq::empty()
        },
        None => Seq::empty(),
    }
}

/// The command the resizable field contributes, if any.
pub open spec fn cmd_resizable(new: ViewportBuilderView, last: ViewportBuilderView) -> Seq<
    ViewportCommandView,
> {
    match new.resizable {
        Some(v) => if Some(v) != last.resizable {
            seq![ViewportCommandView::Resizable(v)]
        } else {
            Seq::empty()
        },
        None => Seq::empty(),
    }
}

/// The command the transparent field contributes, if any.
pub open spec fn cmd_transparent(new: ViewportBuilderView, last: ViewportBuilderView) -> Seq<
    ViewportCommandView,
> {
    match new.transparent {
        Some(v) => if Some(v) != last.transparent {
            seq![ViewportCommandView::Transparent(v)]
        } else {
            Seq::empty()
        },
        None => Seq::empty(),
    }
}

/// The command the decorations field contributes, if any.
pub open spec fn cmd_decorations(new: ViewportBuilderView, last: ViewportBuilderView) -> Seq<
    ViewportCommandView,
> {
    match new.decorations {
        Some(v) => if Some(v) != last.decorations {
            seq![ViewportCommandView::Decorations(v)]
        } else {
            Seq::empty()
        },
        None => Seq::empty(),
    }
}

/// The command the visible field contributes, if any.
pub open spec fn cmd_visible(new: ViewportBuilderView, last: ViewportBuilderView) -> Seq<
    ViewportCommandView,
> {
    match new.visible {
        Some(v) => if Some(v) != last.visible {
            seq![ViewportCommandView::Visible(v)]
        } else {
            Seq::empty()
        },
        None => Seq::empty(),
    }
}

/// The command the hittest field contributes, if any.
pub open spec fn cmd_hittest(new: ViewportBuilderView, last: ViewportBuilderView) -> Seq<
    ViewportCommandView,
> {
    match new.hittest {
        Some(v) => if Some(v) != last.hittest {
            seq![ViewportCommandView::CursorHitTest(v)]
        } else {
            Seq::empty()
        },
        None => Seq::empty(),
    }
}

/// The command the title field contributes, if any.
pub open spec fn cmd_title(new: ViewportBuilderView, last: ViewportBuilderView) -> Seq<
    ViewportCommandView,
> {
    match new.title {
        Some(t) => if Some(t) != last.title {
            seq![ViewportCommandView::Title(t)]
        } else {
            Seq::empty()
        },
        None => Seq::empty(),
    }
}

/// The command the icon field contributes, if any; icons are compared
/// by identity token, never by pixel bytes.
pub open spec fn cmd_icon(new: ViewportBuilderView, last: ViewportBuilderView) -> Seq<
    ViewportCommandView,
> {
    match new.icon {
        Some(icon) => if !icon_eq(icon, last.icon) {
            seq![ViewportCommandView::WindowIcon(icon)]
        } else {
            Seq::empty()
        },
        None => Seq::empty(),
    }
}

/// The commands of the geometry fields, in field order.
pub open spec fn geometry_commands(new: ViewportBuilderView, last: ViewportBuilderView) -> Seq<
    ViewportCommandView,
> {
    cmd_position(new, last) + cmd_inner_size(new, last) + cmd_min_inner_size(new, last)
        + cmd_max_inner_size(new, last)
}

/// The commands of the first three boolean window flags, in field
/// order.
pub open spec fn flag_commands_a(new: ViewportBuilderView, last: ViewportBuilderView) -> Seq<
    ViewportCommandView,
> {
    cmd_fullscreen(new, last) + cmd_minimized(new, last) + cmd_maximized(new, last)
}

/// The commands of the last three boolean window flags, in field order.
pub open spec fn flag_commands_b(new: ViewportBuilderView, last: ViewportBuilderView) -> Seq<
    ViewportCommandView,
> {
    cmd_resizable(new, last) + cmd_transparent(new, last) + cmd_decorations(new, last)
}

/// The commands of the boolean window flags, in field order.
pub open spec fn flag_commands(new: ViewportBuilderView, last: ViewportBuilderView) -> Seq<
    ViewportCommandView,
> {
    flag_commands_a(new, last) + flag_commands_b(new, updated_flags_a(new, last))
}

/// The commands of the appearance fields (icon, visibility, hit test),
/// in field order.
pub open spec fn appearance_commands(new: ViewportBuilderView, last: ViewportBuilderView) -> Seq<
    ViewportCommandView,
> {
    cmd_icon(new, last) + cmd_visible(new, last) + cmd_hittest(new, last) + cmd_title(new, last)
}

/// The commands the reconciler emits for a desired configuration against
/// the last applied one, in field order: position, the sizes, the window
/// flags, the icon, visibility, the hit test, and the title.  A command is emitted
/// only for a field the desired configuration specifies with a value
/// differing from the last applied one; position and inner size emit
/// nothing when the desired inner value clears the property.
pub open spec fn diff_commands(new: ViewportBuilderView, last: ViewportBuilderView) -> Seq<
    ViewportCommandView,
> {
    geometry_commands(new, last) + flag_commands(new, updated_geometry(new, last))
        + appearance_commands(new, updated_flags(new, updated_geometry(new, last)))
}

/// Whether converging requires recreating the window: a creation-only
/// property (activation, button presence, title bar looks) is specified
/// with a value differing from the last applied one.  No command can
/// change these on a live window.
pub open spec fn diff_recreate(new: ViewportBuilderView, last: ViewportBuilderView) -> bool {

    ||| (new.active matches Some(v) && Some(v) != last.active)
    ||| (new.close_button matches Some(v) && Some(v) != last.close_button)
    ||| (new.minimize_button matches Some(v) && Some(v) != last.minimize_button)
    ||| (new.maximize_button matches Some(v) && Some(v) != last.maximize_button)
    ||| (new.title_hidden matches Some(v) && Some(v) != last.title_hidden)
    ||| (new.titlebar_transparent matches Some(v) && Some(v) != last.titlebar_transparent)
    ||| (new.fullsize_content_view matches Some(v) && Some(v) != last.fullsize_content_view)
}

/// The geometry fields of the last applied configuration after
/// reconciliation.
pub open spec fn updated_geometry(new: ViewportBuilderView, last: ViewportBuilderView) -> ViewportBuilderView {
    ViewportBuilderView {
        position: if new.position is Some {
            new.position
        } else {
            last.position
        },
        inner_size: if new.inner_size is Some {
            new.inner_size
        } else {
            last.inner_size
        },
        min_inner_size: if new.min_inner_size is Some {
            new.min_inner_size
        } else {
            last.min_inner_size
        },
        max_inner_size: if new.max_inner_size is Some {
            new.max_inner_size
        } else {
            last.max_inner_size
        },
        ..last
    }
}

/// The first three boolean window flags of the last applied
/// configuration after reconciliation.
pub open spec fn updated_flags_a(new: ViewportBuilderView, last: ViewportBuilderView) -> ViewportBuilderView {
    ViewportBuilderView {
        fullscreen: if new.fullscreen is Some {
            new.fullscreen
        } else {
            last.fullscreen
        },
        minimized: if new.minimized is Some {
            new.minimized
        } else {
            last.minimized
        },
        maximized: if new.maximized is Some {
            new.maximized
        } else {
            last.maximized
        },
        ..last
    }
}

/// The last three boolean window flags of the last applied
/// configuration after reconciliation.
pub open spec fn updated_flags_b(new: ViewportBuilderView, last: ViewportBuilderView) -> ViewportBuilderView {
    ViewportBuilderView {
        resizable: if new.resizable is Some {
            new.resizable
        } else {
            last.resizable
        },
        transparent: if new.transparent is Some {
            new.transparent
        } else {
            last.transparent
        },
        decorations: if new.decorations is Some {
            new.decorations
        } else {
            last.decorations
        },
        ..last
    }
}

/// The boolean window flags of the last applied configuration after
/// reconciliation.
pub open spec fn updated_flags(new: ViewportBuilderView, last: ViewportBuilderView) -> ViewportBuilderView {
    updated_flags_b(new, updated_flags_a(new, last))
}

/// The appearance fields of the last applied configuration after
/// reconciliation; the icon is adopted only when its identity token
/// differs.
pub open spec fn updated_appearance(new: ViewportBuilderView, last: ViewportBuilderView) -> ViewportBuilderView {
    ViewportBuilderView {
        visible: if new.visible is Some {
            new.visible
        } else {
            last.visible
        },
        hittest: if new.hittest is Some {
            new.hittest
        } else {
            last.hittest
        },
        icon: match new.icon {
            Some(icon) => if !icon_eq(icon, last.icon) {
                Some(icon)
            } else {
                last.icon
            },
            None => last.icon,
        },
        title: if new.title is Some {
            new.title
        } else {
            last.title
        },
        ..last
    }
}

/// The creation-only fields of the last applied configuration after
/// reconciliation.
pub open spec fn updated_creation(new: ViewportBuilderView, last: ViewportBuilderView) -> ViewportBuilderView {
    ViewportBuilderView {
        active: if new.active is Some {
            new.active
        } else {
            last.active
        },
        close_button: if new.close_button is Some {
            new.close_button
        } else {
            last.close_button
        },
        minimize_button: if new.minimize_button is Some {
            new.minimize_button
        } else {
            last.minimize_button
        },
        maximize_button: if new.maximize_button is Some {
            new.maximize_button
        } else {
            last.maximize_button
        },
        title_hidden: if new.title_hidden is Some {
            new.title_hidden
        } else {
            last.title_hidden
        },
        titlebar_transparent: if new.titlebar_transparent is Some {
            new.titlebar_transparent
        } else {
            last.titlebar_transparent
        },
        fullsize_content_view: if new.fullsize_content_view is Some {
            new.fullsize_content_view
        } else {
            last.fullsize_content_view
        },
        ..last
    }
}

/// The last applied configuration after reconciliation: every field the
/// desired configuration specifies is adopted (so a repeated
/// reconciliation emits nothing), every unspecified field is kept, and
/// the title is kept because it is never reconciled.
pub open spec fn diff_updated(new: ViewportBuilderView, last: ViewportBuilderView) -> ViewportBuilderView {
    updated_creation(
        new,
        updated_appearance(new, updated_flags(new, updated_geometry(new, last))),
    )
}

/// The command sequence an optional command contributes.
pub open spec fn opt_cmd_seq(c: Option<ViewportCommand>) -> Seq<ViewportCommandView> {
    match c {
        Some(cmd) => seq![cmd.deep_view()],
        None => Seq::empty(),
    }
}

/// Appends an optional command.
fn push_opt(commands: &mut Vec<ViewportCommand>, c: Option<ViewportCommand>)
    ensures
        final(commands).deep_view() == old(commands).deep_view() + opt_cmd_seq(c),
{
    let ghost c0 = c;
    match c {
        Some(cmd) => {
            commands.push(cmd);
        },
        None => (),
    }
    proof {
        assert(commands.deep_view() =~= old(commands).deep_view() + opt_cmd_seq(c0));
    }
}

/// Whether two optional point pairs are equal.
fn eq_opt_pos(a: Option<(i32, i32)>, b: Option<(i32, i32)>) -> (r: bool)
    ensures
        r == (a == b),
{
    match (a, b) {
        (Some(x), Some(y)) => x.0 == y.0 && x.1 == y.1,
        (None, None) => true,
        _ => false,
    }
}

/// Whether two optional size pairs are equal.
fn eq_opt_size(a: Option<(u32, u32)>, b: Option<(u32, u32)>) -> (r: bool)
    ensures
        r == (a == b),
{
    match (a, b) {
        (Some(x), Some(y)) => x.0 == y.0 && x.1 == y.1,
        (None, None) => true,
        _ => false,
    }
}

/// Reconciles position and the three size fields.
#[verifier::rlimit(100)]
#[verifier::spinoff_prover]
fn diff_geometry(new: &ViewportBuilder, last: &mut ViewportBuilder) -> (commands: Vec<
    ViewportCommand,
>)
    ensures
        commands.deep_view() == geometry_commands(new@, old(last)@),
        final(last)@ == updated_geometry(new@, old(last)@),
{
    let mut commands: Vec<ViewportCommand> = Vec::new();

    let c_position: Option<ViewportCommand> = match new.position {
        Some(position) => {
            let differs = match last.position {
                Some(l) => !eq_opt_pos(l, position),
                None => true,
            };
            last.position = Some(position);
            if differs {
                match position {
                    Some(p) => Some(ViewportCommand::OuterPosition(p.0, p.1)),
                    None => None,
                }
            } else {
                None
            }
        },
        None => None,
    };
    push_opt(&mut commands, c_position);
    proof {
        assert(opt_cmd_seq(c_position) =~= cmd_position(new@, old(last)@));
    }

    let c_inner_size: Option<ViewportCommand> = match new.inner_size {
        Some(inner_size) => {
            let differs = match last.inner_size {
                Some(l) => !eq_opt_size(l, inner_size),
                None => true,
            };
            last.inner_size = Some(inner_size);
            if differs {
                match inner_size {
                    Some(s) => Some(ViewportCommand::InnerSize(s.0, s.1)),
                    None => None,
                }
            } else {
                None
            }
        },
        None => None,
    };
    push_opt(&mut commands, c_inner_size);
    proof {
        assert(opt_cmd_seq(c_inner_size) =~= cmd_inner_size(new@, old(last)@));
    }

    let c_min_inner_size: Option<ViewportCommand> = match new.min_inner_size {
        Some(v) => {
            let differs = match last.min_inner_size {
                Some(l) => !eq_opt_size(l, v),
                None => true,
            };
            last.min_inner_size = Some(v);
            if differs {
                Some(ViewportCommand::MinInnerSize(v))
            } else {
                None
            }
        },
        None => None,
    };
    push_opt(&mut commands, c_min_inner_size);
    proof {
        assert(opt_cmd_seq(c_min_inner_size) =~= cmd_min_inner_size(new@, old(last)@));
    }

    let c_max_inner_size: Option<ViewportCommand> = match new.max_inner_size {
        Some(v) => {
            let differs = match last.max_inner_size {
                Some(l) => !eq_opt_size(l, v),
                None => true,
            };
            last.max_inner_size = Some(v);
            if differs {
                Some(ViewportCommand::MaxInnerSize(v))
            } else {
                None
            }
        },
        None => None,
    };
    push_opt(&mut commands, c_max_inner_size);
    proof {
        assert(opt_cmd_seq(c_max_inner_size) =~= cmd_max_inner_size(new@, old(last)@));
    }

    proof {
        assert(Seq::<ViewportCommandView>::empty() + cmd_position(new@, old(last)@)
            =~= cmd_position(new@, old(last)@));
        assert(commands.deep_view() == geometry_commands(new@, old(last)@));
        assert(last@ =~= updated_geometry(new@, old(last)@));
    }
    commands
}

/// Reconciles the fullscreen, minimized and maximized flags.
#[verifier::rlimit(100)]
#[verifier::spinoff_prover]
fn diff_flags_a(new: &ViewportBuilder, last: &mut ViewportBuilder) -> (commands: Vec<
    ViewportCommand,
>)
    ensures
        commands.deep_view() == flag_commands_a(new@, old(last)@),
        final(last)@ == updated_flags_a(new@, old(last)@),
{
    let mut commands: Vec<ViewportCommand> = Vec::new();

    let c_fullscreen: Option<ViewportCommand> = match new.fullscreen {
        Some(v) => {
            let differs = match last.fullscreen {
                Some(l) => l != v,
                None => true,
            };
            last.fullscreen = Some(v);
            if differs {
                Some(ViewportCommand::Fullscreen(v))
            } else {
                None
            }
        },
        None => None,
    };
    push_opt(&mut commands, c_fullscreen);
    proof {
        assert(opt_cmd_seq(c_fullscreen) =~= cmd_fullscreen(new@, old(last)@));
    }

    let c_minimized: Option<ViewportCommand> = match new.minimized {
        Some(v) => {
            let differs = match last.minimized {
                Some(l) => l != v,
                None => true,
            };
            last.minimized = Some(v);
            if differs {
                Some(ViewportCommand::Minimized(v))
            } else {
                None
            }
        },
        None => None,
    };
    push_opt(&mut commands, c_minimized);
    proof {
        assert(opt_cmd_seq(c_minimized) =~= cmd_minimized(new@, old(last)@));
    }

    let c_maximized: Option<ViewportCommand> = match new.maximized {
        Some(v) => {
            let differs = match last.maximized {
                Some(l) => l != v,
                None => true,
            };
            last.maximized = Some(v);
            if differs {
                Some(ViewportCommand::Maximized(v))
            } else {
                None
            }
        },
        None => None,
    };
    push_opt(&mut commands, c_maximized);
    proof {
        assert(opt_cmd_seq(c_maximized) =~= cmd_maximized(new@, old(last)@));
    }

    proof {
        assert(Seq::<ViewportCommandView>::empty() + cmd_fullscreen(new@, old(last)@)
            =~= cmd_fullscreen(new@, old(last)@));
        assert(commands.deep_view() == flag_commands_a(new@, old(last)@));
        assert(last@ =~= updated_flags_a(new@, old(last)@));
    }
    commands
}

/// Reconciles the resizable, transparent and decorations flags.
#[verifier::rlimit(100)]
#[verifier::spinoff_prover]
fn diff_flags_b(new: &ViewportBuilder, last: &mut ViewportBuilder) -> (commands: Vec<
    ViewportCommand,
>)
    ensures
        commands.deep_view() == flag_commands_b(new@, old(last)@),
        final(last)@ == updated_flags_b(new@, old(last)@),
{
    let mut commands: Vec<ViewportCommand> = Vec::new();

    let c_resizable: Option<ViewportCommand> = match new.resizable {
        Some(v) => {
            let differs = match last.resizable {
                Some(l) => l != v,
                None => true,
            };
            last.resizable = Some(v);
            if differs {
                Some(ViewportCommand::Resizable(v))
            } else {
                None
            }
        },
        None => None,
    };
    push_opt(&mut commands, c_resizable);
    proof {
        assert(opt_cmd_seq(c_resizable) =~= cmd_resizable(new@, old(last)@));
    }

    let c_transparent: Option<ViewportCommand> = match new.transparent {
        Some(v) => {
            let differs = match last.transparent {
                Some(l) => l != v,
                None => true,
            };
            last.transparent = Some(v);
            if differs {
                Some(ViewportCommand::Transparent(v))
            } else {
                None
            }
        },
        None => None,
    };
    push_opt(&mut commands, c_transparent);
    proof {
        assert(opt_cmd_seq(c_transparent) =~= cmd_transparent(new@, old(last)@));
    }

    let c_decorations: Option<ViewportCommand> = match new.decorations {
        Some(v) => {
            let differs = match last.decorations {
                Some(l) => l != v,
                None => true,
            };
            last.decorations = Some(v);
            if differs {
                Some(ViewportCommand::Decorations(v))
            } else {
                None
            }
        },
        None => None,
    };
    push_opt(&mut commands, c_decorations);
    proof {
        assert(opt_cmd_seq(c_decorations) =~= cmd_decorations(new@, old(last)@));
    }

    proof {
        assert(Seq::<ViewportCommandView>::empty() + cmd_resizable(new@, old(last)@)
            =~= cmd_resizable(new@, old(last)@));
        assert(commands.deep_view() == flag_commands_b(new@, old(last)@));
        assert(last@ =~= updated_flags_b(new@, old(last)@));
    }
    commands
}

/// Reconciles the boolean window flags.
#[verifier::rlimit(100)]
#[verifier::spinoff_prover]
fn diff_flags(new: &ViewportBuilder, last: &mut ViewportBuilder) -> (commands: Vec<
    ViewportCommand,
>)
    ensures
        commands.deep_view() == flag_commands(new@, old(last)@),
        final(last)@ == updated_flags(new@, old(last)@),
{
    let mut commands = diff_flags_a(new, last);
    let mut b_cmds = diff_flags_b(new, last);
    let ghost a_dv = commands.deep_view();
    let ghost b_dv = b_cmds.deep_view();
    commands.append(&mut b_cmds);
    proof {
        assert(commands.deep_view() =~= a_dv + b_dv);
        assert(commands.deep_view() == flag_commands(new@, old(last)@));
    }
    commands
}

/// Reconciles the icon, visibility and hit-test fields.
#[verifier::rlimit(100)]
#[verifier::spinoff_prover]
fn diff_appearance(new: &ViewportBuilder, last: &mut ViewportBuilder) -> (commands: Vec<
    ViewportCommand,
>)
    ensures
        commands.deep_view() == appearance_commands(new@, old(last)@),
        final(last)@ == updated_appearance(new@, old(last)@),
{
    let mut commands: Vec<ViewportCommand> = Vec::new();

    let c_icon: Option<ViewportCommand> = match &new.icon {
        Some(icon) => {
            let eq = match icon {
                Some(i) => match &last.icon {
                    Some(Some(l)) => l.id == i.id,
                    _ => false,
                },
                None => match &last.icon {
                    Some(None) => true,
                    _ => false,
                },
            };
            if !eq {
                let emitted: Option<IconData> = match icon {
                    Some(i) => Some(i.clone()),
                    None => None,
                };
                let adopted: Option<IconData> = match icon {
                    Some(i) => Some(i.clone()),
                    None => None,
                };
                last.icon = Some(adopted);
                Some(ViewportCommand::WindowIcon(emitted))
            } else {
                None
            }
        },
        None => None,
    };
    push_opt(&mut commands, c_icon);
    proof {
        assert(opt_cmd_seq(c_icon) =~= cmd_icon(new@, old(last)@));
    }

    let c_visible: Option<ViewportCommand> = match new.visible {
        Some(v) => {
            let differs = match last.visible {
                Some(l) => l != v,
                None => true,
            };
            last.visible = Some(v);
            if differs {
                Some(ViewportCommand::Visible(v))
            } else {
                None
            }
        },
        None => None,
    };
    push_opt(&mut commands, c_visible);
    proof {
        assert(opt_cmd_seq(c_visible) =~= cmd_visible(new@, old(last)@));
    }

    let c_hittest: Option<ViewportCommand> = match new.hittest {
        Some(v) => {
            let differs = match last.hittest {
                Some(l) => l != v,
                None => true,
            };
            last.hittest = Some(v);
            if differs {
                Some(ViewportCommand::CursorHitTest(v))
            } else {
                None
            }
        },
        None => None,
    };
    push_opt(&mut commands, c_hittest);
    proof {
        assert(opt_cmd_seq(c_hittest) =~= cmd_hittest(new@, old(last)@));
    }

    let c_title: Option<ViewportCommand> = match &new.title {
        Some(t) => {
            let differs = match &last.title {
                Some(l) => !l.eq(t),
                None => true,
            };
            last.title = Some(t.clone());
            if differs {
                Some(ViewportCommand::Title(t.clone()))
            } else {
                None
            }
        },
        None => None,
    };
    push_opt(&mut commands, c_title);
    proof {
        assert(opt_cmd_seq(c_title) =~= cmd_title(new@, old(last)@));
    }

    proof {
        assert(Seq::<ViewportCommandView>::empty() + cmd_icon(new@, old(last)@)
            =~= cmd_icon(new@, old(last)@));
        assert(commands.deep_view() == appearance_commands(new@, old(last)@));
        assert(last@ =~= updated_appearance(new@, old(last)@));
    }
    commands
}

/// Reconciles the creation-only fields, adopting the desired values and
/// reporting whether any changed.
#[verifier::rlimit(100)]
#[verifier::spinoff_prover]
fn diff_creation_only(new: &ViewportBuilder, last: &mut ViewportBuilder) -> (recreate: bool)
    ensures
        recreate == diff_recreate(new@, old(last)@),
        final(last)@ == updated_creation(new@, old(last)@),
{
    let mut recreate_window = false;

    if let Some(v) = new.active {
        let differs = match last.active {
            Some(l) => l != v,
            None => true,
        };
        last.active = Some(v);
        if differs {
            recreate_window = true;
        }
    }

    if let Some(v) = new.close_button {
        let differs = match last.close_button {
            Some(l) => l != v,
            None => true,
        };
        last.close_button = Some(v);
        if differs {
            recreate_window = true;
        }
    }

    if let Some(v) = new.minimize_button {
        let differs = match last.minimize_button {
            Some(l) => l != v,
            None => true,
        };
        last.minimize_button = Some(v);
        if differs {
            recreate_window = true;
        }
    }

    if let Some(v) = new.maximize_button {
        let differs = match last.maximize_button {
            Some(l) => l != v,
            None => true,
        };
        last.maximize_button = Some(v);
        if differs {
            recreate_window = true;
        }
    }

    if let Some(v) = new.title_hidden {
        let differs = match last.title_hidden {
            Some(l) => l != v,
            None => true,
        };
        last.title_hidden = Some(v);
        if differs {
            recreate_window = true;
        }
    }

    if let Some(v) = new.titlebar_transparent {
        let differs = match last.titlebar_transparent {
            Some(l) => l != v,
            None => true,
        };
        last.titlebar_transparent = Some(v);
        if differs {
            recreate_window = true;
        }
    }

    if let Some(v) = new.fullsize_content_view {
        let differs = match last.fullsize_content_view {
            Some(l) => l != v,
            None => true,
        };
        last.fullsize_content_view = Some(v);
        if differs {
            recreate_window = true;
        }
    }

    proof {
        assert(last@ =~= updated_creation(new@, old(last)@));
    }
    recreate_window
}

/// Compares a desired configuration against the last applied one,
/// returning the commands needed to converge, in field order, and
/// whether a creation-only property changed so the window must be
/// recreated.  The last applied configuration is updated in place, so a
/// repeated reconciliation with the same desired configuration emits
/// nothing.
#[verifier::rlimit(100)]
#[verifier::spinoff_prover]
pub fn changes_between_builders(new: &ViewportBuilder, last: &mut ViewportBuilder) -> (r: (
    Vec<ViewportCommand>,
    bool,
))
    ensures
        r.0.deep_view() == diff_commands(new@, old(last)@),
        r.1 == diff_recreate(new@, old(last)@),
        final(last)@ == diff_updated(new@, old(last)@),
{
    let mut commands = diff_geometry(new, last);
    let mut flag_cmds = diff_flags(new, last);
    let mut appearance_cmds = diff_appearance(new, last);
    let ghost g_dv = commands.deep_view();
    let ghost f_dv = flag_cmds.deep_view();
    let ghost a_dv = appearance_cmds.deep_view();
    commands.append(&mut flag_cmds);
    commands.append(&mut appearance_cmds);
    let recreate_window = diff_creation_only(new, last);
    proof {
        assert(commands.deep_view() =~= g_dv + f_dv + a_dv);
        assert(commands.deep_view() == diff_commands(new@, old(last)@));
    }
    (commands, recreate_window)
}

/// Reconciliation is idempotent: against the configuration it has just
/// updated, the same desired configuration emits no command and requires
/// no recreation.
#[verifier::rlimit(100)]
pub proof fn lemma_diff_idempotent(new: ViewportBuilderView, last: ViewportBuilderView)
    ensures
        diff_commands(new, diff_updated(new, last)) == Seq::<ViewportCommandView>::empty(),
        !diff_recreate(new, diff_updated(new, last)),
{
    let u = diff_updated(new, last);
    assert(geometry_commands(new, u) =~= Seq::<ViewportCommandView>::empty());
    assert(flag_commands(new, updated_geometry(new, u)) =~= Seq::<ViewportCommandView>::empty());
    assert(appearance_commands(new, updated_flags(new, updated_geometry(new, u)))
        =~= Seq::<ViewportCommandView>::empty());
    assert(diff_commands(new, u) =~= Seq::<ViewportCommandView>::empty());
}

} // verus!

verus! {

/// The resolved settings a native window is created with.  Booleans are
/// resolved from the builder with absent values defaulting to false; a
/// window button is enabled only when the builder asks for it
/// explicitly.
#[derive(Clone, Debug, PartialEq)]
pub struct CreationSettings {
    pub title: String,
    pub transparent: bool,
    pub decorations: bool,
    pub resizable: bool,
    pub visible: bool,
    pub maximized: bool,
    pub fullscreen: bool,
    pub active: bool,
    pub minimize_button: bool,
    pub maximize_button: bool,
    pub close_button: bool,
    pub inner_size: Option<(u32, u32)>,
    pub min_inner_size: Option<(u32, u32)>,
    pub max_inner_size: Option<(u32, u32)>,
    pub position: Option<(i32, i32)>,
    pub icon: Option<IconData>,
    pub drag_and_drop: Option<bool>,
}

/// Resolves a declarative configuration into the settings a native
/// window is created with: unspecified booleans default to false, a
/// button is enabled only for an explicit true, and geometry and the
/// icon are taken only when the builder carries a value (an inner
/// "clear" is no creation setting).
pub fn window_creation_settings(builder: &ViewportBuilder) -> (r: CreationSettings)
    ensures
        r.title@ == (match builder@.title {
            Some(t) => t,
            None => Seq::<char>::empty(),
        }),
        r.transparent == (builder@.transparent == Some(true)),
        r.decorations == (builder@.decorations == Some(true)),
        r.resizable == (builder@.resizable == Some(true)),
        r.visible == (builder@.visible == Some(true)),
        r.maximized == (builder@.maximized == Some(true)),
        r.fullscreen == (builder@.fullscreen == Some(true)),
        r.active == (builder@.active == Some(true)),
        r.minimize_button == (builder@.minimize_button == Some(true)),
        r.maximize_button == (builder@.maximize_button == Some(true)),
        r.close_button == (builder@.close_button == Some(true)),
        r.inner_size == (match builder@.inner_size {
            Some(Some(s)) => Some(s),
            _ => None::<(u32, u32)>,
        }),
        r.min_inner_size == (match builder@.min_inner_size {
            Some(Some(s)) => Some(s),
            _ => None::<(u32, u32)>,
        }),
        r.max_inner_size == (match builder@.max_inner_size {
            Some(Some(s)) => Some(s),
            _ => None::<(u32, u32)>,
        }),
        r.position == (match builder@.position {
            Some(Some(p)) => Some(p),
            _ => None::<(i32, i32)>,
        }),
        (match (r.icon, builder@.icon) {
            (Some(i), Some(Some(b))) => i.deep_view() == b,
            (None, Some(None)) => true,
            (None, None) => true,
            _ => false,
        }),
        r.drag_and_drop == builder@.drag_and_drop,
{
    let opt_true = |o: Option<bool>| -> (r: bool)
        ensures
            r == (o == Some(true)),
        {
            match o {
                Some(b) => b,
                None => false,
            }
        };
    CreationSettings {
        title: match &builder.title {
            Some(t) => t.clone(),
            None => String::new(),
        },
        transparent: opt_true(builder.transparent),
        decorations: opt_true(builder.decorations),
        resizable: opt_true(builder.resizable),
        visible: opt_true(builder.visible),
        maximized: opt_true(builder.maximized),
        fullscreen: opt_true(builder.fullscreen),
        active: opt_true(builder.active),
        minimize_button: opt_true(builder.minimize_button),
        maximize_button: opt_true(builder.maximize_button),
        close_button: opt_true(builder.close_button),
        inner_size: match builder.inner_size {
            Some(Some(s)) => Some(s),
            _ => None,
        },
        min_inner_size: match builder.min_inner_size {
            Some(Some(s)) => Some(s),
            _ => None,
        },
        max_inner_size: match builder.max_inner_size {
            Some(Some(s)) => Some(s),
            _ => None,
        },
        position: match builder.position {
            Some(Some(p)) => Some(p),
            _ => None,
        },
        icon: match &builder.icon {
            Some(Some(i)) => Some(i.clone()),
            _ => None,
        },
        drag_and_drop: builder.drag_and_drop,
    }
}

} // verus!
