//! Whole-GUI zoom helpers: stepping the zoom factor from the keyboard
//! or from menu buttons, clamped to a sane range.  The zoom factor is
//! carried in tenths, so a step is exact and the range is two tenths to
//! fifty tenths.

use vstd::prelude::*;

verus! {

/// The zoom factor of one, in tenths.
pub open spec fn unit_zoom() -> u32 {
    10
}

/// The smallest zoom factor, in tenths.
pub open spec fn min_zoom() -> u32 {
    2
}

/// The largest zoom factor, in tenths.
pub open spec fn max_zoom() -> u32 {
    50
}

/// What the zoom helpers read and change on the GUI context: the zoom
/// factor in tenths, and which zoom shortcuts are pressed and not yet
/// consumed this frame.
#[derive(Clone, Copy, Debug, PartialEq, Eq, Structural)]
pub struct Context {
    pub zoom_factor_tenths: u32,
    pub zoom_in_pressed: bool,
    pub zoom_out_pressed: bool,
    pub zoom_reset_pressed: bool,
}

impl Context {
    /// A context at a zoom factor of one with no pending shortcut.
    pub fn new() -> (r: Context)
        ensures
            r.zoom_factor_tenths == unit_zoom(),
            !r.zoom_in_pressed,
            !r.zoom_out_pressed,
            !r.zoom_reset_pressed,
    {
        Context {
            zoom_factor_tenths: 10,
            zoom_in_pressed: false,
            zoom_out_pressed: false,
            zoom_reset_pressed: false,
        }
    }

    /// The current zoom factor, in tenths.
    pub fn zoom_factor(&self) -> (r: u32)
        ensures
            r == self.zoom_factor_tenths,
    {
        self.zoom_factor_tenths
    }

    /// Sets the zoom factor, in tenths.
    pub fn set_zoom_factor(&mut self, tenths: u32)
        ensures
            *final(self) == (Context { zoom_factor_tenths: tenths, ..*old(self) }),
    {
        self.zoom_factor_tenths = tenths;
    }
}

/// A zoom factor one step above the given one: a tenth more, kept
/// within the allowed range.
pub open spec fn stepped_up(tenths: u32) -> u32 {
    if tenths + 1 < min_zoom() {
        min_zoom()
    } else if tenths + 1 > max_zoom() {
        max_zoom()
    } else {
        (tenths + 1) as u32
    }
}

/// A zoom factor one step below the given one: a tenth less, kept
/// within the allowed range.
pub open spec fn stepped_down(tenths: u32) -> u32 {
    if tenths - 1 < min_zoom() {
        min_zoom()
    } else if tenths - 1 > max_zoom() {
        max_zoom()
    } else {
        (tenths - 1) as u32
    }
}

/// Makes everything larger by one zoom step.
pub fn zoom_in(ctx: &mut Context)
    ensures
        *final(ctx) == (Context {
            zoom_factor_tenths: stepped_up(old(ctx).zoom_factor_tenths),
            ..*old(ctx)
        }),
{
    let z = ctx.zoom_factor();
    let stepped = if z >= 50 {
        50
    } else if z + 1 < 2 {
        2
    } else {
        z + 1
    };
    ctx.set_zoom_factor(stepped);
}

/// Makes everything smaller by one zoom step.
pub fn zoom_out(ctx: &mut Context)
    ensures
        *final(ctx) == (Context {
            zoom_factor_tenths: stepped_down(old(ctx).zoom_factor_tenths),
            ..*old(ctx)
        }),
{
    let z = ctx.zoom_factor();
    let stepped = if z <= 2 {
        2
    } else if z - 1 > 50 {
        50
    } else {
        z - 1
    };
    ctx.set_zoom_factor(stepped);
}

/// The context after the keyboard zoom shortcuts are handled: a pressed
/// reset shortcut wins and restores a factor of one; otherwise the in
/// and out shortcuts each step the factor once.  Every handled shortcut
/// is consumed.
pub open spec fn keyboard_zoom_step(c: Context) -> Context {
    if c.zoom_reset_pressed {
        Context { zoom_factor_tenths: unit_zoom(), zoom_reset_pressed: false, ..c }
    } else {
        let c1 = if c.zoom_in_pressed {
            Context {
                zoom_factor_tenths: stepped_up(c.zoom_factor_tenths),
                zoom_in_pressed: false,
                ..c
            }
        } else {
            c
        };
        if c1.zoom_out_pressed {
            Context {
                zoom_factor_tenths: stepped_down(c1.zoom_factor_tenths),
                zoom_out_pressed: false,
                ..c1
            }
        } else {
            c1
        }
    }
}

/// Lets the user scale the GUI with the zoom shortcuts, as a browser
/// does: reset to one, or step in and out.
pub fn zoom_with_keyboard(ctx: &mut Context)
    ensures
        *final(ctx) == keyboard_zoom_step(*old(ctx)),
{
    if ctx.zoom_reset_pressed {
        ctx.zoom_reset_pressed = false;
        ctx.set_zoom_factor(10);
    } else {
        if ctx.zoom_in_pressed {
            ctx.zoom_in_pressed = false;
            zoom_in(ctx);
        }
        if ctx.zoom_out_pressed {
            ctx.zoom_out_pressed = false;
            zoom_out(ctx);
        }
    }
}

/// What the zoom menu reads and changes: the context, which of the
/// three buttons were clicked this frame, and whether the menu is still
/// open.
#[derive(Clone, Copy, Debug, PartialEq, Eq, Structural)]
pub struct Ui {
    pub ctx: Context,
    pub zoom_in_clicked: bool,
    pub zoom_out_clicked: bool,
    pub reset_clicked: bool,
    pub menu_open: bool,
}

/// The state after the zoom menu buttons are handled, in the order the
/// menu shows them.  A button acts only when it is enabled: zooming in
/// below the largest factor, zooming out above the smallest, resetting
/// away from one; each button read the factor as the earlier buttons
/// left it.  A click on an enabled button closes the menu.
pub open spec fn menu_buttons_step(u: Ui) -> Ui {
    let u1 = if u.ctx.zoom_factor_tenths < max_zoom() && u.zoom_in_clicked {
        Ui {
            ctx: Context { zoom_factor_tenths: stepped_up(u.ctx.zoom_factor_tenths), ..u.ctx },
            menu_open: false,
            ..u
        }
    } else {
        u
    };
    let u2 = if u1.ctx.zoom_factor_tenths > min_zoom() && u1.zoom_out_clicked {
        Ui {
            ctx: Context {
                zoom_factor_tenths: stepped_down(u1.ctx.zoom_factor_tenths),
                ..u1.ctx
            },
            menu_open: false,
            ..u1
        }
    } else {
        u1
    };
    if u2.ctx.zoom_factor_tenths != unit_zoom() && u2.reset_clicked {
        Ui { ctx: Context { zoom_factor_tenths: unit_zoom(), ..u2.ctx }, menu_open: false, ..u2 }
    } else {
        u2
    }
}

/// Shows the three zoom buttons of a menu: zoom in, zoom out, and reset
/// to one.
pub fn zoom_menu_buttons(ui: &mut Ui)
    ensures
        *final(ui) == menu_buttons_step(*old(ui)),
{
    if ui.ctx.zoom_factor() < 50 && ui.zoom_in_clicked {
        zoom_in(&mut ui.ctx);
        ui.menu_open = false;
    }

    if ui.ctx.zoom_factor() > 2 && ui.zoom_out_clicked {
        zoom_out(&mut ui.ctx);
        ui.menu_open = false;
    }

    if ui.ctx.zoom_factor() != 10 && ui.reset_clicked {
        ui.ctx.set_zoom_factor(10);
        ui.menu_open = false;
    }
}

} // verus!
