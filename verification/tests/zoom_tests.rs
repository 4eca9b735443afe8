use egui_winit::zoom::{Context, Ui};
use egui_winit::{zoom_in, zoom_menu_buttons, zoom_out, zoom_with_keyboard};

fn ctx_at(tenths: u32) -> Context {
    Context {
        zoom_factor_tenths: tenths,
        zoom_in_pressed: false,
        zoom_out_pressed: false,
        zoom_reset_pressed: false,
    }
}

#[test]
fn zoom_steps_by_a_tenth() {
    let mut ctx = ctx_at(10);
    zoom_in(&mut ctx);
    assert_eq!(ctx.zoom_factor_tenths, 11);
    zoom_out(&mut ctx);
    zoom_out(&mut ctx);
    assert_eq!(ctx.zoom_factor_tenths, 9);
}

#[test]
fn zoom_is_clamped_to_the_allowed_range() {
    let mut ctx = ctx_at(50);
    zoom_in(&mut ctx);
    assert_eq!(ctx.zoom_factor_tenths, 50);
    let mut ctx = ctx_at(2);
    zoom_out(&mut ctx);
    assert_eq!(ctx.zoom_factor_tenths, 2);
    let mut ctx = ctx_at(0);
    zoom_out(&mut ctx);
    assert_eq!(ctx.zoom_factor_tenths, 2);
}

#[test]
fn keyboard_reset_takes_priority() {
    let mut ctx = Context {
        zoom_factor_tenths: 23,
        zoom_in_pressed: true,
        zoom_out_pressed: true,
        zoom_reset_pressed: true,
    };
    zoom_with_keyboard(&mut ctx);
    // Reset wins; the step shortcuts are not consumed.
    assert_eq!(ctx.zoom_factor_tenths, 10);
    assert!(!ctx.zoom_reset_pressed);
    assert!(ctx.zoom_in_pressed);
    assert!(ctx.zoom_out_pressed);
}

#[test]
fn keyboard_steps_in_and_out() {
    let mut ctx = Context { zoom_in_pressed: true, ..ctx_at(10) };
    zoom_with_keyboard(&mut ctx);
    assert_eq!(ctx.zoom_factor_tenths, 11);
    assert!(!ctx.zoom_in_pressed);

    // Both steps pressed cancel out.
    let mut ctx = Context { zoom_in_pressed: true, zoom_out_pressed: true, ..ctx_at(10) };
    zoom_with_keyboard(&mut ctx);
    assert_eq!(ctx.zoom_factor_tenths, 10);

    let mut ctx = ctx_at(10);
    zoom_with_keyboard(&mut ctx);
    assert_eq!(ctx.zoom_factor_tenths, 10);
}

#[test]
fn menu_buttons_step_and_close() {
    let mut ui = Ui {
        ctx: ctx_at(10),
        zoom_in_clicked: true,
        zoom_out_clicked: false,
        reset_clicked: false,
        menu_open: true,
    };
    zoom_menu_buttons(&mut ui);
    assert_eq!(ui.ctx.zoom_factor_tenths, 11);
    assert!(!ui.menu_open);
}

#[test]
fn menu_buttons_are_disabled_at_the_limits() {
    // At the largest factor the zoom-in button is disabled.
    let mut ui = Ui {
        ctx: ctx_at(50),
        zoom_in_clicked: true,
        zoom_out_clicked: false,
        reset_clicked: false,
        menu_open: true,
    };
    zoom_menu_buttons(&mut ui);
    assert_eq!(ui.ctx.zoom_factor_tenths, 50);
    assert!(ui.menu_open);
    // At a factor of one the reset button is disabled.
    let mut ui = Ui {
        ctx: ctx_at(10),
        zoom_in_clicked: false,
        zoom_out_clicked: false,
        reset_clicked: true,
        menu_open: true,
    };
    zoom_menu_buttons(&mut ui);
    assert_eq!(ui.ctx.zoom_factor_tenths, 10);
    assert!(ui.menu_open);
}

#[test]
fn menu_reset_restores_unit_zoom() {
    let mut ui = Ui {
        ctx: ctx_at(37),
        zoom_in_clicked: false,
        zoom_out_clicked: false,
        reset_clicked: true,
        menu_open: true,
    };
    zoom_menu_buttons(&mut ui);
    assert_eq!(ui.ctx.zoom_factor_tenths, 10);
    assert!(!ui.menu_open);
}

#[test]
fn fresh_context_is_at_unit_zoom() {
    let ctx = Context::new();
    assert_eq!(ctx.zoom_factor(), 10);
    assert!(!ctx.zoom_in_pressed && !ctx.zoom_out_pressed && !ctx.zoom_reset_pressed);
}
