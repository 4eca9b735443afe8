use egui_winit::changes_between_builders;
use egui_winit::viewport::{IconData, ViewportBuilder, ViewportCommand};
use egui_winit::window_creation_settings;

fn bare_builder() -> ViewportBuilder {
    ViewportBuilder {
        title: None,
        position: None,
        inner_size: None,
        min_inner_size: None,
        max_inner_size: None,
        fullscreen: None,
        minimized: None,
        maximized: None,
        resizable: None,
        transparent: None,
        decorations: None,
        icon: None,
        visible: None,
        hittest: None,
        active: None,
        close_button: None,
        minimize_button: None,
        maximize_button: None,
        title_hidden: None,
        titlebar_transparent: None,
        fullsize_content_view: None,
        drag_and_drop: None,
    }
}

fn icon(id: u64, bytes: &[u8]) -> IconData {
    IconData { id, width: 1, height: 1, rgba: bytes.to_vec() }
}

#[test]
fn size_and_title_changes_emit_in_field_order() {
    // previous = {size: (800, 600)}, desired = {size: (1024, 768),
    // title: "X"}: exactly a resize and a title command, in that order,
    // and no recreation.
    let mut previous = ViewportBuilder {
        inner_size: Some(Some((800, 600))),
        ..bare_builder()
    };
    let desired = ViewportBuilder {
        inner_size: Some(Some((1024, 768))),
        title: Some("X".to_string()),
        ..bare_builder()
    };
    let (commands, recreate) = changes_between_builders(&desired, &mut previous);
    assert_eq!(
        commands,
        vec![ViewportCommand::InnerSize(1024, 768), ViewportCommand::Title("X".to_string())]
    );
    assert!(!recreate);
}

#[test]
fn reconciliation_is_idempotent() {
    let mut previous = bare_builder();
    let desired = ViewportBuilder {
        position: Some(Some((5, 6))),
        inner_size: Some(Some((640, 480))),
        fullscreen: Some(true),
        decorations: Some(false),
        visible: Some(true),
        title: Some("hello".to_string()),
        close_button: Some(false),
        ..bare_builder()
    };
    let (commands, recreate) = changes_between_builders(&desired, &mut previous);
    assert!(!commands.is_empty());
    assert!(recreate);
    // A second reconciliation with the same desired configuration emits
    // nothing at all.
    let (commands, recreate) = changes_between_builders(&desired, &mut previous);
    assert!(commands.is_empty());
    assert!(!recreate);
}

#[test]
fn unspecified_fields_are_left_alone() {
    let mut previous = ViewportBuilder {
        fullscreen: Some(true),
        visible: Some(false),
        ..bare_builder()
    };
    let desired = bare_builder();
    let (commands, recreate) = changes_between_builders(&desired, &mut previous);
    assert!(commands.is_empty());
    assert!(!recreate);
    assert_eq!(previous.fullscreen, Some(true));
    assert_eq!(previous.visible, Some(false));
}

#[test]
fn creation_only_fields_set_the_recreate_flag() {
    let mut previous = bare_builder();
    let desired = ViewportBuilder { title_hidden: Some(true), ..bare_builder() };
    let (commands, recreate) = changes_between_builders(&desired, &mut previous);
    assert!(commands.is_empty());
    assert!(recreate);
    assert_eq!(previous.title_hidden, Some(true));
}

#[test]
fn icons_are_compared_by_identity_token() {
    // Same token, different bytes: treated as the same shared icon, so
    // no command is emitted and no bytes are compared.
    let mut previous = ViewportBuilder {
        icon: Some(Some(icon(1, &[1, 2, 3]))),
        ..bare_builder()
    };
    let desired = ViewportBuilder {
        icon: Some(Some(icon(1, &[9, 9, 9]))),
        ..bare_builder()
    };
    let (commands, _) = changes_between_builders(&desired, &mut previous);
    assert!(commands.is_empty());
    // A different token emits the icon command.
    let desired = ViewportBuilder {
        icon: Some(Some(icon(2, &[4, 5, 6]))),
        ..bare_builder()
    };
    let (commands, _) = changes_between_builders(&desired, &mut previous);
    assert_eq!(commands, vec![ViewportCommand::WindowIcon(Some(icon(2, &[4, 5, 6])))]);
}

#[test]
fn clearing_the_icon_emits_once() {
    let mut previous = ViewportBuilder {
        icon: Some(Some(icon(1, &[1]))),
        ..bare_builder()
    };
    let desired = ViewportBuilder { icon: Some(None), ..bare_builder() };
    let (commands, _) = changes_between_builders(&desired, &mut previous);
    assert_eq!(commands, vec![ViewportCommand::WindowIcon(None)]);
    let (commands, _) = changes_between_builders(&desired, &mut previous);
    assert!(commands.is_empty());
}

#[test]
fn clearing_position_updates_without_command() {
    let mut previous = ViewportBuilder {
        position: Some(Some((10, 10))),
        ..bare_builder()
    };
    let desired = ViewportBuilder { position: Some(None), ..bare_builder() };
    let (commands, _) = changes_between_builders(&desired, &mut previous);
    assert!(commands.is_empty());
    assert_eq!(previous.position, Some(None));
}

#[test]
fn creation_settings_resolve_defaults() {
    let settings = window_creation_settings(&bare_builder());
    assert_eq!(settings.title, "");
    assert!(!settings.transparent);
    assert!(!settings.decorations);
    assert!(!settings.resizable);
    assert!(!settings.visible);
    assert!(!settings.maximized);
    assert!(!settings.fullscreen);
    assert!(!settings.close_button);
    assert_eq!(settings.inner_size, None);
    assert_eq!(settings.position, None);
    assert_eq!(settings.icon, None);
}

#[test]
fn creation_settings_take_explicit_values() {
    let builder = ViewportBuilder {
        title: Some("win".to_string()),
        transparent: Some(true),
        resizable: Some(true),
        close_button: Some(true),
        minimize_button: Some(false),
        inner_size: Some(Some((320, 200))),
        min_inner_size: Some(None),
        position: Some(Some((-5, 7))),
        icon: Some(Some(icon(3, &[8]))),
        drag_and_drop: Some(true),
        ..bare_builder()
    };
    let settings = window_creation_settings(&builder);
    assert_eq!(settings.title, "win");
    assert!(settings.transparent);
    assert!(settings.resizable);
    assert!(settings.close_button);
    assert!(!settings.minimize_button);
    assert_eq!(settings.inner_size, Some((320, 200)));
    assert_eq!(settings.min_inner_size, None);
    assert_eq!(settings.position, Some((-5, 7)));
    assert_eq!(settings.icon, Some(icon(3, &[8])));
    assert_eq!(settings.drag_and_drop, Some(true));
}
