use azul_window::diff::diff_window_state;
use azul_window::diff::WindowCommand;
use azul_window::window::DocumentId;
use azul_window::window::PipelineIdGenerator;
use azul_window::window_state::LogicalSize;
use azul_window::window_state::MouseCursorType;
use azul_window::window_state::WindowPosition;
use azul_window::WindowCreateOptions;
use azul_window::WindowState;

fn test_window() -> azul_window::window::Window {
    let mut ids = PipelineIdGenerator::new();
    azul_window::window::Window::new(
        WindowCreateOptions::default(),
        1000,
        1000,
        DocumentId(1),
        &mut ids,
    )
}

#[test]
fn equal_states_emit_no_commands() {
    let old_state = WindowState::default();
    let new_state = WindowState::default();
    let cmds = diff_window_state(&old_state, &new_state);
    assert!(cmds.is_empty());
}

#[test]
fn single_differing_field_emits_exactly_one_command() {
    let old_state = WindowState::default();
    let mut new_state = WindowState::default();
    new_state.is_visible = true;
    let cmds = diff_window_state(&old_state, &new_state);
    assert_eq!(cmds, vec![WindowCommand::SetVisible(true)]);
}

#[test]
fn title_change_emits_set_title() {
    let old_state = WindowState::default();
    let mut new_state = WindowState::default();
    new_state.title = String::from("hello");
    let cmds = diff_window_state(&old_state, &new_state);
    assert_eq!(cmds, vec![WindowCommand::SetTitle(String::from("hello"))]);
}

#[test]
fn commands_come_in_the_fixed_field_order() {
    let old_state = WindowState::default();
    let mut new_state = WindowState::default();
    new_state.title = String::from("t");
    new_state.mouse_state.mouse_cursor_type = MouseCursorType::Hand;
    new_state.is_maximized = true;
    new_state.is_fullscreen = true;
    new_state.has_decorations = false;
    new_state.is_visible = true;
    new_state.size.min_dimensions = Some(LogicalSize { width: 1, height: 2 });
    new_state.size.max_dimensions = Some(LogicalSize { width: 3, height: 4 });
    let cmds = diff_window_state(&old_state, &new_state);
    assert_eq!(
        cmds,
        vec![
            WindowCommand::SetTitle(String::from("t")),
            WindowCommand::SetMouseCursor(MouseCursorType::Hand),
            WindowCommand::SetMaximized(true),
            WindowCommand::SetFullscreen(true),
            WindowCommand::SetDecorations(false),
            WindowCommand::SetVisible(true),
            WindowCommand::SetMinDimensions(Some(LogicalSize { width: 1, height: 2 })),
            WindowCommand::SetMaxDimensions(Some(LogicalSize { width: 3, height: 4 })),
        ]
    );
}

#[test]
fn telemetry_fields_are_never_diffed() {
    let old_state = WindowState::default();
    let mut new_state = WindowState::default();
    // Position, inner size, DPI factors and scroll deltas are read-only
    // telemetry; changing them must not produce any platform call.
    new_state.position = Some(WindowPosition { x: 10, y: 20 });
    new_state.size.dimensions = LogicalSize { width: 1, height: 1 };
    new_state.size.hidpi_factor = 2000;
    new_state.size.winit_hidpi_factor = 2000;
    new_state.mouse_state.scroll_x = 5;
    new_state.mouse_state.scroll_y = 5;
    let cmds = diff_window_state(&old_state, &new_state);
    assert!(cmds.is_empty());
}

#[test]
fn diff_twice_emits_nothing_the_second_time() {
    let mut w = test_window();
    let mut desired = WindowState::default();
    desired.title = String::from("second frame");
    desired.is_visible = true;
    desired.size.min_dimensions = Some(LogicalSize { width: 5, height: 5 });
    let first = w.update_from_user_window_state(desired.clone());
    assert_eq!(first.len(), 3);
    let second = w.update_from_user_window_state(desired);
    assert!(second.is_empty());
}

#[test]
fn update_synchronizes_tracked_fields_and_keeps_telemetry() {
    let mut w = test_window();
    let before_dimensions = w.state.size.dimensions;
    let mut desired = WindowState::default();
    desired.title = String::from("synced");
    desired.is_maximized = true;
    desired.size.dimensions = LogicalSize { width: 9999, height: 9999 };
    let _ = w.update_from_user_window_state(desired);
    assert_eq!(w.state.title, String::from("synced"));
    assert!(w.state.is_maximized);
    // The snapshot's inner size is platform telemetry and stays put.
    assert_eq!(w.state.size.dimensions, before_dimensions);
}

#[test]
fn mouse_cursor_change_emits_set_mouse_cursor() {
    let old_state = WindowState::default();
    let mut new_state = WindowState::default();
    new_state.mouse_state.mouse_cursor_type = MouseCursorType::Wait;
    let cmds = diff_window_state(&old_state, &new_state);
    assert_eq!(cmds, vec![WindowCommand::SetMouseCursor(MouseCursorType::Wait)]);
}

#[test]
fn clearing_a_size_bound_emits_the_unset_command() {
    let mut old_state = WindowState::default();
    old_state.size.max_dimensions = Some(LogicalSize { width: 100, height: 100 });
    let new_state = WindowState::default();
    let cmds = diff_window_state(&old_state, &new_state);
    assert_eq!(cmds, vec![WindowCommand::SetMaxDimensions(None)]);
}
