use azul_window::context::RendererChoice;
use azul_window::display::FakeDisplay;
use azul_window::window::creation_commands;
use azul_window::window::DocumentId;
use azul_window::window::Epoch;
use azul_window::window::FrameEventInfo;
use azul_window::window::PipelineId;
use azul_window::window::PipelineIdGenerator;
use azul_window::window::Window;
use azul_window::diff::WindowCommand;
use azul_window::window_state::LogicalSize;
use azul_window::window_state::WindowPosition;
use azul_window::MouseMode;
use azul_window::RendererType;
use azul_window::UpdateBehaviour;
use azul_window::UpdateMode;
use azul_window::WindowCreateError;
use azul_window::WindowCreateOptions;
use azul_window::WindowMonitorTarget;
use azul_window::WindowState;

#[test]
fn new_window_takes_the_resolved_dpi_and_a_fresh_identity() {
    let mut ids = PipelineIdGenerator::new();
    let w = Window::new(WindowCreateOptions::default(), 1250, 1500, DocumentId(7), &mut ids);
    assert_eq!(w.state.size.hidpi_factor, 1250);
    assert_eq!(w.state.size.winit_hidpi_factor, 1500);
    assert!(!w.state.is_visible);
    assert_eq!(w.internal.epoch, Epoch(0));
    assert_eq!(w.internal.pipeline_id, PipelineId(0, 0));
    assert_eq!(w.internal.document_id, DocumentId(7));
}

#[test]
fn pipeline_identifiers_are_unique_and_increasing() {
    let mut ids = PipelineIdGenerator::new();
    let first = Window::new(WindowCreateOptions::default(), 1000, 1000, DocumentId(1), &mut ids);
    let second = Window::new(WindowCreateOptions::default(), 1000, 1000, DocumentId(2), &mut ids);
    assert_eq!(first.internal.pipeline_id, PipelineId(0, 0));
    assert_eq!(second.internal.pipeline_id, PipelineId(1, 0));
    assert_eq!(ids.next_pipeline_id(), PipelineId(2, 0));
}

#[test]
fn creation_commands_size_a_plain_window() {
    let state = WindowState::default();
    let cmds = creation_commands(&state);
    assert_eq!(
        cmds,
        vec![WindowCommand::SetInnerSize(LogicalSize { width: 800, height: 600 })]
    );
}

#[test]
fn creation_commands_for_a_fullscreen_window() {
    let mut state = WindowState::default();
    state.is_fullscreen = true;
    // Fullscreen dictates size and maximization; only the mode switch is sent.
    assert_eq!(creation_commands(&state), vec![WindowCommand::SetFullscreen(true)]);
}

#[test]
fn creation_commands_for_a_maximized_pinned_window() {
    let mut state = WindowState::default();
    state.is_maximized = true;
    state.position = Some(WindowPosition { x: 40, y: 50 });
    assert_eq!(
        creation_commands(&state),
        vec![
            WindowCommand::SetPosition(WindowPosition { x: 40, y: 50 }),
            WindowCommand::SetMaximized(true),
        ]
    );
}

#[test]
fn external_resize_and_dpi_change_flow_into_the_snapshot() {
    let mut ids = PipelineIdGenerator::new();
    let mut w = Window::new(WindowCreateOptions::default(), 1000, 1000, DocumentId(1), &mut ids);
    let mut info = FrameEventInfo {
        new_window_size: Some(LogicalSize { width: 640, height: 480 }),
        new_dpi_factor: Some(2000),
        should_redraw_window: false,
    };
    w.update_from_external_window_state(&mut info, 1750);
    assert_eq!(w.state.size.dimensions, LogicalSize { width: 640, height: 480 });
    assert_eq!(w.state.size.winit_hidpi_factor, 2000);
    assert_eq!(w.state.size.hidpi_factor, 1750);
    assert!(info.should_redraw_window);
}

#[test]
fn no_external_event_leaves_the_snapshot_alone() {
    let mut ids = PipelineIdGenerator::new();
    let mut w = Window::new(WindowCreateOptions::default(), 1000, 1000, DocumentId(1), &mut ids);
    let mut info = FrameEventInfo {
        new_window_size: None,
        new_dpi_factor: None,
        should_redraw_window: false,
    };
    w.update_from_external_window_state(&mut info, 9999);
    assert_eq!(w.state.size.dimensions, LogicalSize { width: 800, height: 600 });
    assert_eq!(w.state.size.hidpi_factor, 1000);
    assert_eq!(w.state.size.winit_hidpi_factor, 1000);
    assert!(!info.should_redraw_window);
}

#[test]
fn clear_scroll_state_resets_the_frame_accumulators() {
    let mut ids = PipelineIdGenerator::new();
    let mut w = Window::new(WindowCreateOptions::default(), 1000, 1000, DocumentId(1), &mut ids);
    w.state.mouse_state.scroll_x = 12;
    w.state.mouse_state.scroll_y = -7;
    w.clear_scroll_state();
    assert_eq!(w.state.mouse_state.scroll_x, 0);
    assert_eq!(w.state.mouse_state.scroll_y, 0);
}

#[test]
fn window_scroll_table_starts_empty_and_reconciles() {
    let mut ids = PipelineIdGenerator::new();
    let mut w = Window::new(WindowCreateOptions::default(), 1000, 1000, DocumentId(1), &mut ids);
    assert_eq!(w.scroll_states.get_scroll_amount(1), None);
    w.scroll_states.ensure_initialized_scroll_state(1, 100, 50);
    w.scroll_states.scroll_node(1, 30, 80);
    assert_eq!(w.scroll_states.get_scroll_amount(1), Some((30, 50)));
}

#[test]
fn display_prefers_hardware_and_falls_back() {
    let d = FakeDisplay::new(RendererType::Default, true, true).unwrap();
    assert_eq!(d.renderer, Some(RendererChoice::Hardware));
    assert_eq!(d.pipeline_ids.next_id, 0);
    let d = FakeDisplay::new(RendererType::Default, false, true).unwrap();
    assert_eq!(d.renderer, Some(RendererChoice::Software));
}

#[test]
fn display_construction_fails_whole_or_not_at_all() {
    let r = FakeDisplay::new(RendererType::Hardware, false, true);
    assert!(matches!(r, Err(WindowCreateError::DisplayCreationFailed)));
    let r = FakeDisplay::new(RendererType::Default, false, false);
    assert!(matches!(r, Err(WindowCreateError::DisplayCreationFailed)));
}

#[test]
fn display_teardown_releases_the_renderer_once() {
    let mut d = FakeDisplay::new(RendererType::Software, false, true).unwrap();
    assert!(d.renderer.is_some());
    let released = d.deinit();
    assert_eq!(released, RendererChoice::Software);
    assert!(d.renderer.is_none());
}

#[test]
fn option_defaults_match_the_documented_ones() {
    let o = WindowCreateOptions::default();
    assert_eq!(o.renderer_type, RendererType::Default);
    assert_eq!(o.update_mode, UpdateMode::Retained);
    assert_eq!(o.mouse_mode, MouseMode::Normal);
    assert_eq!(o.update_behaviour, UpdateBehaviour::UpdateOnHover);
    assert!(matches!(o.monitor, WindowMonitorTarget::Primary));
    assert!(o.window_icon.is_none());
    assert!(o.taskbar_icon.is_none());
    assert!(!o.no_redirection_bitmap);
    assert_eq!(o.background.r, 255);
    assert!(o.clear_stencil.is_none());
    assert!(o.clear_depth.is_none());
    assert_eq!(RendererType::default(), RendererType::Default);
    assert_eq!(UpdateMode::default(), UpdateMode::Retained);
    assert_eq!(MouseMode::default(), MouseMode::Normal);
    assert_eq!(UpdateBehaviour::default(), UpdateBehaviour::UpdateOnHover);
}

#[test]
fn fixed_update_mode_carries_its_interval() {
    let m = UpdateMode::FixedUpdate(16);
    assert!(matches!(m, UpdateMode::FixedUpdate(16)));
    assert_ne!(m, UpdateMode::Retained);
}

#[test]
fn default_window_state_is_hidden_and_decorated() {
    let s = WindowState::default();
    assert_eq!(s.title, String::new());
    assert!(!s.is_visible);
    assert!(s.has_decorations);
    assert!(!s.is_fullscreen);
    assert!(!s.is_maximized);
    assert!(s.position.is_none());
}
