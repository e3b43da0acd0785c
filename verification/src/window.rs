//! One graphical window: its state snapshot, its scroll table, and its
//! identity inside the shared renderer.
//!
//! Every window is a distinct rendering document sharing one process-wide
//! renderer, so each carries a pipeline identifier, a document identifier and
//! a frame epoch. Platform windows are created hidden and shown only after
//! the first successful paint, which prevents a visible flash on startup.

use vstd::prelude::*;

use crate::diff::diff_window_state;
use crate::diff::spec_diff;
use crate::diff::synced;
use crate::diff::CommandModel;
use crate::diff::WindowCommand;
use crate::options::WindowCreateOptions;
use crate::scroll::ScrollState;
use crate::scroll::ScrollStates;
use crate::window_state::LogicalSize;
use crate::window_state::WindowSize;
use crate::window_state::WindowState;
use crate::window_state::WindowStateModel;

verus! {

/// Identifies one window's render tree within the shared renderer. The first
/// component is handed out by a process-wide sequence generator, so no two
/// windows of a process share a pipeline identifier.
#[derive(Clone, Copy, Debug, PartialEq, Eq, Structural)]
pub struct PipelineId(pub u32, pub u32);

/// Monotonic version counter for a window's submitted display list; the
/// renderer uses it to discard stale frames.
#[derive(Clone, Copy, Debug, PartialEq, Eq, Structural)]
pub struct Epoch(pub u32);

/// The renderer's handle for one window's document, opaque to this crate.
#[derive(Clone, Copy, Debug, PartialEq, Eq, Structural)]
pub struct DocumentId(pub u64);

/// Hands out process-unique, strictly increasing pipeline identifiers.
/// Owned by the shared display, and injected into window construction, so
/// that tests can construct deterministic identifiers.
#[derive(Clone, Copy, Debug, PartialEq, Eq, Structural)]
pub struct PipelineIdGenerator {
    /// The first component of the next identifier to hand out.
    pub next_id: u32,
}

impl PipelineIdGenerator {
    /// A generator that starts at zero.
    pub fn new() -> (r: PipelineIdGenerator)
        ensures
            r.next_id == 0,
    {
        PipelineIdGenerator { next_id: 0 }
    }

    /// The next identifier: each call returns a strictly larger first
    /// component than every earlier call, so identifiers never repeat.
    pub fn next_pipeline_id(&mut self) -> (r: PipelineId)
        requires
            old(self).next_id < u32::MAX,
        ensures
            r == PipelineId(old(self).next_id, 0),
            final(self).next_id == old(self).next_id + 1,
    {
        let id = PipelineId(self.next_id, 0);
        self.next_id = self.next_id + 1;
        id
    }
}

/// The window's identity inside the shared renderer.
#[derive(Clone, Copy, Debug, PartialEq, Eq, Structural)]
pub struct WindowInternal {
    /// Version counter of the last submitted display list.
    pub epoch: Epoch,
    /// This window's pipeline within the shared renderer.
    pub pipeline_id: PipelineId,
    /// The renderer's handle for this window's document.
    pub document_id: DocumentId,
}

/// What the platform reported since the last frame: a new inner size, a new
/// DPI factor, or neither.
#[derive(Clone, Copy, Debug, PartialEq, Eq, Structural)]
pub struct FrameEventInfo {
    /// The new inner size, if the window was resized.
    pub new_window_size: Option<LogicalSize>,
    /// The new DPI factor in thousandths, if the window changed monitors or
    /// the monitor changed scale.
    pub new_dpi_factor: Option<u32>,
    /// Whether the coming frame must be redrawn.
    pub should_redraw_window: bool,
}

/// One graphical window.
pub struct Window {
    /// The options the window was created with; kept because the window is
    /// hidden until its first paint, which needs them again.
    pub create_options: WindowCreateOptions,
    /// The last state pushed to the platform. The application never writes
    /// this directly: it hands a desired state to
    /// `update_from_user_window_state`, and the diff engine converges the
    /// platform window and this snapshot together.
    pub state: WindowState,
    /// Per-scroll-node offsets, reconciled every frame.
    pub scroll_states: ScrollStates,
    /// The window's identity inside the shared renderer.
    pub internal: WindowInternal,
}

/// The platform calls that realize a fresh window's initial state, in the
/// order they must be performed: fullscreen first if asked for, then the
/// pinned position if any, then either maximization or (for a plain window)
/// the requested inner size. A fullscreen window takes neither a
/// maximization nor an inner size, its monitor dictates both.
pub open spec fn spec_creation_commands(s: WindowStateModel) -> Seq<CommandModel> {
    (if s.is_fullscreen {
        seq![CommandModel::SetFullscreen(true)]
    } else {
        Seq::<CommandModel>::empty()
    }) + (match s.position {
        Some(p) => seq![CommandModel::SetPosition(p)],
        None => Seq::<CommandModel>::empty(),
    }) + (if s.is_maximized && !s.is_fullscreen {
        seq![CommandModel::SetMaximized(true)]
    } else if !s.is_fullscreen {
        seq![CommandModel::SetInnerSize(s.size.dimensions)]
    } else {
        Seq::<CommandModel>::empty()
    })
}

/// The platform calls that bring a freshly created (still hidden) platform
/// window to the given initial state.
pub fn creation_commands(state: &WindowState) -> (cmds: Vec<WindowCommand>)
    ensures
        cmds.deep_view() == spec_creation_commands(state@),
{
    let mut cmds: Vec<WindowCommand> = Vec::new();
    if state.is_fullscreen {
        cmds.push(WindowCommand::SetFullscreen(true));
    }
    if let Some(pos) = state.position {
        cmds.push(WindowCommand::SetPosition(pos));
    }
    if state.is_maximized && !state.is_fullscreen {
        cmds.push(WindowCommand::SetMaximized(true));
    } else if !state.is_fullscreen {
        cmds.push(WindowCommand::SetInnerSize(state.size.dimensions));
    }
    proof {
        assert(cmds.deep_view() =~= spec_creation_commands(state@));
    }
    cmds
}

impl Window {
    /// The scroll table's keys are unique and its offsets inside bounds.
    pub open spec fn wf(&self) -> bool {
        self.scroll_states.wf()
    }

    /// Assembles a window around a freshly created (still hidden) platform
    /// window: the snapshot starts from the requested state with the DPI
    /// factors the platform resolved, the scroll table starts empty, the
    /// epoch starts at zero, and the window takes the next process-unique
    /// pipeline identifier together with the document the renderer opened
    /// for it.
    pub fn new(
        options: WindowCreateOptions,
        hidpi_factor: u32,
        winit_hidpi_factor: u32,
        document_id: DocumentId,
        pipeline_ids: &mut PipelineIdGenerator,
    ) -> (r: Window)
        requires
            old(pipeline_ids).next_id < u32::MAX,
        ensures
            r.wf(),
            r.state@ == (WindowStateModel {
                size: WindowSize {
                    hidpi_factor: hidpi_factor,
                    winit_hidpi_factor: winit_hidpi_factor,
                    ..options.state@.size
                },
                ..options.state@
            }),
            r.scroll_states@ == Map::<u64, ScrollState>::empty(),
            r.internal == (WindowInternal {
                epoch: Epoch(0),
                pipeline_id: PipelineId(old(pipeline_ids).next_id, 0),
                document_id: document_id,
            }),
            r.create_options == options,
            final(pipeline_ids).next_id == old(pipeline_ids).next_id + 1,
    {
        let mut state = options.state.clone();
        state.size.hidpi_factor = hidpi_factor;
        state.size.winit_hidpi_factor = winit_hidpi_factor;
        let pipeline_id = pipeline_ids.next_pipeline_id();
        Window {
            create_options: options,
            state,
            scroll_states: ScrollStates::new(),
            internal: WindowInternal { epoch: Epoch(0), pipeline_id, document_id },
        }
    }

    /// Diffs the last-applied state against the state the application wants,
    /// updates the snapshot to the converged state, and returns the platform
    /// calls that make the native window match. Equal states leave the
    /// snapshot alone and return no call; position, inner size, DPI and
    /// scroll telemetry are never pushed outward through this path.
    pub fn update_from_user_window_state(&mut self, new_state: WindowState) -> (cmds: Vec<
        WindowCommand,
    >)
        ensures
            cmds.deep_view() == spec_diff(old(self).state@, new_state@),
            final(self).state@ == synced(old(self).state@, new_state@),
            final(self).scroll_states == old(self).scroll_states,
            final(self).internal == old(self).internal,
            final(self).create_options == old(self).create_options,
    {
        let cmds = diff_window_state(&self.state, &new_state);
        self.state.title = new_state.title;
        self.state.mouse_state.mouse_cursor_type = new_state.mouse_state.mouse_cursor_type;
        self.state.is_maximized = new_state.is_maximized;
        self.state.is_fullscreen = new_state.is_fullscreen;
        self.state.has_decorations = new_state.has_decorations;
        self.state.is_visible = new_state.is_visible;
        self.state.size.min_dimensions = new_state.size.min_dimensions;
        self.state.size.max_dimensions = new_state.size.max_dimensions;
        cmds
    }

    /// Folds platform-reported geometry into the snapshot: a reported resize
    /// replaces the inner dimensions, a reported DPI change replaces the
    /// window system's factor and forces a redraw, and whenever either was
    /// reported the toolkit's own factor is refreshed from the platform's
    /// current answer (`queried_hidpi_factor`). These fields flow inward
    /// only; the diff engine never pushes them back.
    pub fn update_from_external_window_state(
        &mut self,
        frame_event_info: &mut FrameEventInfo,
        queried_hidpi_factor: u32,
    )
        ensures
            final(self).state@ == (WindowStateModel {
                size: WindowSize {
                    hidpi_factor: if old(frame_event_info).new_window_size is Some
                        || old(frame_event_info).new_dpi_factor is Some {
                        queried_hidpi_factor
                    } else {
                        old(self).state@.size.hidpi_factor
                    },
                    dimensions: match old(frame_event_info).new_window_size {
                        Some(sz) => sz,
                        None => old(self).state@.size.dimensions,
                    },
                    winit_hidpi_factor: match old(frame_event_info).new_dpi_factor {
                        Some(dpi) => dpi,
                        None => old(self).state@.size.winit_hidpi_factor,
                    },
                    ..old(self).state@.size
                },
                ..old(self).state@
            }),
            *final(frame_event_info) == (FrameEventInfo {
                should_redraw_window: old(frame_event_info).should_redraw_window || old(
                    frame_event_info,
                ).new_dpi_factor is Some,
                ..*old(frame_event_info)
            }),
            final(self).scroll_states == old(self).scroll_states,
            final(self).internal == old(self).internal,
            final(self).create_options == old(self).create_options,
    {
        if frame_event_info.new_window_size.is_some() || frame_event_info.new_dpi_factor.is_some()
        {
            self.state.size.hidpi_factor = queried_hidpi_factor;
        }
        if let Some(new_size) = frame_event_info.new_window_size {
            self.state.size.dimensions = new_size;
        }
        if let Some(dpi) = frame_event_info.new_dpi_factor {
            self.state.size.winit_hidpi_factor = dpi;
            frame_event_info.should_redraw_window = true;
        }
    }

    /// Clears the per-frame scroll delta accumulators, so that next frame
    /// they hold only that frame's input, not history. Run once at frame end.
    pub fn clear_scroll_state(&mut self)
        ensures
            final(self).state@ == (WindowStateModel {
                mouse_state: crate::window_state::MouseState {
                    scroll_x: 0,
                    scroll_y: 0,
                    ..old(self).state@.mouse_state
                },
                ..old(self).state@
            }),
            final(self).scroll_states == old(self).scroll_states,
            final(self).internal == old(self).internal,
            final(self).create_options == old(self).create_options,
    {
        self.state.mouse_state.scroll_x = 0;
        self.state.mouse_state.scroll_y = 0;
    }
}

} // verus!
