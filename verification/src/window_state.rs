//! The externally observable window properties that the diff engine tracks,
//! together with the per-frame input telemetry that it deliberately leaves
//! alone.
//!
//! Lengths are logical pixels as integers; DPI factors are fixed-point
//! thousandths of the logical-to-physical ratio, so that the platform layer's
//! fractional scale factors round-trip without floating point in the library.

use vstd::prelude::*;

verus! {

/// The shape of the mouse cursor that the platform should show.
#[derive(Clone, Copy, Debug, PartialEq, Eq, Structural)]
pub enum MouseCursorType {
    Default,
    Crosshair,
    Hand,
    Arrow,
    Move,
    Text,
    Wait,
    Help,
    Progress,
    NotAllowed,
    ContextMenu,
    VerticalText,
}

/// A size in whole logical pixels.
#[derive(Clone, Copy, Debug, PartialEq, Eq, Structural)]
pub struct LogicalSize {
    pub width: u32,
    pub height: u32,
}

/// A window position in whole logical pixels, relative to the desktop origin.
#[derive(Clone, Copy, Debug, PartialEq, Eq, Structural)]
pub struct WindowPosition {
    pub x: i64,
    pub y: i64,
}

/// A DPI scale factor in thousandths (`1000` is a 1:1 logical-to-physical
/// mapping).
pub const DPI_SCALE_ONE: u32 = 1000;

/// The window's geometry: its current dimensions, the bounds the application
/// asked for, and the two DPI factors (the toolkit's own resolved factor and
/// the one the window system reported).
#[derive(Clone, Copy, Debug, PartialEq, Eq, Structural)]
pub struct WindowSize {
    /// Current inner dimensions, as last reported by the platform.
    pub dimensions: LogicalSize,
    /// Smallest inner dimensions the window may take, if constrained.
    pub min_dimensions: Option<LogicalSize>,
    /// Largest inner dimensions the window may take, if constrained.
    pub max_dimensions: Option<LogicalSize>,
    /// DPI factor the toolkit resolved for layout, in thousandths.
    pub hidpi_factor: u32,
    /// DPI factor the window system reported, in thousandths.
    pub winit_hidpi_factor: u32,
}

impl Default for WindowSize {
    /// An unconstrained window of 800 x 600 logical pixels at a 1:1 DPI scale.
    fn default() -> (r: WindowSize)
        ensures
            r == (WindowSize {
                dimensions: LogicalSize { width: 800, height: 600 },
                min_dimensions: None,
                max_dimensions: None,
                hidpi_factor: DPI_SCALE_ONE,
                winit_hidpi_factor: DPI_SCALE_ONE,
            }),
    {
        WindowSize {
            dimensions: LogicalSize { width: 800, height: 600 },
            min_dimensions: None,
            max_dimensions: None,
            hidpi_factor: DPI_SCALE_ONE,
            winit_hidpi_factor: DPI_SCALE_ONE,
        }
    }
}

/// Mouse telemetry the platform feeds in each frame: the cursor shape the
/// application wants, and the scroll deltas accumulated during the current
/// frame (in scroll units, cleared at frame end).
#[derive(Clone, Copy, Debug, PartialEq, Eq, Structural)]
pub struct MouseState {
    /// Cursor shape the application wants shown.
    pub mouse_cursor_type: MouseCursorType,
    /// Horizontal scroll delta accumulated this frame.
    pub scroll_x: i64,
    /// Vertical scroll delta accumulated this frame.
    pub scroll_y: i64,
}

impl Default for MouseState {
    /// The default cursor with no scroll input yet.
    fn default() -> (r: MouseState)
        ensures
            r == (MouseState {
                mouse_cursor_type: MouseCursorType::Default,
                scroll_x: 0,
                scroll_y: 0,
            }),
    {
        MouseState { mouse_cursor_type: MouseCursorType::Default, scroll_x: 0, scroll_y: 0 }
    }
}

/// Snapshot of all externally observable window properties. A `Window` keeps
/// one for the last state it pushed to the platform; the application hands in
/// a desired one, and the diff engine converges the two.
pub struct WindowState {
    /// The title shown in the window bar.
    pub title: String,
    /// Geometry and DPI factors.
    pub size: WindowSize,
    /// Desired position, if the application pinned one.
    pub position: Option<WindowPosition>,
    /// Whether the window covers its monitor.
    pub is_fullscreen: bool,
    /// Whether the window is maximized.
    pub is_maximized: bool,
    /// Whether the window is shown at all.
    pub is_visible: bool,
    /// Whether the platform draws a title bar and borders.
    pub has_decorations: bool,
    /// Whether the window's background is composited transparently.
    pub is_transparent: bool,
    /// Per-frame mouse telemetry.
    pub mouse_state: MouseState,
}

/// The mathematical content of a `WindowState`: the same record with the
/// title as a sequence of characters.
pub ghost struct WindowStateModel {
    pub title: Seq<char>,
    pub size: WindowSize,
    pub position: Option<WindowPosition>,
    pub is_fullscreen: bool,
    pub is_maximized: bool,
    pub is_visible: bool,
    pub has_decorations: bool,
    pub is_transparent: bool,
    pub mouse_state: MouseState,
}

impl View for WindowState {
    type V = WindowStateModel;

    open spec fn view(&self) -> WindowStateModel {
        WindowStateModel {
            title: self.title@,
            size: self.size,
            position: self.position,
            is_fullscreen: self.is_fullscreen,
            is_maximized: self.is_maximized,
            is_visible: self.is_visible,
            has_decorations: self.has_decorations,
            is_transparent: self.is_transparent,
            mouse_state: self.mouse_state,
        }
    }
}

impl Clone for WindowState {
    /// An exact copy, field for field.
    fn clone(&self) -> (r: WindowState)
        ensures
            r@ == self@,
    {
        WindowState {
            title: self.title.clone(),
            size: self.size,
            position: self.position,
            is_fullscreen: self.is_fullscreen,
            is_maximized: self.is_maximized,
            is_visible: self.is_visible,
            has_decorations: self.has_decorations,
            is_transparent: self.is_transparent,
            mouse_state: self.mouse_state,
        }
    }
}

/// The state every window starts from: an untitled, decorated, windowed
/// surface of 800 x 600 logical pixels at a 1:1 DPI scale, hidden until the
/// first successful paint.
pub open spec fn default_window_state_model() -> WindowStateModel {
    WindowStateModel {
        title: Seq::<char>::empty(),
        size: WindowSize {
            dimensions: LogicalSize { width: 800, height: 600 },
            min_dimensions: None,
            max_dimensions: None,
            hidpi_factor: DPI_SCALE_ONE,
            winit_hidpi_factor: DPI_SCALE_ONE,
        },
        position: None,
        is_fullscreen: false,
        is_maximized: false,
        is_visible: false,
        has_decorations: true,
        is_transparent: false,
        mouse_state: MouseState {
            mouse_cursor_type: MouseCursorType::Default,
            scroll_x: 0,
            scroll_y: 0,
        },
    }
}

impl Default for WindowState {
    /// A hidden-by-default snapshot: an untitled, decorated, windowed surface
    /// that becomes visible only after the first successful paint.
    fn default() -> (r: WindowState)
        ensures
            r@ == default_window_state_model(),
    {
        WindowState {
            title: String::new(),
            size: WindowSize::default(),
            position: None,
            is_fullscreen: false,
            is_maximized: false,
            is_visible: false,
            has_decorations: true,
            is_transparent: false,
            mouse_state: MouseState::default(),
        }
    }
}

} // verus!
