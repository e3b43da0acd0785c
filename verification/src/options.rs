//! Options that shape how a window is created, and the small enumerations
//! they are built from.

use vstd::prelude::*;

use crate::window_state::WindowState;
use crate::window_state::WindowStateModel;

verus! {

/// Which renderer to use.
///
/// With `Default` the toolkit tries the hardware renderer and falls back to
/// the software renderer when the hardware one cannot be created. A forced
/// `Hardware` or `Software` never falls back: the caller explicitly rejected
/// the alternative, so a failure there aborts window creation outright.
#[derive(Clone, Copy, Debug, PartialEq, Eq, Structural)]
pub enum RendererType {
    Default,
    Hardware,
    Software,
}

impl Default for RendererType {
    /// Hardware with software fallback.
    fn default() -> (r: RendererType)
        ensures
            r == RendererType::Default,
    {
        RendererType::Default
    }
}

/// Should the window be redrawn only while the mouse cursor hovers over it?
#[derive(Clone, Copy, Debug, PartialEq, Eq, Structural)]
pub enum UpdateBehaviour {
    /// Redraw only while the cursor is on top of the window.
    UpdateOnHover,
    /// Redraw regardless of the cursor position.
    UpdateAlways,
}

impl Default for UpdateBehaviour {
    /// Redraw only on hover.
    fn default() -> (r: UpdateBehaviour)
        ensures
            r == UpdateBehaviour::UpdateOnHover,
    {
        UpdateBehaviour::UpdateOnHover
    }
}

/// In which intervals the screen is updated.
#[derive(Clone, Copy, Debug, PartialEq, Eq, Structural)]
pub enum UpdateMode {
    /// Update only when the interface changes.
    Retained,
    /// Update at a fixed interval, given in milliseconds.
    FixedUpdate(u64),
    /// Update as fast as possible.
    AsFastAsPossible,
}

impl Default for UpdateMode {
    /// Retained updates.
    fn default() -> (r: UpdateMode)
        ensures
            r == UpdateMode::Retained,
    {
        UpdateMode::Retained
    }
}

/// How precise mouse updates should be.
#[derive(Clone, Copy, Debug, PartialEq, Eq, Structural)]
pub enum MouseMode {
    /// Fire a mouse event only after at least one pixel of movement; cheaper,
    /// but less precise.
    Normal,
    /// Raw, unaccelerated mouse input.
    DirectInput,
}

impl Default for MouseMode {
    /// Pixel-granular events.
    fn default() -> (r: MouseMode)
        ensures
            r == MouseMode::Normal,
    {
        MouseMode::Normal
    }
}

/// On which monitor the window should appear. A monitor is named by the
/// opaque handle the platform layer enumerated it under.
#[derive(Clone, Copy, Debug, PartialEq, Eq, Structural)]
pub enum WindowMonitorTarget {
    /// The primary monitor.
    Primary,
    /// A specific monitor, by its platform handle.
    Custom(u64),
}

impl Default for WindowMonitorTarget {
    /// The primary monitor.
    fn default() -> (r: WindowMonitorTarget)
        ensures
            r == WindowMonitorTarget::Primary,
    {
        WindowMonitorTarget::Primary
    }
}

/// A color with one byte per channel.
#[derive(Clone, Copy, Debug, PartialEq, Eq, Structural)]
pub struct ColorU {
    pub r: u8,
    pub g: u8,
    pub b: u8,
    pub a: u8,
}

/// An icon as an opaque RGBA byte blob, passed through to the platform
/// unchanged.
pub struct IconData {
    /// Four bytes per pixel, row by row.
    pub rgba: Vec<u8>,
    pub width: u32,
    pub height: u32,
}

/// Everything that shapes the initial window.
pub struct WindowCreateOptions {
    /// The initial window state: title, geometry, flags.
    pub state: WindowState,
    /// OpenGL clear color.
    pub background: ColorU,
    /// Clear the stencil buffer with this value, if set.
    pub clear_stencil: Option<i32>,
    /// Clear the depth buffer with this value, in thousandths, if set.
    pub clear_depth: Option<u32>,
    /// How the screen should be updated.
    pub update_mode: UpdateMode,
    /// Which monitor the window should be created on.
    pub monitor: WindowMonitorTarget,
    /// How precise mouse updates should be.
    pub mouse_mode: MouseMode,
    /// Whether to update regardless of cursor position.
    pub update_behaviour: UpdateBehaviour,
    /// Hardware, software, or hardware with software fallback.
    pub renderer_type: RendererType,
    /// The window icon, if any.
    pub window_icon: Option<IconData>,
    /// The taskbar icon, if any.
    pub taskbar_icon: Option<IconData>,
    /// Whether to ask the platform to skip its redirection bitmap.
    pub no_redirection_bitmap: bool,
}

impl Default for WindowCreateOptions {
    /// A default window on the primary monitor: hidden default state, white
    /// background, retained updates, hardware renderer with software
    /// fallback, no icons.
    fn default() -> (r: WindowCreateOptions)
        ensures
            r.state@ == crate::window_state::default_window_state_model(),
            r.background == (ColorU { r: 255, g: 255, b: 255, a: 255 }),
            r.clear_stencil.is_none(),
            r.clear_depth.is_none(),
            r.update_mode == UpdateMode::Retained,
            r.monitor == WindowMonitorTarget::Primary,
            r.mouse_mode == MouseMode::Normal,
            r.update_behaviour == UpdateBehaviour::UpdateOnHover,
            r.renderer_type == RendererType::Default,
            r.window_icon.is_none(),
            r.taskbar_icon.is_none(),
            !r.no_redirection_bitmap,
    {
        WindowCreateOptions {
            state: WindowState::default(),
            background: ColorU { r: 255, g: 255, b: 255, a: 255 },
            clear_stencil: None,
            clear_depth: None,
            update_mode: UpdateMode::default(),
            monitor: WindowMonitorTarget::default(),
            mouse_mode: MouseMode::default(),
            update_behaviour: UpdateBehaviour::default(),
            renderer_type: RendererType::default(),
            window_icon: None,
            taskbar_icon: None,
            no_redirection_bitmap: false,
        }
    }
}

} // verus!
