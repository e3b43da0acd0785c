//! Window lifecycle and per-frame state bookkeeping for a retained-mode GUI
//! toolkit.
//!
//! The platform window system and the GPU renderer are external collaborators:
//! this crate owns the decisions (scroll-offset reconciliation, window-state
//! diffing, context-capability fallback, renderer selection) and hands the
//! resulting platform commands to an unverified driver that performs them.

pub mod context;
pub mod diff;
pub mod display;
pub mod errors;
pub mod options;
pub mod scroll;
pub mod window;
pub mod window_state;

pub use display::FakeDisplay;
pub use errors::WindowCreateError;
pub use options::MouseMode;
pub use options::RendererType;
pub use options::UpdateBehaviour;
pub use options::UpdateMode;
pub use options::WindowCreateOptions;
pub use options::WindowMonitorTarget;
pub use scroll::ScrollState;
pub use scroll::ScrollStates;
pub use window::Window;
pub use window_state::WindowState;
