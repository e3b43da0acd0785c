//! Errors that window construction and per-frame rendering can surface.
//!
//! Construction-time failures are returned to the caller as values, never
//! retried beyond the fixed context-fallback ladder and never swallowed;
//! per-frame failures are surfaced per frame so one bad frame does not
//! terminate a multi-window application.

use vstd::prelude::*;

verus! {

/// Why a window could not be created, or a frame could not be presented.
#[derive(Clone, Copy, Debug, PartialEq, Eq, Structural)]
pub enum WindowCreateError {
    /// All four GPU-context fallback combinations were rejected.
    ContextNegotiationFailed,
    /// The display or the shared renderer could not be created.
    DisplayCreationFailed,
    /// The front and back buffers could not be swapped for a frame.
    BufferSwapFailed,
    /// The platform reported an input/output error.
    PlatformIoError,
    /// The context the platform offered cannot drive the renderer at all.
    UnsupportedBackend,
}

impl WindowCreateError {
    /// A short description for logs and error reports.
    pub fn message(&self) -> (r: &'static str)
        ensures
            r@ == match self {
                WindowCreateError::ContextNegotiationFailed => "could not create an OpenGL context with any capability combination"@,
                WindowCreateError::DisplayCreationFailed => "could not create the display or the shared renderer"@,
                WindowCreateError::BufferSwapFailed => "could not swap the front and back buffers"@,
                WindowCreateError::PlatformIoError => "the platform reported an I/O error"@,
                WindowCreateError::UnsupportedBackend => "the offered rendering context is not supported"@,
            },
    {
        match self {
            WindowCreateError::ContextNegotiationFailed => {
                "could not create an OpenGL context with any capability combination"
            },
            WindowCreateError::DisplayCreationFailed => {
                "could not create the display or the shared renderer"
            },
            WindowCreateError::BufferSwapFailed => "could not swap the front and back buffers",
            WindowCreateError::PlatformIoError => "the platform reported an I/O error",
            WindowCreateError::UnsupportedBackend => {
                "the offered rendering context is not supported"
            },
        }
    }
}

} // verus!
