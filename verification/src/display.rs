//! The process-wide shared display: the one renderer that every window
//! paints through, and the sequence generator for pipeline identifiers.
//!
//! OpenGL resources cannot be shared across independent render backends, so
//! even a multi-window application owns exactly one renderer, created against
//! an invisible bootstrap window. The platform layer owns that window and the
//! GPU context; this type owns the decisions and the teardown discipline.

use vstd::prelude::*;

use crate::context::choose_renderer;
use crate::context::spec_choose_renderer;
use crate::context::RendererChoice;
use crate::errors::WindowCreateError;
use crate::options::RendererType;
use crate::window::PipelineIdGenerator;

verus! {

/// The shared renderer and the process-wide pipeline-identifier source.
/// Constructed once per process, torn down exactly once, render resources
/// first.
pub struct FakeDisplay {
    /// Which renderer the process runs on; `None` once torn down.
    pub renderer: Option<RendererChoice>,
    /// Hands out the pipeline identifier for each new window.
    pub pipeline_ids: PipelineIdGenerator,
}

impl FakeDisplay {
    /// The renderer is still alive; every per-frame operation needs it.
    pub open spec fn is_alive(&self) -> bool {
        self.renderer is Some
    }

    /// Picks the renderer for the requested mode from which renderers the
    /// platform could create (`Default` falls back from hardware to
    /// software; forced modes do not), and starts the pipeline-identifier
    /// sequence at zero. Fails with exactly the error the renderer choice
    /// dictates; no partially constructed display is ever returned.
    pub fn new(renderer_type: RendererType, hardware_ok: bool, software_ok: bool) -> (r: Result<
        FakeDisplay,
        WindowCreateError,
    >)
        ensures
            match r {
                Ok(d) => {
                    &&& spec_choose_renderer(renderer_type, hardware_ok, software_ok)
                        == Ok::<RendererChoice, WindowCreateError>(d.renderer.unwrap())
                    &&& d.is_alive()
                    &&& d.pipeline_ids.next_id == 0
                },
                Err(e) => spec_choose_renderer(renderer_type, hardware_ok, software_ok)
                    == Err::<RendererChoice, WindowCreateError>(e),
            },
    {
        match choose_renderer(renderer_type, hardware_ok, software_ok) {
            Ok(choice) => Ok(
                FakeDisplay { renderer: Some(choice), pipeline_ids: PipelineIdGenerator::new() },
            ),
            Err(e) => Err(e),
        }
    }

    /// Releases the renderer. Callable exactly once: the renderer must still
    /// be alive, and afterwards it no longer is, so a second release cannot
    /// happen. The platform layer destroys its bootstrap window only after
    /// this ran — render resources first, platform window second.
    pub fn deinit(&mut self) -> (r: RendererChoice)
        requires
            old(self).is_alive(),
        ensures
            !final(self).is_alive(),
            r == old(self).renderer.unwrap(),
            final(self).pipeline_ids == old(self).pipeline_ids,
    {
        let released = self.renderer;
        self.renderer = None;
        match released {
            Some(choice) => choice,
            None => vstd::pervasive::unreached(),
        }
    }
}

} // verus!
