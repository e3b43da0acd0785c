//! GPU-context capability negotiation and renderer selection.
//!
//! VSync and SRGB are optional driver extensions: some drivers reject the
//! combined request but accept a reduced one, and silently degrading
//! capability is preferable to refusing to open a window. Context creation
//! itself is a platform call; this module owns the decisions — which
//! combination to request next, and which result the whole ladder yields.

use vstd::prelude::*;

use crate::errors::WindowCreateError;
use crate::options::RendererType;

verus! {

/// One capability combination to request from the platform.
#[derive(Clone, Copy, Debug, PartialEq, Eq, Structural)]
pub struct ContextRequest {
    /// Ask for a VSync'd context.
    pub vsync: bool,
    /// Ask for an SRGB-capable context.
    pub srgb: bool,
}

/// The fixed priority order of capability requests: both extensions first,
/// then VSync alone, then SRGB alone, then neither.
pub open spec fn fallback_ladder() -> Seq<ContextRequest> {
    seq![
        ContextRequest { vsync: true, srgb: true },
        ContextRequest { vsync: true, srgb: false },
        ContextRequest { vsync: false, srgb: true },
        ContextRequest { vsync: false, srgb: false },
    ]
}

/// The number of rungs on the fallback ladder.
pub const FALLBACK_ATTEMPTS: usize = 4;

/// The capability combination to request on the given attempt (the first
/// attempt is attempt `0`).
pub fn fallback_request(attempt: usize) -> (r: ContextRequest)
    requires
        attempt < FALLBACK_ATTEMPTS,
    ensures
        r == fallback_ladder()[attempt as int],
{
    if attempt == 0 {
        ContextRequest { vsync: true, srgb: true }
    } else if attempt == 1 {
        ContextRequest { vsync: true, srgb: false }
    } else if attempt == 2 {
        ContextRequest { vsync: false, srgb: true }
    } else {
        ContextRequest { vsync: false, srgb: false }
    }
}

/// The index of the first accepted attempt, if any attempt is accepted.
pub open spec fn first_accepted(outcomes: Seq<bool>) -> Option<int>
    decreases outcomes.len(),
{
    if outcomes.len() == 0 {
        None
    } else if outcomes.first() {
        Some(0)
    } else {
        match first_accepted(outcomes.drop_first()) {
            Some(i) => Some(i + 1),
            None => None,
        }
    }
}

/// Negotiation stops at the first success: the chosen attempt is accepted and
/// every earlier attempt was rejected; no attempt is chosen only when every
/// attempt is rejected.
pub proof fn lemma_first_accepted_is_least(outcomes: Seq<bool>)
    ensures
        match first_accepted(outcomes) {
            Some(i) => {
                &&& 0 <= i < outcomes.len()
                &&& outcomes[i]
                &&& forall|j: int| 0 <= j < i ==> !outcomes[j]
            },
            None => forall|j: int| 0 <= j < outcomes.len() ==> !outcomes[j],
        },
    decreases outcomes.len(),
{
    if outcomes.len() > 0 && !outcomes.first() {
        let rest = outcomes.drop_first();
        lemma_first_accepted_is_least(rest);
        match first_accepted(rest) {
            Some(i) => {
                assert(outcomes[i + 1] == rest[i]);
                assert forall|j: int| 0 <= j < i + 1 implies !outcomes[j] by {
                    if j > 0 {
                        assert(outcomes[j] == rest[j - 1]);
                    }
                }
            },
            None => {
                assert forall|j: int| 0 <= j < outcomes.len() implies !outcomes[j] by {
                    if j > 0 {
                        assert(outcomes[j] == rest[j - 1]);
                    }
                }
            },
        }
    }
}

proof fn lemma_first_accepted_found(outcomes: Seq<bool>, i: int)
    requires
        0 <= i < outcomes.len(),
        outcomes[i],
        forall|j: int| 0 <= j < i ==> !outcomes[j],
    ensures
        first_accepted(outcomes) == Some(i),
    decreases i,
{
    if i > 0 {
        lemma_first_accepted_found(outcomes.drop_first(), i - 1);
    }
}

proof fn lemma_first_accepted_none(outcomes: Seq<bool>)
    requires
        forall|j: int| 0 <= j < outcomes.len() ==> !outcomes[j],
    ensures
        first_accepted(outcomes) is None,
    decreases outcomes.len(),
{
    if outcomes.len() > 0 {
        lemma_first_accepted_none(outcomes.drop_first());
    }
}

/// The ladder's result on the given per-attempt outcomes: the capability
/// combination of the first accepted attempt, or `ContextNegotiationFailed`
/// when the platform rejected all four.
pub fn negotiate_context(outcomes: &Vec<bool>) -> (r: Result<ContextRequest, WindowCreateError>)
    requires
        outcomes@.len() == FALLBACK_ATTEMPTS,
    ensures
        match r {
            Ok(req) => {
                &&& first_accepted(outcomes@) is Some
                &&& req == fallback_ladder()[first_accepted(outcomes@).unwrap()]
            },
            Err(e) => {
                &&& first_accepted(outcomes@) is None
                &&& e == WindowCreateError::ContextNegotiationFailed
            },
        },
{
    let mut attempt: usize = 0;
    while attempt < FALLBACK_ATTEMPTS
        invariant
            attempt <= FALLBACK_ATTEMPTS,
            outcomes@.len() == FALLBACK_ATTEMPTS,
            forall|j: int| 0 <= j < attempt ==> !outcomes@[j],
        decreases FALLBACK_ATTEMPTS - attempt,
    {
        if outcomes[attempt] {
            proof {
                lemma_first_accepted_found(outcomes@, attempt as int);
            }
            return Ok(fallback_request(attempt));
        }
        attempt = attempt + 1;
    }
    proof {
        lemma_first_accepted_none(outcomes@);
    }
    Err(WindowCreateError::ContextNegotiationFailed)
}

/// The kind of rendering API a created context turned out to speak.
#[derive(Clone, Copy, Debug, PartialEq, Eq, Structural)]
pub enum GlApi {
    /// Desktop OpenGL.
    OpenGl,
    /// OpenGL for embedded systems.
    OpenGlEs,
    /// WebGL, which the renderer cannot drive.
    WebGl,
}

/// Whether the renderer can drive a context of the given API: both OpenGL
/// flavours can load function pointers, a WebGL context cannot be used and
/// is rejected as `UnsupportedBackend`.
pub fn validate_gl_api(api: GlApi) -> (r: Result<GlApi, WindowCreateError>)
    ensures
        r == match api {
            GlApi::WebGl => Err::<GlApi, WindowCreateError>(
                WindowCreateError::UnsupportedBackend,
            ),
            _ => Ok::<GlApi, WindowCreateError>(api),
        },
{
    match api {
        GlApi::WebGl => Err(WindowCreateError::UnsupportedBackend),
        _ => Ok(api),
    }
}

/// Which of the two renderers a display ends up with.
#[derive(Clone, Copy, Debug, PartialEq, Eq, Structural)]
pub enum RendererChoice {
    /// The hardware (native OpenGL) renderer.
    Hardware,
    /// The software renderer.
    Software,
}

/// The renderer the toolkit must use, given which of the two can be created:
/// `Default` tries hardware and falls back to software; a forced mode takes
/// exactly the renderer it names or fails, since the caller explicitly
/// rejected the fallback (the driver turns that failure into an abort).
pub open spec fn spec_choose_renderer(
    requested: RendererType,
    hardware_ok: bool,
    software_ok: bool,
) -> Result<RendererChoice, WindowCreateError> {
    match requested {
        RendererType::Hardware => {
            if hardware_ok {
                Ok(RendererChoice::Hardware)
            } else {
                Err(WindowCreateError::DisplayCreationFailed)
            }
        },
        RendererType::Software => {
            if software_ok {
                Ok(RendererChoice::Software)
            } else {
                Err(WindowCreateError::DisplayCreationFailed)
            }
        },
        RendererType::Default => {
            if hardware_ok {
                Ok(RendererChoice::Hardware)
            } else if software_ok {
                Ok(RendererChoice::Software)
            } else {
                Err(WindowCreateError::DisplayCreationFailed)
            }
        },
    }
}

/// Picks the renderer for the given request, from which of the two renderers
/// the platform can actually create.
pub fn choose_renderer(requested: RendererType, hardware_ok: bool, software_ok: bool) -> (r:
    Result<RendererChoice, WindowCreateError>)
    ensures
        r == spec_choose_renderer(requested, hardware_ok, software_ok),
{
    match requested {
        RendererType::Hardware => {
            if hardware_ok {
                Ok(RendererChoice::Hardware)
            } else {
                Err(WindowCreateError::DisplayCreationFailed)
            }
        },
        RendererType::Software => {
            if software_ok {
                Ok(RendererChoice::Software)
            } else {
                Err(WindowCreateError::DisplayCreationFailed)
            }
        },
        RendererType::Default => {
            if hardware_ok {
                Ok(RendererChoice::Hardware)
            } else if software_ok {
                Ok(RendererChoice::Software)
            } else {
                Err(WindowCreateError::DisplayCreationFailed)
            }
        },
    }
}

} // verus!
