//! The graphics-backend capability: which graphics context, if any, is bound
//! to a view, decided once at view construction and never changed.
//!
//! A backend contributes three things: the hint settings its installation
//! issues to the native layer before the view is realized, a setup context
//! valid only while a realize or unrealize event is handled, and a draw
//! context valid only while an expose event is handled.  The stub backend
//! `()` contributes no hints and empty contexts.  Context values are produced
//! by the event translation and must not be retained past the callback
//! invocation they were made for.

use vstd::prelude::*;
use crate::raw::{RAW_HINT_CONTEXT_API, RAW_HINT_CONTEXT_VERSION_MAJOR,
    RAW_HINT_CONTEXT_VERSION_MINOR, RAW_HINT_CONTEXT_PROFILE, RAW_HINT_CONTEXT_DEBUG,
    RAW_HINT_RED_BITS, RAW_HINT_GREEN_BITS, RAW_HINT_BLUE_BITS, RAW_HINT_ALPHA_BITS,
    RAW_HINT_DEPTH_BITS, RAW_HINT_STENCIL_BITS, RAW_HINT_SAMPLE_BUFFERS, RAW_HINT_SAMPLES,
    RAW_HINT_DOUBLE_BUFFER, RAW_HINT_SWAP_INTERVAL, RAW_OPENGL_API, RAW_OPENGL_ES_API,
    RAW_OPENGL_CORE_PROFILE, RAW_OPENGL_COMPATIBILITY_PROFILE};

verus! {

/// A capability token that only this crate can construct, sealing the
/// backend operations against being driven by application code.
pub struct Private {
    _seal: (),
}

impl Private {
    /// Make the capability token; only this crate's own dispatch paths call
    /// backend operations.
    pub(crate) fn token() -> Private {
        Private { _seal: () }
    }
}

/// Which native backend a view installs.
#[derive(Clone, Copy, PartialEq, Eq, Structural, Debug)]
pub enum BackendKind {
    /// The stub backend: no graphics context, no drawing.
    Stub,
    /// The OpenGL backend.
    OpenGl,
}

/// One integer view hint to set on the native view.
#[derive(Clone, Copy, PartialEq, Eq, Structural, Debug)]
pub struct HintSetting {
    /// The hint (one of the `RAW_HINT_*` constants).
    pub hint: u32,
    /// The value to set it to.
    pub value: i32,
}

/// What installing a backend asks of the native layer: which backend to bind
/// to the view, then which view hints to set, in order.
#[derive(Clone, PartialEq, Eq, Debug)]
pub struct InstallPlan {
    pub kind: BackendKind,
    pub hints: Vec<HintSetting>,
}

/// A graphics backend for a view.
///
/// Implemented by `()` (the stub backend, no drawing) and [`OpenGl`].
pub trait Backend: Sized {
    /// The context used for drawing on the view, carried by an expose event.
    type DrawContext;

    /// The context used for setting up the view, carried by the realize and
    /// unrealize events.  No drawing is allowed through it; it is only for
    /// backend resource creation and deletion.
    type SetupContext;

    /// Which native backend this value installs.
    spec fn spec_kind(self) -> BackendKind;

    /// The exact hint settings this value's installation issues, in order.
    spec fn spec_hints(self) -> Seq<HintSetting>;

    /// The setup context bound to a view handle.
    spec fn spec_setup(view: usize) -> Self::SetupContext;

    /// The draw context bound to a view handle.
    spec fn spec_draw(view: usize) -> Self::DrawContext;

    /// The installation this backend asks of the native layer for a new
    /// view: performed once, before realization.
    fn install(self, token: Private) -> (r: InstallPlan)
        ensures
            r.kind == self.spec_kind(),
            r.hints@ == self.spec_hints(),
    ;

    /// Construct the setup context for one callback invocation.
    fn setup(view: usize, token: Private) -> (r: Self::SetupContext)
        ensures
            r == Self::spec_setup(view),
    ;

    /// Construct the draw context for one callback invocation.
    fn draw(view: usize, token: Private) -> (r: Self::DrawContext)
        ensures
            r == Self::spec_draw(view),
    ;
}

impl Backend for () {
    type DrawContext = ();

    type SetupContext = ();

    open spec fn spec_kind(self) -> BackendKind {
        BackendKind::Stub
    }

    open spec fn spec_hints(self) -> Seq<HintSetting> {
        Seq::empty()
    }

    open spec fn spec_setup(view: usize) -> () {
        ()
    }

    open spec fn spec_draw(view: usize) -> () {
        ()
    }

    fn install(self, token: Private) -> (r: InstallPlan) {
        let r = InstallPlan { kind: BackendKind::Stub, hints: Vec::new() };
        proof {
            assert(r.hints@ =~= Seq::<HintSetting>::empty());
        }
        r
    }

    fn setup(view: usize, token: Private) -> (r: ()) {
        ()
    }

    fn draw(view: usize, token: Private) -> (r: ()) {
        ()
    }
}

/// Requested OpenGL API version and profile.
#[derive(Clone, Copy, PartialEq, Eq, Structural, Debug)]
pub enum OpenGlVersion {
    /// Desktop OpenGL with the core profile, by major and minor version.
    Core(u8, u8),
    /// Desktop OpenGL with the compatibility profile.
    Compat(u8, u8),
    /// OpenGL ES.
    ES(u8, u8),
}

/// Configuration of the OpenGL backend: context version and the pixel-format
/// bit depths, buffering and anti-aliasing the view is created with.
#[derive(Clone, Copy, PartialEq, Eq, Debug)]
pub struct OpenGl {
    pub version: OpenGlVersion,
    pub debug: bool,
    pub double_buffer: bool,
    pub swap_interval: Option<u8>,
    pub bits_red: u8,
    pub bits_green: u8,
    pub bits_blue: u8,
    pub bits_alpha: u8,
    pub bits_stencil: u8,
    pub bits_depth: u8,
    pub aa_buffers: Option<u8>,
    pub aa_samples: u8,
}

impl Default for OpenGl {
    /// A double-buffered OpenGL 2.0 core context with 8 bits per color
    /// channel and no depth, stencil or anti-aliasing buffers.
    fn default() -> (r: OpenGl)
        ensures
            r == (OpenGl {
                version: OpenGlVersion::Core(2, 0),
                debug: false,
                double_buffer: true,
                swap_interval: None::<u8>,
                bits_red: 8u8,
                bits_green: 8u8,
                bits_blue: 8u8,
                bits_alpha: 8u8,
                bits_stencil: 0u8,
                bits_depth: 0u8,
                aa_buffers: None::<u8>,
                aa_samples: 0u8,
            }),
    {
        OpenGl {
            version: OpenGlVersion::Core(2, 0),
            debug: false,
            double_buffer: true,
            swap_interval: None,
            bits_red: 8,
            bits_green: 8,
            bits_blue: 8,
            bits_alpha: 8,
            bits_stencil: 0,
            bits_depth: 0,
            aa_buffers: None,
            aa_samples: 0,
        }
    }
}

/// The hint settings that select the requested OpenGL API, profile and
/// version.
pub open spec fn spec_version_hints(v: OpenGlVersion) -> Seq<HintSetting> {
    match v {
        OpenGlVersion::Core(major, minor) => seq![
            HintSetting { hint: RAW_HINT_CONTEXT_API, value: RAW_OPENGL_API as i32 },
            HintSetting { hint: RAW_HINT_CONTEXT_PROFILE, value: RAW_OPENGL_CORE_PROFILE as i32 },
            HintSetting { hint: RAW_HINT_CONTEXT_VERSION_MAJOR, value: major as i32 },
            HintSetting { hint: RAW_HINT_CONTEXT_VERSION_MINOR, value: minor as i32 },
        ],
        OpenGlVersion::Compat(major, minor) => seq![
            HintSetting { hint: RAW_HINT_CONTEXT_API, value: RAW_OPENGL_API as i32 },
            HintSetting {
                hint: RAW_HINT_CONTEXT_PROFILE,
                value: RAW_OPENGL_COMPATIBILITY_PROFILE as i32,
            },
            HintSetting { hint: RAW_HINT_CONTEXT_VERSION_MAJOR, value: major as i32 },
            HintSetting { hint: RAW_HINT_CONTEXT_VERSION_MINOR, value: minor as i32 },
        ],
        OpenGlVersion::ES(major, minor) => seq![
            HintSetting { hint: RAW_HINT_CONTEXT_API, value: RAW_OPENGL_ES_API as i32 },
            HintSetting { hint: RAW_HINT_CONTEXT_VERSION_MAJOR, value: major as i32 },
            HintSetting { hint: RAW_HINT_CONTEXT_VERSION_MINOR, value: minor as i32 },
        ],
    }
}

/// A graphics context of the OpenGL backend, bound to a view for the
/// duration of one callback invocation.
///
/// Resolving a named OpenGL procedure through the context is a native
/// operation and lives with the unverified shell; the context here carries
/// the view binding the backend operations promise.
#[derive(Clone, Copy, PartialEq, Eq, Structural, Debug)]
pub struct OpenGlContext {
    /// The view handle this context is bound to.
    pub view: usize,
}

impl OpenGlContext {
    /// The view handle this context is bound to.
    pub fn view_handle(&self) -> (r: usize)
        ensures
            r == self.view,
    {
        self.view
    }
}

impl Backend for OpenGl {
    type DrawContext = OpenGlContext;

    type SetupContext = OpenGlContext;

    open spec fn spec_kind(self) -> BackendKind {
        BackendKind::OpenGl
    }

    open spec fn spec_hints(self) -> Seq<HintSetting> {
        spec_version_hints(self.version) + seq![
            HintSetting {
                hint: RAW_HINT_CONTEXT_DEBUG,
                value: if self.debug { 1i32 } else { 0i32 },
            },
            HintSetting {
                hint: RAW_HINT_DOUBLE_BUFFER,
                value: if self.double_buffer { 1i32 } else { 0i32 },
            },
            HintSetting { hint: RAW_HINT_RED_BITS, value: self.bits_red as i32 },
            HintSetting { hint: RAW_HINT_GREEN_BITS, value: self.bits_green as i32 },
            HintSetting { hint: RAW_HINT_BLUE_BITS, value: self.bits_blue as i32 },
            HintSetting { hint: RAW_HINT_ALPHA_BITS, value: self.bits_alpha as i32 },
            HintSetting { hint: RAW_HINT_DEPTH_BITS, value: self.bits_depth as i32 },
            HintSetting { hint: RAW_HINT_STENCIL_BITS, value: self.bits_stencil as i32 },
            HintSetting { hint: RAW_HINT_SAMPLES, value: self.aa_samples as i32 },
        ] + (match self.aa_buffers {
            Some(n) => seq![HintSetting { hint: RAW_HINT_SAMPLE_BUFFERS, value: n as i32 }],
            None => Seq::empty(),
        }) + (match self.swap_interval {
            Some(n) => seq![HintSetting { hint: RAW_HINT_SWAP_INTERVAL, value: n as i32 }],
            None => Seq::empty(),
        })
    }

    open spec fn spec_setup(view: usize) -> OpenGlContext {
        OpenGlContext { view }
    }

    open spec fn spec_draw(view: usize) -> OpenGlContext {
        OpenGlContext { view }
    }

    fn install(self, token: Private) -> (r: InstallPlan) {
        let mut hints: Vec<HintSetting> = Vec::new();
        match self.version {
            OpenGlVersion::Core(major, minor) => {
                hints.push(HintSetting { hint: RAW_HINT_CONTEXT_API, value: RAW_OPENGL_API as i32 });
                hints.push(HintSetting {
                    hint: RAW_HINT_CONTEXT_PROFILE,
                    value: RAW_OPENGL_CORE_PROFILE as i32,
                });
                hints.push(HintSetting {
                    hint: RAW_HINT_CONTEXT_VERSION_MAJOR,
                    value: major as i32,
                });
                hints.push(HintSetting {
                    hint: RAW_HINT_CONTEXT_VERSION_MINOR,
                    value: minor as i32,
                });
            },
            OpenGlVersion::Compat(major, minor) => {
                hints.push(HintSetting { hint: RAW_HINT_CONTEXT_API, value: RAW_OPENGL_API as i32 });
                hints.push(HintSetting {
                    hint: RAW_HINT_CONTEXT_PROFILE,
                    value: RAW_OPENGL_COMPATIBILITY_PROFILE as i32,
                });
                hints.push(HintSetting {
                    hint: RAW_HINT_CONTEXT_VERSION_MAJOR,
                    value: major as i32,
                });
                hints.push(HintSetting {
                    hint: RAW_HINT_CONTEXT_VERSION_MINOR,
                    value: minor as i32,
                });
            },
            OpenGlVersion::ES(major, minor) => {
                hints.push(HintSetting {
                    hint: RAW_HINT_CONTEXT_API,
                    value: RAW_OPENGL_ES_API as i32,
                });
                hints.push(HintSetting {
                    hint: RAW_HINT_CONTEXT_VERSION_MAJOR,
                    value: major as i32,
                });
                hints.push(HintSetting {
                    hint: RAW_HINT_CONTEXT_VERSION_MINOR,
                    value: minor as i32,
                });
            },
        }
        proof {
            assert(hints@ =~= spec_version_hints(self.version));
        }
        hints.push(HintSetting {
            hint: RAW_HINT_CONTEXT_DEBUG,
            value: if self.debug { 1i32 } else { 0i32 },
        });
        hints.push(HintSetting {
            hint: RAW_HINT_DOUBLE_BUFFER,
            value: if self.double_buffer { 1i32 } else { 0i32 },
        });
        hints.push(HintSetting { hint: RAW_HINT_RED_BITS, value: self.bits_red as i32 });
        hints.push(HintSetting { hint: RAW_HINT_GREEN_BITS, value: self.bits_green as i32 });
        hints.push(HintSetting { hint: RAW_HINT_BLUE_BITS, value: self.bits_blue as i32 });
        hints.push(HintSetting { hint: RAW_HINT_ALPHA_BITS, value: self.bits_alpha as i32 });
        hints.push(HintSetting { hint: RAW_HINT_DEPTH_BITS, value: self.bits_depth as i32 });
        hints.push(HintSetting { hint: RAW_HINT_STENCIL_BITS, value: self.bits_stencil as i32 });
        hints.push(HintSetting { hint: RAW_HINT_SAMPLES, value: self.aa_samples as i32 });
        match self.aa_buffers {
            Some(n) => {
                hints.push(HintSetting { hint: RAW_HINT_SAMPLE_BUFFERS, value: n as i32 });
            },
            None => {},
        }
        match self.swap_interval {
            Some(n) => {
                hints.push(HintSetting { hint: RAW_HINT_SWAP_INTERVAL, value: n as i32 });
            },
            None => {},
        }
        proof {
            assert(hints@ =~= self.spec_hints());
        }
        InstallPlan { kind: BackendKind::OpenGl, hints }
    }

    fn setup(view: usize, token: Private) -> (r: OpenGlContext) {
        OpenGlContext { view }
    }

    fn draw(view: usize, token: Private) -> (r: OpenGlContext) {
        OpenGlContext { view }
    }
}

} // verus!
