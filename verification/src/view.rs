//! The view lifecycle: the builder for a not-yet-realized view, the realized
//! view, the one-way realize transition with its typed errors, and the
//! bookkeeping of the stored event callback.
//!
//! A view's callback is heap-allocated by the unverified shell and reachable
//! only through the native view's single opaque user-data slot.  What is
//! verified here is the accounting: at most one callback is stored at a time,
//! installing a new one frees the old one exactly once, the unrealize event
//! frees the stored callback exactly once, and nothing is invoked after that.

use vstd::prelude::*;
use vstd::view::View as _;
use vstd::string::StringSliceAdditionalSpecFns as _;
use crate::backend::{Backend, InstallPlan, Private};
use crate::data::ViewType;
use crate::raw::{RawEvent, RAW_SUCCESS, RAW_BAD_BACKEND, RAW_BAD_CONFIGURATION,
    RAW_BACKEND_FAILED, RAW_REGISTRATION_FAILED, RAW_REALIZE_FAILED, RAW_SET_FORMAT_FAILED,
    RAW_CREATE_CONTEXT_FAILED, RAW_NO_MEMORY, RAW_UNREALIZE, RAW_CLIENT, RAW_CLOSE,
    RAW_IS_SEND_EVENT, RAW_SHOW_RAISE, RAW_SHOW_PASSIVE, RAW_SHOW_FORCE_RAISE,
    RAW_HINT_RESIZABLE, RAW_CURRENT_SIZE, RAW_MIN_SIZE, RAW_MAX_SIZE};

verus! {

/// A native view handle: the underlying OS window, as an opaque word.  It
/// carries no ownership; the owning [`View`] frees the view it names.
#[derive(Clone, Copy, PartialEq, Eq, Structural, Debug, Hash)]
pub struct NativeView {
    /// The OS window handle's raw form.
    pub ptr: usize,
}

impl NativeView {
    /// The underlying OS window handle.
    pub fn as_raw(&self) -> (r: usize)
        ensures
            r == self.ptr,
    {
        self.ptr
    }

    /// Construct a handle value from its raw form.  It names whatever window
    /// the raw word names; no validity is implied.
    pub fn from_raw(ptr: usize) -> (r: NativeView)
        ensures
            r == (NativeView { ptr }),
    {
        NativeView { ptr }
    }
}

/// A parent window for a view: a view either has an embedding parent or a
/// transient parent (for top-level windows like dialogs), never both.
#[derive(Clone, Copy, PartialEq, Eq, Structural, Debug)]
pub enum ViewParent {
    Embedding(NativeView),
    Transient(NativeView),
}

/// View realization error: which stage of realizing the view failed.
#[derive(Clone, Copy, PartialEq, Eq, Structural, Debug)]
pub enum ViewError {
    /// Invalid view configuration
    BadConfig,
    /// Invalid or missing backend
    BadBackend,
    /// Backend initialization failed
    BackendInit,
    /// System class registration failed
    ClassRegister,
    /// System view realization failed
    OsRealize,
    /// Failed to create drawing context
    CreateContext,
    /// Failed to set pixel format
    SetPixelFormat,
    /// Failed to allocate memory
    OutOfMemory,
    /// Unknown error
    Unknown,
}

impl ViewError {
    /// The error a native failure status denotes; statuses outside the
    /// realize-failure set are unknown errors.
    pub open spec fn spec_from_status(status: u32) -> ViewError {
        if status == RAW_BAD_CONFIGURATION {
            ViewError::BadConfig
        } else if status == RAW_BAD_BACKEND {
            ViewError::BadBackend
        } else if status == RAW_BACKEND_FAILED {
            ViewError::BackendInit
        } else if status == RAW_REGISTRATION_FAILED {
            ViewError::ClassRegister
        } else if status == RAW_REALIZE_FAILED {
            ViewError::OsRealize
        } else if status == RAW_CREATE_CONTEXT_FAILED {
            ViewError::CreateContext
        } else if status == RAW_SET_FORMAT_FAILED {
            ViewError::SetPixelFormat
        } else if status == RAW_NO_MEMORY {
            ViewError::OutOfMemory
        } else {
            ViewError::Unknown
        }
    }

    /// Decode a native failure status.
    pub fn from_status(status: u32) -> (r: ViewError)
        requires
            status != RAW_SUCCESS,
        ensures
            r == ViewError::spec_from_status(status),
    {
        if status == RAW_BAD_CONFIGURATION {
            ViewError::BadConfig
        } else if status == RAW_BAD_BACKEND {
            ViewError::BadBackend
        } else if status == RAW_BACKEND_FAILED {
            ViewError::BackendInit
        } else if status == RAW_REGISTRATION_FAILED {
            ViewError::ClassRegister
        } else if status == RAW_REALIZE_FAILED {
            ViewError::OsRealize
        } else if status == RAW_CREATE_CONTEXT_FAILED {
            ViewError::CreateContext
        } else if status == RAW_SET_FORMAT_FAILED {
            ViewError::SetPixelFormat
        } else if status == RAW_NO_MEMORY {
            ViewError::OutOfMemory
        } else {
            ViewError::Unknown
        }
    }

    /// A short description of the error.
    pub fn message(&self) -> (r: &'static str)
        ensures
            (match self {
                ViewError::BadConfig => r@ == "invalid configuration"@,
                ViewError::BadBackend => r@ == "invalid backend"@,
                ViewError::BackendInit => r@ == "backend initialization failed"@,
                ViewError::ClassRegister => r@ == "failed to register class"@,
                ViewError::OsRealize => r@ == "failed to create os window"@,
                ViewError::CreateContext => r@ == "failed to create context"@,
                ViewError::SetPixelFormat => r@ == "failed to set pixel format"@,
                ViewError::OutOfMemory => r@ == "out of memory"@,
                ViewError::Unknown => r@ == "unknown error"@,
            }),
    {
        match self {
            ViewError::BadConfig => "invalid configuration",
            ViewError::BadBackend => "invalid backend",
            ViewError::BackendInit => "backend initialization failed",
            ViewError::ClassRegister => "failed to register class",
            ViewError::OsRealize => "failed to create os window",
            ViewError::CreateContext => "failed to create context",
            ViewError::SetPixelFormat => "failed to set pixel format",
            ViewError::OutOfMemory => "out of memory",
            ViewError::Unknown => "unknown error",
        }
    }
}

/// The accounting of a view's stored event callback.
///
/// The shell keeps the heap-allocated callback behind the native view's one
/// opaque user-data pointer; this value tracks what is stored there and
/// counts allocations and deallocations, so that "freed exactly once, no
/// leak, no double free" is a proved property of the transitions.
#[derive(Clone, Copy, PartialEq, Eq, Structural, Debug)]
pub struct CallbackSlot {
    /// The identity of the stored callback, if one is stored.
    pub handler: Option<u64>,
    /// How many callbacks have been allocated into the slot.
    pub installs: u64,
    /// How many of them have been deallocated.
    pub frees: u64,
}

impl CallbackSlot {
    /// An empty slot: nothing stored, nothing allocated yet.
    pub fn empty() -> (r: CallbackSlot)
        ensures
            r == (CallbackSlot { handler: None::<u64>, installs: 0u64, frees: 0u64 }),
    {
        CallbackSlot { handler: None, installs: 0, frees: 0 }
    }

    /// The slot after installing a callback: the new one is stored, and a
    /// previously stored one has been freed first.
    pub open spec fn spec_after_install(self, handler: u64) -> CallbackSlot {
        CallbackSlot {
            handler: Some(handler),
            installs: (self.installs + 1) as u64,
            frees: if self.handler is Some {
                (self.frees + 1) as u64
            } else {
                self.frees
            },
        }
    }

    /// Install a callback.  If one is already stored it is freed first,
    /// immediately: no leak, no double free.  Returns whether a previous
    /// callback was freed.
    pub fn install(&mut self, handler: u64) -> (freed: bool)
        requires
            old(self).installs < u64::MAX,
            old(self).frees < u64::MAX,
        ensures
            *final(self) == old(self).spec_after_install(handler),
            freed == (old(self).handler is Some),
    {
        let freed = self.handler.is_some();
        if freed {
            self.frees = self.frees + 1;
        }
        self.handler = Some(handler);
        self.installs = self.installs + 1;
        freed
    }

    /// Whether the trampoline invokes the stored callback for a raw event:
    /// only when translation delivered a typed event and a callback is
    /// stored.
    pub open spec fn spec_should_invoke(self, delivered: bool) -> bool {
        delivered && self.handler is Some
    }

    /// Whether the trampoline frees the stored callback after handling a raw
    /// event: only on the unrealize notification, and only when a callback
    /// is stored.  This is the one normal deallocation path of a view's
    /// callback.
    pub open spec fn spec_dispatch_frees(self, raw_kind: u32, delivered: bool) -> bool {
        delivered && self.handler is Some && raw_kind == RAW_UNREALIZE
    }

    /// The slot after the trampoline handled a raw event.
    pub open spec fn spec_after_dispatch(self, raw_kind: u32, delivered: bool) -> CallbackSlot {
        if self.spec_dispatch_frees(raw_kind, delivered) {
            CallbackSlot { handler: None, installs: self.installs, frees: (self.frees + 1) as u64 }
        } else {
            self
        }
    }
}

/// What the dispatch trampoline does for one raw event, beyond translating
/// it: whether to invoke the stored callback, whether to free it afterwards,
/// and the status returned to native code — always success, so that native
/// code never observes a failure and is never unwound.
#[derive(Clone, Copy, PartialEq, Eq, Structural, Debug)]
pub struct DispatchPlan {
    /// Invoke the stored callback with the translated event.
    pub invoke: bool,
    /// Free the stored callback after invoking it.
    pub free: bool,
    /// The status handed back to the native caller.
    pub status: u32,
}

/// The trampoline's decision and bookkeeping for one raw event delivered to
/// a view: given the raw discriminant and whether translation delivered a
/// typed event, decide invocation and deallocation, and account for the
/// deallocation in the slot.
pub fn dispatch_step(slot: &mut CallbackSlot, raw_kind: u32, delivered: bool) -> (r: DispatchPlan)
    requires
        old(slot).frees < u64::MAX,
    ensures
        r.invoke == old(slot).spec_should_invoke(delivered),
        r.free == old(slot).spec_dispatch_frees(raw_kind, delivered),
        r.status == RAW_SUCCESS,
        *final(slot) == old(slot).spec_after_dispatch(raw_kind, delivered),
{
    let invoke = delivered && slot.handler.is_some();
    let free = invoke && raw_kind == RAW_UNREALIZE;
    if free {
        self_free(slot);
    }
    DispatchPlan { invoke, free, status: RAW_SUCCESS }
}

/// Clear the slot and count one deallocation.
fn self_free(slot: &mut CallbackSlot)
    requires
        old(slot).frees < u64::MAX,
    ensures
        *final(slot) == (CallbackSlot {
            handler: None::<u64>,
            installs: old(slot).installs,
            frees: (old(slot).frees + 1) as u64,
        }),
{
    slot.handler = None;
    slot.frees = slot.frees + 1;
}

/// Installing a callback over a stored one deallocates the stored one
/// exactly once, and installing into an empty slot deallocates nothing: over
/// any run of installs, the number of deallocations is the number of
/// installs that found the slot occupied — no double free, no leak.
pub proof fn lemma_install_frees_previous_once(slot: CallbackSlot, first: u64, second: u64)
    requires
        slot.handler is None,
        slot.installs + 2 <= u64::MAX,
        slot.frees + 1 <= u64::MAX,
    ensures
        slot.spec_after_install(first).frees == slot.frees,
        slot.spec_after_install(first).spec_after_install(second).frees == slot.frees + 1,
        slot.spec_after_install(first).spec_after_install(second).installs == slot.installs + 2,
{
}

/// The unrealize guarantee: whatever callback is stored when the unrealize
/// notification arrives is deallocated exactly once, at that event; an empty
/// slot frees nothing; and after the unrealize event nothing is invoked and
/// nothing further is freed, whatever events follow, until a new callback is
/// installed.
pub proof fn lemma_unrealize_guarantee(
    slot: CallbackSlot,
    later_kind: u32,
    later_delivered: bool,
)
    requires
        slot.frees < u64::MAX,
    ensures
        slot.spec_after_dispatch(RAW_UNREALIZE, true).handler is None,
        slot.handler is Some ==> slot.spec_after_dispatch(RAW_UNREALIZE, true).frees == slot.frees
            + 1,
        slot.handler is None ==> slot.spec_after_dispatch(RAW_UNREALIZE, true) == slot,
        !slot.spec_after_dispatch(RAW_UNREALIZE, true).spec_should_invoke(later_delivered),
        slot.spec_after_dispatch(RAW_UNREALIZE, true).spec_after_dispatch(
            later_kind,
            later_delivered,
        ) == slot.spec_after_dispatch(RAW_UNREALIZE, true),
{
}

/// The configuration a view carries: what the builder calls have asked of
/// the native layer so far.
pub struct ViewConfig {
    /// Window title.
    pub title: String,
    /// View type (class of window).
    pub view_type: ViewType,
    /// Ignore key repeats when a key is held down.
    pub ignore_key_repeats: bool,
    /// Whether the window is resizable.
    pub resizable: bool,
    /// Requested update rate in Hz (zero when unset).
    pub refresh_rate: u32,
    /// Dark window-frame hint.
    pub dark_frame: bool,
    /// Parent window, if any.
    pub parent: Option<ViewParent>,
    /// Initial size in (physical) pixels.
    pub default_size: Option<(u32, u32)>,
    /// Current size in (physical) pixels, once set through this layer.
    pub current_size: Option<(u32, u32)>,
    /// Minimum size in (physical) pixels.
    pub min_size: Option<(u32, u32)>,
    /// Maximum size in (physical) pixels.
    pub max_size: Option<(u32, u32)>,
    /// Minimum aspect ratio.
    pub min_aspect: Option<(u32, u32)>,
    /// Maximum aspect ratio.
    pub max_aspect: Option<(u32, u32)>,
    /// Initial position in screen coordinates with an upper left origin.
    pub default_position: Option<(i32, i32)>,
    /// Current position, once set through this layer.
    pub current_position: Option<(i32, i32)>,
    /// Whether the view has been shown and not hidden since.
    pub visible: bool,
}

impl ViewConfig {
    /// Whether this is the configuration of a freshly created view:
    /// untitled, a normal non-resizable window, nothing else requested.
    pub open spec fn spec_is_fresh(self) -> bool {
        &&& self.title@ == Seq::<char>::empty()
        &&& self.view_type == ViewType::Normal
        &&& !self.ignore_key_repeats
        &&& !self.resizable
        &&& self.refresh_rate == 0u32
        &&& !self.dark_frame
        &&& self.parent is None
        &&& self.default_size is None
        &&& self.current_size is None
        &&& self.min_size is None
        &&& self.max_size is None
        &&& self.min_aspect is None
        &&& self.max_aspect is None
        &&& self.default_position is None
        &&& self.current_position is None
        &&& !self.visible
    }

    /// The configuration of a freshly created view.
    pub fn fresh() -> (r: ViewConfig)
        ensures
            r.spec_is_fresh(),
    {
        ViewConfig {
            title: String::new(),
            view_type: ViewType::Normal,
            ignore_key_repeats: false,
            resizable: false,
            refresh_rate: 0,
            dark_frame: false,
            parent: None,
            default_size: None,
            current_size: None,
            min_size: None,
            max_size: None,
            min_aspect: None,
            max_aspect: None,
            default_position: None,
            current_position: None,
            visible: false,
        }
    }
}

/// All configuration fields but the title agree.
pub open spec fn spec_config_eq_except_title(a: ViewConfig, b: ViewConfig) -> bool {
    &&& a.view_type == b.view_type
    &&& a.ignore_key_repeats == b.ignore_key_repeats
    &&& a.resizable == b.resizable
    &&& a.refresh_rate == b.refresh_rate
    &&& a.dark_frame == b.dark_frame
    &&& a.parent == b.parent
    &&& a.default_size == b.default_size
    &&& a.current_size == b.current_size
    &&& a.min_size == b.min_size
    &&& a.max_size == b.max_size
    &&& a.min_aspect == b.min_aspect
    &&& a.max_aspect == b.max_aspect
    &&& a.default_position == b.default_position
    &&& a.current_position == b.current_position
    &&& a.visible == b.visible
}

/// Whether a requested current size respects the configured size bounds.
///
/// This layer's policy for sizing a realized view: a request below the
/// configured minimum or above the configured maximum is rejected outright,
/// never silently accepted.
pub open spec fn spec_size_allowed(cfg: ViewConfig, width: u32, height: u32) -> bool {
    &&& (match cfg.min_size {
        Some(m) => width >= m.0 && height >= m.1,
        None => true,
    })
    &&& (match cfg.max_size {
        Some(m) => width <= m.0 && height <= m.1,
        None => true,
    })
}

/// A drawable area that can receive input events: a view that has been
/// realized on the underlying OS windowing system.
///
/// A view exclusively owns its native view handle: the value cannot be
/// cloned, and [`View::free`] consumes it, so the handle is released exactly
/// once.
pub struct View<B: Backend> {
    handle: usize,
    config: ViewConfig,
    callback: CallbackSlot,
    phantom: core::marker::PhantomData<B>,
}

impl<B: Backend> View<B> {
    /// The native view handle this view owns.
    pub closed spec fn spec_handle(self) -> usize {
        self.handle
    }

    /// The view's configuration.
    pub closed spec fn spec_config(self) -> ViewConfig {
        self.config
    }

    /// The view's callback-slot accounting.
    pub closed spec fn spec_callback(self) -> CallbackSlot {
        self.callback
    }

    /// The native view handle this view owns, in raw form.  The raw form
    /// carries no ownership.
    pub fn handle(&self) -> (r: usize)
        ensures
            r == self.spec_handle(),
    {
        self.handle
    }

    /// Set the maximum size of the view in (physical) pixels.
    pub fn set_max_size(&mut self, width: u32, height: u32)
        ensures
            final(self).spec_config() == (ViewConfig {
                max_size: Some((width, height)),
                ..old(self).spec_config()
            }),
            final(self).spec_handle() == old(self).spec_handle(),
            final(self).spec_callback() == old(self).spec_callback(),
    {
        self.config.max_size = Some((width, height));
    }

    /// Set the minimum size of the view in (physical) pixels.
    pub fn set_min_size(&mut self, width: u32, height: u32)
        ensures
            final(self).spec_config() == (ViewConfig {
                min_size: Some((width, height)),
                ..old(self).spec_config()
            }),
            final(self).spec_handle() == old(self).spec_handle(),
            final(self).spec_callback() == old(self).spec_callback(),
    {
        self.config.min_size = Some((width, height));
    }

    /// Set the maximum aspect ratio of the view.
    pub fn set_max_aspect(&mut self, x: u32, y: u32)
        ensures
            final(self).spec_config() == (ViewConfig {
                max_aspect: Some((x, y)),
                ..old(self).spec_config()
            }),
            final(self).spec_handle() == old(self).spec_handle(),
            final(self).spec_callback() == old(self).spec_callback(),
    {
        self.config.max_aspect = Some((x, y));
    }

    /// Set the minimum aspect ratio of the view.
    pub fn set_min_aspect(&mut self, x: u32, y: u32)
        ensures
            final(self).spec_config() == (ViewConfig {
                min_aspect: Some((x, y)),
                ..old(self).spec_config()
            }),
            final(self).spec_handle() == old(self).spec_handle(),
            final(self).spec_callback() == old(self).spec_callback(),
    {
        self.config.min_aspect = Some((x, y));
    }

    /// Set the current size of the view in (physical) pixels.
    ///
    /// Policy: a request outside the configured minimum and maximum bounds
    /// is rejected — the call returns false and changes nothing — never
    /// silently accepted.  An accepted request records the new current size;
    /// the native commands it takes are [`size_update_commands`].
    pub fn set_size(&mut self, width: u32, height: u32) -> (r: bool)
        ensures
            r == spec_size_allowed(old(self).spec_config(), width, height),
            r ==> final(self).spec_config() == (ViewConfig {
                current_size: Some((width, height)),
                ..old(self).spec_config()
            }),
            !r ==> final(self).spec_config() == old(self).spec_config(),
            final(self).spec_handle() == old(self).spec_handle(),
            final(self).spec_callback() == old(self).spec_callback(),
    {
        let allowed_min = match self.config.min_size {
            Some(m) => width >= m.0 && height >= m.1,
            None => true,
        };
        let allowed_max = match self.config.max_size {
            Some(m) => width <= m.0 && height <= m.1,
            None => true,
        };
        if allowed_min && allowed_max {
            self.config.current_size = Some((width, height));
            true
        } else {
            false
        }
    }

    /// Set the current position of the view in screen coordinates with an
    /// upper left origin.
    pub fn set_position(&mut self, x: i32, y: i32)
        ensures
            final(self).spec_config() == (ViewConfig {
                current_position: Some((x, y)),
                ..old(self).spec_config()
            }),
            final(self).spec_handle() == old(self).spec_handle(),
            final(self).spec_callback() == old(self).spec_callback(),
    {
        self.config.current_position = Some((x, y));
    }

    /// Set the title of the window.
    pub fn set_title(&mut self, title: &str)
        ensures
            final(self).spec_config().title@ == title@,
            spec_config_eq_except_title(final(self).spec_config(), old(self).spec_config()),
            final(self).spec_handle() == old(self).spec_handle(),
            final(self).spec_callback() == old(self).spec_callback(),
    {
        self.config.title = title.to_owned();
    }

    /// Returns the current position of the view: the last position set
    /// through this layer, the requested initial position before that, and
    /// the origin before either.
    pub fn position(&self) -> (r: (i32, i32))
        ensures
            r == (match self.spec_config().current_position {
                Some(p) => p,
                None => match self.spec_config().default_position {
                    Some(p) => p,
                    None => (0i32, 0i32),
                },
            }),
    {
        match self.config.current_position {
            Some(p) => p,
            None => match self.config.default_position {
                Some(p) => p,
                None => (0, 0),
            },
        }
    }

    /// Returns the current size of the view: the last size set through this
    /// layer, the requested initial size before that, and zero before
    /// either.
    pub fn size(&self) -> (r: (u32, u32))
        ensures
            r == (match self.spec_config().current_size {
                Some(s) => s,
                None => match self.spec_config().default_size {
                    Some(s) => s,
                    None => (0u32, 0u32),
                },
            }),
    {
        match self.config.current_size {
            Some(s) => s,
            None => match self.config.default_size {
                Some(s) => s,
                None => (0, 0),
            },
        }
    }

    /// Return the parent window of this view, if any.
    pub fn parent(&self) -> (r: Option<ViewParent>)
        ensures
            r == self.spec_config().parent,
    {
        self.config.parent
    }

    /// Returns the title of the window.
    pub fn title(&self) -> (r: String)
        ensures
            r@ == self.spec_config().title@,
    {
        self.config.title.clone()
    }

    /// Raise the window to the top of the application's stack: the normal,
    /// well-behaved way to show the window.  Returns the raw show command
    /// for the native call.
    pub fn show(&mut self) -> (cmd: u32)
        ensures
            cmd == RAW_SHOW_RAISE,
            final(self).spec_config() == (ViewConfig { visible: true, ..old(self).spec_config() }),
            final(self).spec_handle() == old(self).spec_handle(),
            final(self).spec_callback() == old(self).spec_callback(),
    {
        self.config.visible = true;
        RAW_SHOW_RAISE
    }

    /// Show the window without intentionally raising it.
    pub fn show_passive(&mut self) -> (cmd: u32)
        ensures
            cmd == RAW_SHOW_PASSIVE,
            final(self).spec_config() == (ViewConfig { visible: true, ..old(self).spec_config() }),
            final(self).spec_handle() == old(self).spec_handle(),
            final(self).spec_callback() == old(self).spec_callback(),
    {
        self.config.visible = true;
        RAW_SHOW_PASSIVE
    }

    /// Aggressively force the window to be raised to the top, even against
    /// the platform's guidelines.  Generally not what an application should
    /// use, and not guaranteed to work.
    pub fn show_aggressive(&mut self) -> (cmd: u32)
        ensures
            cmd == RAW_SHOW_FORCE_RAISE,
            final(self).spec_config() == (ViewConfig { visible: true, ..old(self).spec_config() }),
            final(self).spec_handle() == old(self).spec_handle(),
            final(self).spec_callback() == old(self).spec_callback(),
    {
        self.config.visible = true;
        RAW_SHOW_FORCE_RAISE
    }

    /// Hide the window without destroying it; it can be shown again.
    pub fn hide_view(&mut self)
        ensures
            final(self).spec_config() == (ViewConfig { visible: false, ..old(self).spec_config() }),
            final(self).spec_handle() == old(self).spec_handle(),
            final(self).spec_callback() == old(self).spec_callback(),
    {
        self.config.visible = false;
    }

    /// Whether the view was configured resizable.
    pub fn resizable(&self) -> (r: bool)
        ensures
            r == self.spec_config().resizable,
    {
        self.config.resizable
    }

    /// Whether the view has been shown through this layer and not hidden
    /// since.
    pub fn is_visible(&self) -> (r: bool)
        ensures
            r == self.spec_config().visible,
    {
        self.config.visible
    }

    /// Build the raw client event that sends an application-defined two-word
    /// payload to this view through the native event queue.
    pub fn send_client_event(&self, data: [usize; 2]) -> (ev: RawEvent)
        ensures
            ev == (RawEvent {
                data1: data[0],
                data2: data[1],
                ..crate::raw::spec_plain_event(RAW_CLIENT, RAW_IS_SEND_EVENT)
            }),
    {
        let mut ev = RawEvent::plain(RAW_CLIENT, RAW_IS_SEND_EVENT);
        ev.data1 = data[0];
        ev.data2 = data[1];
        ev
    }

    /// Build the raw close event that asks this view's handler to close it.
    pub fn send_close_event(&self) -> (ev: RawEvent)
        ensures
            ev == crate::raw::spec_plain_event(RAW_CLOSE, RAW_IS_SEND_EVENT),
    {
        RawEvent::plain(RAW_CLOSE, RAW_IS_SEND_EVENT)
    }

    /// The payload that sets the system clipboard to the given text: the one
    /// supported type, `text/plain`, and the text's bytes.
    pub fn copy_clipboard(&self, text: &str) -> (r: (String, Vec<u8>))
        ensures
            r.0@ == "text/plain"@,
            r.1@ == text.spec_bytes(),
    {
        let mime: String = "text/plain".to_owned();
        let bytes: Vec<u8> = vstd::slice::slice_to_vec(text.as_bytes());
        (mime, bytes)
    }

    /// The trampoline's decision and bookkeeping for one raw event delivered
    /// to this view: see [`dispatch_step`].
    pub fn dispatch(&mut self, raw_kind: u32, delivered: bool) -> (r: DispatchPlan)
        requires
            old(self).spec_callback().frees < u64::MAX,
        ensures
            r.invoke == old(self).spec_callback().spec_should_invoke(delivered),
            r.free == old(self).spec_callback().spec_dispatch_frees(raw_kind, delivered),
            r.status == RAW_SUCCESS,
            final(self).spec_callback() == old(self).spec_callback().spec_after_dispatch(
                raw_kind,
                delivered,
            ),
            final(self).spec_config() == old(self).spec_config(),
            final(self).spec_handle() == old(self).spec_handle(),
    {
        dispatch_step(&mut self.callback, raw_kind, delivered)
    }

    /// Release the view: the owner frees the native handle, exactly once,
    /// because this consumes the view.  Returns the handle to free.
    pub fn free(self) -> (h: usize)
        ensures
            h == self.spec_handle(),
    {
        self.handle
    }
}

/// A view that is not yet realized on the underlying OS windowing system: a
/// builder whose configuration calls are valid only before realization.
pub struct UnrealizedView<B: Backend>(View<B>);

impl<B: Backend> UnrealizedView<B> {
    /// The view being built.
    pub closed spec fn spec_view(self) -> View<B> {
        self.0
    }

    /// Start building a view under a freshly allocated native view handle,
    /// with the given backend installed.  Returns the builder and the
    /// installation the backend asks of the native layer; the shell also
    /// registers the dispatch trampoline as the view's sole event handler.
    pub(crate) fn new(handle: usize, backend: B) -> (r: (UnrealizedView<B>, InstallPlan))
        ensures
            r.0.spec_view().spec_handle() == handle,
            r.0.spec_view().spec_callback() == (CallbackSlot {
                handler: None::<u64>,
                installs: 0u64,
                frees: 0u64,
            }),
            r.0.spec_view().spec_config().spec_is_fresh(),
            r.1.kind == backend.spec_kind(),
            r.1.hints@ == backend.spec_hints(),
    {
        let plan = backend.install(Private::token());
        let view = View {
            handle,
            config: ViewConfig::fresh(),
            callback: CallbackSlot::empty(),
            phantom: core::marker::PhantomData,
        };
        (UnrealizedView(view), plan)
    }

    /// Set the type of the view.
    pub fn with_view_type(self, ty: ViewType) -> (r: Self)
        ensures
            r.spec_view().spec_config() == (ViewConfig {
                view_type: ty,
                ..self.spec_view().spec_config()
            }),
            r.spec_view().spec_handle() == self.spec_view().spec_handle(),
            r.spec_view().spec_callback() == self.spec_view().spec_callback(),
    {
        let mut v = self;
        v.0.config.view_type = ty;
        v
    }

    /// Ignore key repeats when a key is held down.
    pub fn with_ignore_key_repeats(self, ignore: bool) -> (r: Self)
        ensures
            r.spec_view().spec_config() == (ViewConfig {
                ignore_key_repeats: ignore,
                ..self.spec_view().spec_config()
            }),
            r.spec_view().spec_handle() == self.spec_view().spec_handle(),
            r.spec_view().spec_callback() == self.spec_view().spec_callback(),
    {
        let mut v = self;
        v.0.config.ignore_key_repeats = ignore;
        v
    }

    /// Make the window resizable.
    pub fn with_resizable(self, resizable: bool) -> (r: Self)
        ensures
            r.spec_view().spec_config() == (ViewConfig {
                resizable,
                ..self.spec_view().spec_config()
            }),
            r.spec_view().spec_handle() == self.spec_view().spec_handle(),
            r.spec_view().spec_callback() == self.spec_view().spec_callback(),
    {
        let mut v = self;
        v.0.config.resizable = resizable;
        v
    }

    /// Set the update rate in Hz.
    pub fn with_refresh_rate(self, rate: u32) -> (r: Self)
        ensures
            r.spec_view().spec_config() == (ViewConfig {
                refresh_rate: rate,
                ..self.spec_view().spec_config()
            }),
            r.spec_view().spec_handle() == self.spec_view().spec_handle(),
            r.spec_view().spec_callback() == self.spec_view().spec_callback(),
    {
        let mut v = self;
        v.0.config.refresh_rate = rate;
        v
    }

    /// Set the dark frame hint.
    pub fn with_dark_frame(self, dark: bool) -> (r: Self)
        ensures
            r.spec_view().spec_config() == (ViewConfig {
                dark_frame: dark,
                ..self.spec_view().spec_config()
            }),
            r.spec_view().spec_handle() == self.spec_view().spec_handle(),
            r.spec_view().spec_callback() == self.spec_view().spec_callback(),
    {
        let mut v = self;
        v.0.config.dark_frame = dark;
        v
    }

    /// Set the parent window of the view.
    pub fn with_parent(self, parent: ViewParent) -> (r: Self)
        ensures
            r.spec_view().spec_config() == (ViewConfig {
                parent: Some(parent),
                ..self.spec_view().spec_config()
            }),
            r.spec_view().spec_handle() == self.spec_view().spec_handle(),
            r.spec_view().spec_callback() == self.spec_view().spec_callback(),
    {
        let mut v = self;
        v.0.config.parent = Some(parent);
        v
    }

    /// Set the title of the window.
    pub fn with_title(self, title: &str) -> (r: Self)
        ensures
            r.spec_view().spec_config().title@ == title@,
            spec_config_eq_except_title(
                r.spec_view().spec_config(),
                self.spec_view().spec_config(),
            ),
            r.spec_view().spec_handle() == self.spec_view().spec_handle(),
            r.spec_view().spec_callback() == self.spec_view().spec_callback(),
    {
        let mut v = self;
        v.0.set_title(title);
        v
    }

    /// Set the initial size of the view in (physical) pixels.
    pub fn with_size(self, width: u32, height: u32) -> (r: Self)
        ensures
            r.spec_view().spec_config() == (ViewConfig {
                default_size: Some((width, height)),
                ..self.spec_view().spec_config()
            }),
            r.spec_view().spec_handle() == self.spec_view().spec_handle(),
            r.spec_view().spec_callback() == self.spec_view().spec_callback(),
    {
        let mut v = self;
        v.0.config.default_size = Some((width, height));
        v
    }

    /// Set the initial position of the view in screen coordinates with an
    /// upper left origin.
    pub fn with_position(self, x: i32, y: i32) -> (r: Self)
        ensures
            r.spec_view().spec_config() == (ViewConfig {
                default_position: Some((x, y)),
                ..self.spec_view().spec_config()
            }),
            r.spec_view().spec_handle() == self.spec_view().spec_handle(),
            r.spec_view().spec_callback() == self.spec_view().spec_callback(),
    {
        let mut v = self;
        v.0.config.default_position = Some((x, y));
        v
    }

    /// Set the maximum size of the view in (physical) pixels.
    pub fn with_max_size(self, width: u32, height: u32) -> (r: Self)
        ensures
            r.spec_view().spec_config() == (ViewConfig {
                max_size: Some((width, height)),
                ..self.spec_view().spec_config()
            }),
            r.spec_view().spec_handle() == self.spec_view().spec_handle(),
            r.spec_view().spec_callback() == self.spec_view().spec_callback(),
    {
        let mut v = self;
        v.0.set_max_size(width, height);
        v
    }

    /// Set the minimum size of the view in (physical) pixels.
    pub fn with_min_size(self, width: u32, height: u32) -> (r: Self)
        ensures
            r.spec_view().spec_config() == (ViewConfig {
                min_size: Some((width, height)),
                ..self.spec_view().spec_config()
            }),
            r.spec_view().spec_handle() == self.spec_view().spec_handle(),
            r.spec_view().spec_callback() == self.spec_view().spec_callback(),
    {
        let mut v = self;
        v.0.set_min_size(width, height);
        v
    }

    /// Set the maximum aspect ratio of the view.
    pub fn with_max_aspect(self, x: u32, y: u32) -> (r: Self)
        ensures
            r.spec_view().spec_config() == (ViewConfig {
                max_aspect: Some((x, y)),
                ..self.spec_view().spec_config()
            }),
            r.spec_view().spec_handle() == self.spec_view().spec_handle(),
            r.spec_view().spec_callback() == self.spec_view().spec_callback(),
    {
        let mut v = self;
        v.0.set_max_aspect(x, y);
        v
    }

    /// Set the minimum aspect ratio of the view.
    pub fn with_min_aspect(self, x: u32, y: u32) -> (r: Self)
        ensures
            r.spec_view().spec_config() == (ViewConfig {
                min_aspect: Some((x, y)),
                ..self.spec_view().spec_config()
            }),
            r.spec_view().spec_handle() == self.spec_view().spec_handle(),
            r.spec_view().spec_callback() == self.spec_view().spec_callback(),
    {
        let mut v = self;
        v.0.set_min_aspect(x, y);
        v
    }

    /// Install the main event handler for the view, by the identity the
    /// shell assigned to its heap allocation.  A previously installed
    /// handler is deallocated first, exactly once.
    pub fn with_event_handler(self, handler: u64) -> (r: Self)
        requires
            self.spec_view().spec_callback().installs < u64::MAX,
            self.spec_view().spec_callback().frees < u64::MAX,
        ensures
            r.spec_view().spec_callback() == self.spec_view().spec_callback().spec_after_install(
                handler,
            ),
            r.spec_view().spec_config() == self.spec_view().spec_config(),
            r.spec_view().spec_handle() == self.spec_view().spec_handle(),
    {
        let mut v = self;
        v.0.callback.install(handler);
        v
    }

    /// Return the parent window of this view, if any.
    pub fn parent(&self) -> (r: Option<ViewParent>)
        ensures
            r == self.spec_view().spec_config().parent,
    {
        self.0.parent()
    }

    /// Return the title of the window.
    pub fn title(&self) -> (r: String)
        ensures
            r@ == self.spec_view().spec_config().title@,
    {
        self.0.title()
    }

    /// Realize the view: the one-way, one-time transition that creates the
    /// corresponding system window.  `status` is what the native realize
    /// call returned.
    ///
    /// Success consumes the builder into a live [`View`].  Any failure maps
    /// to the [`ViewError`] naming the stage that failed, and the builder is
    /// consumed with it — the shell tears the native handle down through the
    /// normal view-free path, so no partially realized view is observable.
    pub fn realize(self, status: u32) -> (r: Result<View<B>, ViewError>)
        ensures
            status == RAW_SUCCESS <==> r is Ok,
            r is Ok ==> r == Ok::<View<B>, ViewError>(self.spec_view()),
            r is Err ==> r == Err::<View<B>, ViewError>(ViewError::spec_from_status(status)),
    {
        if status == RAW_SUCCESS {
            Ok(self.0)
        } else {
            Err(ViewError::from_status(status))
        }
    }
}

/// One native call of applying an accepted size update.
#[derive(Clone, Copy, PartialEq, Eq, Structural, Debug)]
pub enum HintCommand {
    /// Set an integer view hint.
    SetViewHint { hint: u32, value: i32 },
    /// Set a size hint to a width and height.
    SetSizeHint { hint: u32, width: u32, height: u32 },
}

/// The native calls that apply an accepted size update, in order.
///
/// A view the native layer holds non-resizable cannot be resized directly:
/// the update briefly marks it resizable, pins both size bounds to the new
/// size, sets the current size, and restores the non-resizable mark.  A
/// resizable view takes one call.
pub open spec fn spec_size_update_commands(resizable: bool, width: u32, height: u32) -> Seq<
    HintCommand,
> {
    if resizable {
        seq![HintCommand::SetSizeHint { hint: RAW_CURRENT_SIZE, width, height }]
    } else {
        seq![
            HintCommand::SetViewHint { hint: RAW_HINT_RESIZABLE, value: 1i32 },
            HintCommand::SetSizeHint { hint: RAW_MAX_SIZE, width, height },
            HintCommand::SetSizeHint { hint: RAW_MIN_SIZE, width, height },
            HintCommand::SetSizeHint { hint: RAW_CURRENT_SIZE, width, height },
            HintCommand::SetViewHint { hint: RAW_HINT_RESIZABLE, value: 0i32 },
        ]
    }
}

/// Build the native calls that apply an accepted size update: see
/// [`spec_size_update_commands`].
pub fn size_update_commands(resizable: bool, width: u32, height: u32) -> (r: Vec<HintCommand>)
    ensures
        r@ == spec_size_update_commands(resizable, width, height),
{
    let mut r: Vec<HintCommand> = Vec::new();
    if resizable {
        r.push(HintCommand::SetSizeHint { hint: RAW_CURRENT_SIZE, width, height });
    } else {
        r.push(HintCommand::SetViewHint { hint: RAW_HINT_RESIZABLE, value: 1 });
        r.push(HintCommand::SetSizeHint { hint: RAW_MAX_SIZE, width, height });
        r.push(HintCommand::SetSizeHint { hint: RAW_MIN_SIZE, width, height });
        r.push(HintCommand::SetSizeHint { hint: RAW_CURRENT_SIZE, width, height });
        r.push(HintCommand::SetViewHint { hint: RAW_HINT_RESIZABLE, value: 0 });
    }
    proof {
        assert(r@ =~= spec_size_update_commands(resizable, width, height));
    }
    r
}

/// Rejecting a size below the configured minimum, in particular: after
/// bounds of (128, 128) to (2048, 2048) are configured, a request of
/// (64, 64) — or any request below the minimum or above the maximum — is
/// rejected and the recorded size is unchanged.
pub proof fn lemma_set_size_respects_bounds(cfg: ViewConfig, width: u32, height: u32)
    requires
        cfg.min_size == Some((128u32, 128u32)),
        cfg.max_size == Some((2048u32, 2048u32)),
    ensures
        !spec_size_allowed(cfg, 64, 64),
        width < 128 || height < 128 || width > 2048 || height > 2048 ==> !spec_size_allowed(
            cfg,
            width,
            height,
        ),
{
}

} // verus!
