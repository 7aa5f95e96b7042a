//! The world: the entry point of an application over the native toolkit,
//! owner of the native world handle and of the poison slot that carries a
//! panic captured inside an event callback.
//!
//! A panic raised by application code inside a callback must never unwind
//! across the foreign boundary.  The dispatch path stores its payload in the
//! world's poison slot and reports success to native code; the next update
//! begins by taking the slot, and re-raises the payload — unchanged, exactly
//! once — instead of pumping.  The world value is generic in the payload type
//! `P`; the unverified shell instantiates it with whatever its panic runtime
//! captures.

use vstd::prelude::*;
use crate::backend::{Backend, InstallPlan};
use crate::raw::{RAW_SUCCESS, RAW_FAILURE, RAW_WORLD_PROGRAM, RAW_WORLD_MODULE,
    RAW_WORLD_THREADS};
use crate::view::UnrealizedView;

verus! {

/// A native world handle: the native layer's own windowing-system object
/// behind a world, as an opaque word.  It carries no ownership.
#[derive(Clone, Copy, PartialEq, Eq, Structural, Debug)]
pub struct NativeWorld {
    /// The native handle's raw form.
    pub ptr: usize,
}

impl NativeWorld {
    /// The raw form of the native handle.
    pub fn as_raw(&self) -> (r: usize)
        ensures
            r == self.ptr,
    {
        self.ptr
    }

    /// Construct a handle value from its raw form.  It names whatever object
    /// the raw word names; no validity is implied.
    pub fn from_raw(ptr: usize) -> (r: NativeWorld)
        ensures
            r == (NativeWorld { ptr }),
    {
        NativeWorld { ptr }
    }
}

/// World creation/update error: the native layer failed in a way it does not
/// explain.
#[derive(Clone, Copy, PartialEq, Eq, Structural, Debug)]
pub struct WorldError;

impl WorldError {
    /// A short description of the error.
    pub fn message(&self) -> (r: &'static str)
        ensures
            r@ == "unknown world error"@,
    {
        "unknown world error"
    }
}

/// Which mode a world is created in.
#[derive(Clone, Copy, PartialEq, Eq, Structural, Debug)]
pub enum WorldMode {
    /// A top-level application.
    Program,
    /// A plugin or module within a larger application; event delivery may
    /// additionally be requested from other threads.
    Module,
}

impl WorldMode {
    /// The raw world type and world flags this mode asks of the native
    /// layer: a module world requests multi-threaded event delivery.
    pub open spec fn spec_into_raw(self) -> (u32, u32) {
        match self {
            WorldMode::Program => (RAW_WORLD_PROGRAM, 0u32),
            WorldMode::Module => (RAW_WORLD_MODULE, RAW_WORLD_THREADS),
        }
    }

    /// Encode this mode as the raw world type and flags.
    pub fn into_raw(self) -> (r: (u32, u32))
        ensures
            r == self.spec_into_raw(),
    {
        match self {
            WorldMode::Program => (RAW_WORLD_PROGRAM, 0),
            WorldMode::Module => (RAW_WORLD_MODULE, RAW_WORLD_THREADS),
        }
    }
}

/// The state a world shares with every view created from it: the native
/// world handle and the poison slot.
///
/// The slot is one deep: it holds at most one captured panic payload, the
/// most recent one.  In the running system it sits behind a lock cleared on
/// read; the locking is the shell's, the transitions are verified here.
pub struct WorldInner<P> {
    handle: usize,
    poison: Option<P>,
}

impl<P> WorldInner<P> {
    /// The native world handle.
    pub closed spec fn spec_handle(self) -> usize {
        self.handle
    }

    /// The stored panic payload, if one is pending.
    pub closed spec fn spec_poison(self) -> Option<P> {
        self.poison
    }

    /// Wrap a native world handle with an empty poison slot.
    pub fn wrap(handle: usize) -> (r: WorldInner<P>)
        ensures
            r.spec_handle() == handle,
            r.spec_poison() is None,
    {
        WorldInner { handle, poison: None }
    }

    /// Replace the poison slot's content, returning what it held: the
    /// store-and-clear primitive both the dispatch path and the update path
    /// use.
    pub fn replace_poison(&mut self, panic: Option<P>) -> (r: Option<P>)
        ensures
            final(self).spec_poison() == panic,
            final(self).spec_handle() == old(self).spec_handle(),
            r == old(self).spec_poison(),
    {
        let r = self.poison.take();
        self.poison = panic;
        r
    }
}

/// What an update call does before any native work: re-raise a pending
/// panic, or go on to pump the native event loop.
pub enum UpdateAction<P> {
    /// A panic was captured since the last update: re-raise this payload on
    /// the calling thread instead of pumping.
    Raise(P),
    /// Nothing is pending: pump one iteration of the native event loop.
    Pump,
}

/// The poison slot after the dispatch path captured a panic: it holds the
/// new payload, replacing any previous content.
pub open spec fn spec_poison_after_store<P>(slot: Option<P>, payload: P) -> Option<P> {
    Some(payload)
}

/// What beginning an update does for a given slot content.
pub open spec fn spec_update_action<P>(slot: Option<P>) -> UpdateAction<P> {
    match slot {
        Some(p) => UpdateAction::Raise(p),
        None => UpdateAction::Pump,
    }
}

/// The poison slot after an update began: cleared, whatever it held.
pub open spec fn spec_poison_after_update<P>(slot: Option<P>) -> Option<P> {
    None
}

/// Panic containment is exactly-once: after a captured panic is stored, the
/// next update re-raises exactly that payload and clears the slot, and the
/// update after that pumps normally.  Storing replaces any previous content,
/// so at most one panic is ever pending.
pub proof fn lemma_panic_containment<P>(slot: Option<P>, payload: P)
    ensures
        spec_update_action(spec_poison_after_store(slot, payload)) == UpdateAction::Raise(payload),
        spec_poison_after_update(spec_poison_after_store(slot, payload)) is None,
        spec_update_action(spec_poison_after_update(spec_poison_after_store(slot, payload)))
            == UpdateAction::<P>::Pump,
{
}

/// The entry point of an application over the native toolkit.
///
/// The world represents everything not associated with a particular view.
/// Several worlds can exist in one process, but code using different worlds
/// must be isolated.  Views are strongly associated with the world they were
/// created in: in the running system the world's native handle is shared,
/// reference-counted, by the world value and every live view, and is freed
/// when the last of them goes.
pub struct World<P> {
    inner: WorldInner<P>,
    mode: WorldMode,
    class_name: String,
}

impl<P> World<P> {
    /// The native world handle.
    pub closed spec fn spec_handle(self) -> usize {
        self.inner.spec_handle()
    }

    /// The stored panic payload, if one is pending.
    pub closed spec fn spec_poison(self) -> Option<P> {
        self.inner.spec_poison()
    }

    /// The mode the world was created in.
    pub closed spec fn spec_mode(self) -> WorldMode {
        self.mode
    }

    /// The application class name set so far.
    pub closed spec fn spec_class_name(self) -> Seq<char> {
        self.class_name@
    }

    /// Create a world in program mode, for a top-level application, over the
    /// handle the native allocation returned.  A zero handle is the native
    /// layer's allocation failure and is reported, not fatal.
    pub fn new_program(handle: usize) -> (r: Result<World<P>, WorldError>)
        ensures
            handle != 0 <==> r is Ok,
            r is Ok ==> r.unwrap().spec_handle() == handle && r.unwrap().spec_mode()
                == WorldMode::Program && r.unwrap().spec_poison() is None
                && r.unwrap().spec_class_name() == Seq::<char>::empty(),
            r is Err ==> r == Err::<World<P>, WorldError>(WorldError),
    {
        if handle != 0 {
            Ok(World { inner: WorldInner::wrap(handle), mode: WorldMode::Program, class_name: String::new() })
        } else {
            Err(WorldError)
        }
    }

    /// Create a world in module mode, for a plugin or module within a larger
    /// application.  A zero handle is the native layer's allocation failure.
    pub fn new_module(handle: usize) -> (r: Result<World<P>, WorldError>)
        ensures
            handle != 0 <==> r is Ok,
            r is Ok ==> r.unwrap().spec_handle() == handle && r.unwrap().spec_mode()
                == WorldMode::Module && r.unwrap().spec_poison() is None
                && r.unwrap().spec_class_name() == Seq::<char>::empty(),
            r is Err ==> r == Err::<World<P>, WorldError>(WorldError),
    {
        if handle != 0 {
            Ok(World { inner: WorldInner::wrap(handle), mode: WorldMode::Module, class_name: String::new() })
        } else {
            Err(WorldError)
        }
    }

    /// Set the application class name: a stable identifier, the same for
    /// every instance of the application and different from any other
    /// application, used by window systems for configuration and window
    /// management rules.
    pub fn with_class_name(self, name: &str) -> (r: World<P>)
        ensures
            r.spec_class_name() == name@,
            r.spec_handle() == self.spec_handle(),
            r.spec_mode() == self.spec_mode(),
            r.spec_poison() == self.spec_poison(),
    {
        let mut w = self;
        w.set_class_name(name);
        w
    }

    /// Set the application class name in place; [`World::with_class_name`]
    /// is the builder-style form.
    pub fn set_class_name(&mut self, name: &str)
        ensures
            final(self).spec_class_name() == name@,
            final(self).spec_handle() == old(self).spec_handle(),
            final(self).spec_mode() == old(self).spec_mode(),
            final(self).spec_poison() == old(self).spec_poison(),
    {
        self.class_name = name.to_owned();
    }

    /// The application class name set so far.
    pub fn class_name(&self) -> (r: String)
        ensures
            r@ == self.spec_class_name(),
    {
        self.class_name.clone()
    }

    /// Create a new unrealized view under this world, with the given backend
    /// capability installed, over the handle the native view allocation
    /// returned.  Returns the builder and the installation the backend asks
    /// of the native layer; the shell also registers the dispatch trampoline
    /// as the view's sole event handler.
    pub fn new_view<B: Backend>(&self, backend: B, view_handle: usize) -> (r: (
        UnrealizedView<B>,
        InstallPlan,
    ))
        ensures
            r.0.spec_view().spec_handle() == view_handle,
            r.0.spec_view().spec_callback() == (crate::view::CallbackSlot {
                handler: None::<u64>,
                installs: 0u64,
                frees: 0u64,
            }),
            r.0.spec_view().spec_config().spec_is_fresh(),
            r.1.kind == backend.spec_kind(),
            r.1.hints@ == backend.spec_hints(),
    {
        UnrealizedView::new(view_handle, backend)
    }

    /// Store a panic captured inside an event callback, replacing any
    /// previous content — at most one panic is pending per world.  Returns
    /// the status the trampoline hands back to native code: success, as if
    /// nothing failed, so the native call stack is never unwound.
    pub fn absorb_panic(&mut self, payload: P) -> (status: u32)
        ensures
            final(self).spec_poison() == spec_poison_after_store(old(self).spec_poison(), payload),
            final(self).spec_handle() == old(self).spec_handle(),
            final(self).spec_mode() == old(self).spec_mode(),
            final(self).spec_class_name() == old(self).spec_class_name(),
            status == RAW_SUCCESS,
    {
        self.inner.replace_poison(Some(payload));
        RAW_SUCCESS
    }

    /// Begin one update: before any native work, check the poison slot.  If
    /// a panic is pending, clear the slot and re-raise the payload on the
    /// calling thread — that is the returned action — instead of pumping.
    pub fn begin_update(&mut self) -> (r: UpdateAction<P>)
        ensures
            final(self).spec_poison() == spec_poison_after_update(old(self).spec_poison()),
            final(self).spec_handle() == old(self).spec_handle(),
            final(self).spec_mode() == old(self).spec_mode(),
            final(self).spec_class_name() == old(self).spec_class_name(),
            r == spec_update_action(old(self).spec_poison()),
    {
        match self.inner.replace_poison(None) {
            Some(p) => UpdateAction::Raise(p),
            None => UpdateAction::Pump,
        }
    }

    /// Finish one update: interpret what the native pump returned.  Success
    /// means an event was processed; the distinguished failure status means
    /// the timeout passed with no event; anything else is an unrecognized
    /// native failure.
    pub fn update_outcome(status: u32) -> (r: Result<bool, WorldError>)
        ensures
            status == RAW_SUCCESS ==> r == Ok::<bool, WorldError>(true),
            status == RAW_FAILURE ==> r == Ok::<bool, WorldError>(false),
            status != RAW_SUCCESS && status != RAW_FAILURE ==> r == Err::<bool, WorldError>(
                WorldError,
            ),
    {
        if status == RAW_SUCCESS {
            Ok(true)
        } else if status == RAW_FAILURE {
            Ok(false)
        } else {
            Err(WorldError)
        }
    }
}

} // verus!
