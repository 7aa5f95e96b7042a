//! A safety layer between a native, callback-driven windowing toolkit and
//! application code.
//!
//! The native toolkit exposes a C-style interface: opaque handles, one
//! polymorphic event union delivered through a function pointer, and explicit
//! create/free lifecycle calls.  This crate makes that interface hard to
//! misuse: it translates the untyped event union into a closed set of typed
//! variants, models the world/view lifecycle with its ownership rules, makes
//! the graphics backend a compile-time capability, and contains application
//! panics raised inside callbacks so that they never unwind across the
//! foreign boundary.
//!
//! The verified parts are the decisions: what each raw event becomes, which
//! clipboard offer to accept, which hints a backend installs, when the stored
//! callback is freed, and how a captured panic is re-raised exactly once.
//! The native calls themselves are made by an unverified shell around this
//! library, which feeds their results back in as plain values.

pub mod backend;
pub mod data;
pub mod event;
pub mod flags;
pub mod raw;
pub mod view;
pub mod world;

pub use backend::{Backend, BackendKind, HintSetting, InstallPlan, OpenGl, OpenGlContext,
    OpenGlVersion, Private};
pub use data::{CrossingMode, EventInput, Key, MouseButton, MouseCursor, Rect, ScrollDirection,
    TimerId, ViewType};
pub use event::{clipboard_data_event, clipboard_offer_accepts, is_text_plain, translate, Event,
    EventModel, Translation, TranslationModel};
pub use flags::{Modifiers, ViewStyle};
pub use raw::RawEvent;
pub use view::{dispatch_step, size_update_commands, CallbackSlot, DispatchPlan, HintCommand,
    NativeView, UnrealizedView, View, ViewConfig, ViewError, ViewParent};
pub use world::{NativeWorld, UpdateAction, World, WorldError, WorldInner, WorldMode};
