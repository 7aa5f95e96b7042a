//! The event translator: the total mapping from one raw polymorphic event
//! record into the closed set of typed events, and the decisions of the
//! two-phase clipboard negotiation.
//!
//! Translation is keyed by the raw record's discriminant.  Every raw kind
//! maps to exactly one typed variant or to nothing: unrecognized
//! discriminants and undecodable text degrade to "no event", never to an
//! error or a corrupted string.  The two clipboard kinds do not reach the
//! application directly; they hand control to the offer and data phases,
//! whose decisions are [`clipboard_offer_accepts`] and
//! [`clipboard_data_event`].

use vstd::prelude::*;
use vstd::utf8::{valid_utf8, decode_utf8, encode_utf8_decode_utf8};
use vstd::string::StringSliceAdditionalSpecFns;
use crate::backend::{Backend, Private};
use crate::data::{CrossingMode, EventInput, Key, MouseButton, Rect, ScrollDirection, TimerId};
use crate::flags::{Modifiers, ViewStyle};
use crate::raw::{RawEvent, RAW_REALIZE, RAW_UNREALIZE, RAW_CONFIGURE, RAW_UPDATE, RAW_EXPOSE,
    RAW_CLOSE, RAW_FOCUS_IN, RAW_FOCUS_OUT, RAW_KEY_PRESS, RAW_KEY_RELEASE, RAW_TEXT,
    RAW_POINTER_IN, RAW_POINTER_OUT, RAW_BUTTON_PRESS, RAW_BUTTON_RELEASE, RAW_MOTION,
    RAW_SCROLL, RAW_CLIENT, RAW_TIMER, RAW_LOOP_ENTER, RAW_LOOP_LEAVE, RAW_DATA_OFFER, RAW_DATA,
    RAW_IS_HINT, RAW_TEXT_LEN};

verus! {

/// A view event, as delivered to the application's event handler.
///
/// The backend-context variants carry values produced for one callback
/// invocation; they must not be retained past it.
pub enum Event<B: Backend> {
    /// View resize or move notification.  The graphics context is active but
    /// not set up for drawing: configuring it is valid, drawing is not.
    Configure { rect: Rect, style: ViewStyle },
    /// The view was realized, before it is first displayed; used to set up
    /// graphics resources.  No drawing.
    Realize { backend: B::SetupContext },
    /// The counterpart of the realize event: the view will no longer be
    /// displayed; used to tear down what realize set up.
    Unrealize { backend: B::SetupContext },
    /// The window system entered a recursive loop (a live resize, a menu);
    /// the normal pump does not run until the matching leave event.
    EnterLoop,
    /// The recursive loop finished and normal iteration continues.
    LeaveLoop,
    /// The view is to be closed, for example by the window's close button;
    /// the application decides whether to act.
    Close,
    /// Fired once per pump iteration before pending exposures are redrawn;
    /// typically used to mark regions dirty for the subsequent expose.
    Update,
    /// A region must be redrawn in full: its prior contents are undefined.
    Expose { backend: B::DrawContext, rect: Rect },
    /// The view gained the keyboard focus.
    FocusIn { mode: CrossingMode },
    /// The view lost the keyboard focus.
    FocusOut { mode: CrossingMode },
    /// Low-level key press.  Not to be interpreted as text input.
    KeyPress { input: EventInput, keycode: u32, key: Key },
    /// Low-level key release.  Not to be interpreted as text input.
    KeyRelease { input: EventInput, keycode: u32, key: Key },
    /// Text produced by the platform's input system; there is no direct
    /// correspondence with physical key presses.
    KeyText { input: EventInput, keycode: u32, text: String },
    /// The pointer entered the view, for the reason `mode` gives.
    PointerIn { input: EventInput, mode: CrossingMode },
    /// The pointer left the view, for the reason `mode` gives.
    PointerOut { input: EventInput, mode: CrossingMode },
    /// The pointer moved inside the view.
    PointerMotion { input: EventInput },
    /// A mouse button was pressed.
    ButtonPress { input: EventInput, button: MouseButton },
    /// A mouse button was released.
    ButtonRelease { input: EventInput, button: MouseButton },
    /// A scroll by `dx`/`dy` lines (native `double` bit patterns); one
    /// vertical line is one tick of a detented mouse wheel.
    Scroll { input: EventInput, direction: ScrollDirection, dx: u64, dy: u64 },
    /// A repeating timer fired; `id` says which one.
    Timer { id: TimerId },
    /// An application-defined two-word payload sent through the native event
    /// queue, enabling cross-thread or deferred wakeups of the loop.
    Client { data: [usize; 2] },
    /// The clipboard held text when a paste was requested; produced only by
    /// the two-phase negotiation.
    Clipboard { text: String },
}

/// The mathematical shape of a typed event: the same variants as
/// [`Event`], with text as its character sequence and without the backend
/// context values (those are pinned separately, to the view handle).
pub enum EventModel {
    Configure { rect: Rect, style: ViewStyle },
    Realize,
    Unrealize,
    EnterLoop,
    LeaveLoop,
    Close,
    Update,
    Expose { rect: Rect },
    FocusIn { mode: CrossingMode },
    FocusOut { mode: CrossingMode },
    KeyPress { input: EventInput, keycode: u32, key: Key },
    KeyRelease { input: EventInput, keycode: u32, key: Key },
    KeyText { input: EventInput, keycode: u32, text: Seq<char> },
    PointerIn { input: EventInput, mode: CrossingMode },
    PointerOut { input: EventInput, mode: CrossingMode },
    PointerMotion { input: EventInput },
    ButtonPress { input: EventInput, button: MouseButton },
    ButtonRelease { input: EventInput, button: MouseButton },
    Scroll { input: EventInput, direction: ScrollDirection, dx: u64, dy: u64 },
    Timer { id: TimerId },
    Client { data: [usize; 2] },
    Clipboard { text: Seq<char> },
}

impl<B: Backend> Event<B> {
    /// The mathematical shape of this event.
    pub open spec fn model(self) -> EventModel {
        match self {
            Event::Configure { rect, style } => EventModel::Configure { rect, style },
            Event::Realize { .. } => EventModel::Realize,
            Event::Unrealize { .. } => EventModel::Unrealize,
            Event::EnterLoop => EventModel::EnterLoop,
            Event::LeaveLoop => EventModel::LeaveLoop,
            Event::Close => EventModel::Close,
            Event::Update => EventModel::Update,
            Event::Expose { rect, .. } => EventModel::Expose { rect },
            Event::FocusIn { mode } => EventModel::FocusIn { mode },
            Event::FocusOut { mode } => EventModel::FocusOut { mode },
            Event::KeyPress { input, keycode, key } => EventModel::KeyPress {
                input,
                keycode,
                key,
            },
            Event::KeyRelease { input, keycode, key } => EventModel::KeyRelease {
                input,
                keycode,
                key,
            },
            Event::KeyText { input, keycode, text } => EventModel::KeyText {
                input,
                keycode,
                text: text@,
            },
            Event::PointerIn { input, mode } => EventModel::PointerIn { input, mode },
            Event::PointerOut { input, mode } => EventModel::PointerOut { input, mode },
            Event::PointerMotion { input } => EventModel::PointerMotion { input },
            Event::ButtonPress { input, button } => EventModel::ButtonPress { input, button },
            Event::ButtonRelease { input, button } => EventModel::ButtonRelease { input, button },
            Event::Scroll { input, direction, dx, dy } => EventModel::Scroll {
                input,
                direction,
                dx,
                dy,
            },
            Event::Timer { id } => EventModel::Timer { id },
            Event::Client { data } => EventModel::Client { data },
            Event::Clipboard { text } => EventModel::Clipboard { text: text@ },
        }
    }
}

/// What translating one raw record asks of the caller.
pub enum Translation<B: Backend> {
    /// A typed event resulted; deliver it to the installed handler.
    Deliver(Event<B>),
    /// No typed representation; drop the raw event silently.
    Ignore,
    /// The raw record was a clipboard data offer: run the offer phase over
    /// the advertised types and accept what [`clipboard_offer_accepts`]
    /// returns.  No typed event reaches the application for this phase.
    OfferPhase,
    /// The raw record announced clipboard data: fetch the type and bytes at
    /// `type_index` and hand them to [`clipboard_data_event`].
    DataPhase { type_index: u32 },
}

/// The mathematical shape of a translation outcome.
pub enum TranslationModel {
    Deliver(EventModel),
    Ignore,
    OfferPhase,
    DataPhase { type_index: u32 },
}

impl<B: Backend> Translation<B> {
    /// The mathematical shape of this outcome.
    pub open spec fn model(self) -> TranslationModel {
        match self {
            Translation::Deliver(e) => TranslationModel::Deliver(e.model()),
            Translation::Ignore => TranslationModel::Ignore,
            Translation::OfferPhase => TranslationModel::OfferPhase,
            Translation::DataPhase { type_index } => TranslationModel::DataPhase { type_index },
        }
    }
}

/// The input fields shared by the pointer and keyboard events of a raw
/// record.
pub open spec fn spec_input(raw: RawEvent) -> EventInput {
    EventInput {
        time: raw.time,
        x: raw.x,
        y: raw.y,
        root_x: raw.x_root,
        root_y: raw.y_root,
        mods: Modifiers::spec_from_raw(raw.state),
        hint: raw.flags & RAW_IS_HINT != 0,
    }
}

/// The rectangle of a raw configure or expose record.
pub open spec fn spec_rect(raw: RawEvent) -> Rect {
    Rect { x: raw.pos_x as i32, y: raw.pos_y as i32, w: raw.width as u32, h: raw.height as u32 }
}

/// Index of the first zero byte, or the length when none occurs.
pub open spec fn first_zero(s: Seq<u8>) -> int
    decreases s.len(),
{
    if s.len() == 0 {
        0
    } else if s[0] == 0 {
        0
    } else {
        1 + first_zero(s.skip(1))
    }
}

/// The bytes before the first zero byte: what a raw text buffer carries.
pub open spec fn text_prefix(s: Seq<u8>) -> Seq<u8> {
    s.take(first_zero(s))
}

/// `first_zero` is the unique index with no zero byte before it that either
/// sits on a zero byte or ends the sequence.
pub proof fn lemma_first_zero_characterization(s: Seq<u8>, i: int)
    requires
        0 <= i <= s.len(),
        forall|j: int| 0 <= j < i ==> s[j] != 0,
        i < s.len() ==> s[i] == 0,
    ensures
        first_zero(s) == i,
    decreases s.len(),
{
    if s.len() == 0 {
    } else if s[0] == 0 {
        assert(i == 0);
    } else {
        assert(i >= 1);
        let t = s.skip(1);
        assert(forall|j: int| 0 <= j < i - 1 ==> t[j] == s[j + 1] && t[j] != 0);
        assert(i - 1 < t.len() ==> t[i - 1] == s[i]);
        lemma_first_zero_characterization(t, i - 1);
    }
}

/// The total mapping from a raw record to the shape of its typed outcome,
/// keyed by the record's discriminant.
pub open spec fn spec_translate(raw: RawEvent) -> TranslationModel {
    if raw.kind == RAW_REALIZE {
        TranslationModel::Deliver(EventModel::Realize)
    } else if raw.kind == RAW_UNREALIZE {
        TranslationModel::Deliver(EventModel::Unrealize)
    } else if raw.kind == RAW_LOOP_ENTER {
        TranslationModel::Deliver(EventModel::EnterLoop)
    } else if raw.kind == RAW_LOOP_LEAVE {
        TranslationModel::Deliver(EventModel::LeaveLoop)
    } else if raw.kind == RAW_CONFIGURE {
        TranslationModel::Deliver(EventModel::Configure {
            rect: spec_rect(raw),
            style: ViewStyle::spec_from_raw(raw.style),
        })
    } else if raw.kind == RAW_CLOSE {
        TranslationModel::Deliver(EventModel::Close)
    } else if raw.kind == RAW_UPDATE {
        TranslationModel::Deliver(EventModel::Update)
    } else if raw.kind == RAW_EXPOSE {
        TranslationModel::Deliver(EventModel::Expose { rect: spec_rect(raw) })
    } else if raw.kind == RAW_FOCUS_IN {
        TranslationModel::Deliver(EventModel::FocusIn {
            mode: CrossingMode::spec_from_raw(raw.mode),
        })
    } else if raw.kind == RAW_FOCUS_OUT {
        TranslationModel::Deliver(EventModel::FocusOut {
            mode: CrossingMode::spec_from_raw(raw.mode),
        })
    } else if raw.kind == RAW_KEY_PRESS {
        TranslationModel::Deliver(EventModel::KeyPress {
            input: spec_input(raw),
            keycode: raw.keycode,
            key: Key::spec_from_raw(raw.key),
        })
    } else if raw.kind == RAW_KEY_RELEASE {
        TranslationModel::Deliver(EventModel::KeyRelease {
            input: spec_input(raw),
            keycode: raw.keycode,
            key: Key::spec_from_raw(raw.key),
        })
    } else if raw.kind == RAW_TEXT {
        if valid_utf8(text_prefix(raw.text@)) {
            TranslationModel::Deliver(EventModel::KeyText {
                input: spec_input(raw),
                keycode: raw.keycode,
                text: decode_utf8(text_prefix(raw.text@)),
            })
        } else {
            TranslationModel::Ignore
        }
    } else if raw.kind == RAW_POINTER_IN {
        TranslationModel::Deliver(EventModel::PointerIn {
            input: spec_input(raw),
            mode: CrossingMode::spec_from_raw(raw.mode),
        })
    } else if raw.kind == RAW_POINTER_OUT {
        TranslationModel::Deliver(EventModel::PointerOut {
            input: spec_input(raw),
            mode: CrossingMode::spec_from_raw(raw.mode),
        })
    } else if raw.kind == RAW_BUTTON_PRESS {
        TranslationModel::Deliver(EventModel::ButtonPress {
            input: spec_input(raw),
            button: MouseButton::spec_from_raw(raw.button),
        })
    } else if raw.kind == RAW_BUTTON_RELEASE {
        TranslationModel::Deliver(EventModel::ButtonRelease {
            input: spec_input(raw),
            button: MouseButton::spec_from_raw(raw.button),
        })
    } else if raw.kind == RAW_MOTION {
        TranslationModel::Deliver(EventModel::PointerMotion { input: spec_input(raw) })
    } else if raw.kind == RAW_SCROLL {
        TranslationModel::Deliver(EventModel::Scroll {
            input: spec_input(raw),
            direction: ScrollDirection::spec_from_raw(raw.direction),
            dx: raw.dx,
            dy: raw.dy,
        })
    } else if raw.kind == RAW_CLIENT {
        TranslationModel::Deliver(EventModel::Client { data: [raw.data1, raw.data2] })
    } else if raw.kind == RAW_TIMER {
        TranslationModel::Deliver(EventModel::Timer { id: raw.id })
    } else if raw.kind == RAW_DATA_OFFER {
        TranslationModel::OfferPhase
    } else if raw.kind == RAW_DATA {
        TranslationModel::DataPhase { type_index: raw.type_index }
    } else {
        TranslationModel::Ignore
    }
}

/// The full contract of translating one raw record for a view: the outcome's
/// shape is [`spec_translate`] of the record, and every backend context it
/// carries is the one bound to the view.
pub open spec fn spec_translates_to<B: Backend>(
    view: usize,
    raw: RawEvent,
    r: Translation<B>,
) -> bool {
    &&& r.model() == spec_translate(raw)
    &&& (match r {
        Translation::Deliver(e) => match e {
            Event::Realize { backend } => backend == B::spec_setup(view),
            Event::Unrealize { backend } => backend == B::spec_setup(view),
            Event::Expose { backend, .. } => backend == B::spec_draw(view),
            _ => true,
        },
        _ => true,
    })
}

/// Translation is deterministic: the outcomes of translating one raw record
/// for one view have the same shape — the same typed variant with identical
/// field values, text compared by its characters — and carry the same
/// backend context.
pub proof fn lemma_translation_deterministic<B: Backend>(
    view: usize,
    raw: RawEvent,
    r1: Translation<B>,
    r2: Translation<B>,
)
    requires
        spec_translates_to::<B>(view, raw, r1),
        spec_translates_to::<B>(view, raw, r2),
    ensures
        r1.model() == r2.model(),
        (r1 matches Translation::Deliver(e1) && r2 matches Translation::Deliver(e2)
            && !(e1.model() is KeyText)) ==> r1 == r2,
{
    match (r1, r2) {
        (Translation::Deliver(e1), Translation::Deliver(e2)) => {
            assert(e1.model() == e2.model());
            if !(e1.model() is KeyText) {
                match e1 {
                    Event::Configure { .. } => { assert(e1 == e2); },
                    Event::Realize { .. } => { assert(e1 == e2); },
                    Event::Unrealize { .. } => { assert(e1 == e2); },
                    Event::EnterLoop => { assert(e1 == e2); },
                    Event::LeaveLoop => { assert(e1 == e2); },
                    Event::Close => { assert(e1 == e2); },
                    Event::Update => { assert(e1 == e2); },
                    Event::Expose { .. } => { assert(e1 == e2); },
                    Event::FocusIn { .. } => { assert(e1 == e2); },
                    Event::FocusOut { .. } => { assert(e1 == e2); },
                    Event::KeyPress { .. } => { assert(e1 == e2); },
                    Event::KeyRelease { .. } => { assert(e1 == e2); },
                    Event::KeyText { .. } => { assert(false); },
                    Event::PointerIn { .. } => { assert(e1 == e2); },
                    Event::PointerOut { .. } => { assert(e1 == e2); },
                    Event::PointerMotion { .. } => { assert(e1 == e2); },
                    Event::ButtonPress { .. } => { assert(e1 == e2); },
                    Event::ButtonRelease { .. } => { assert(e1 == e2); },
                    Event::Scroll { .. } => { assert(e1 == e2); },
                    Event::Timer { .. } => { assert(e1 == e2); },
                    Event::Client { .. } => { assert(e1 == e2); },
                    Event::Clipboard { .. } => { assert(false); },
                }
            }
        },
        _ => {},
    }
}

/// Relies on `core::str::from_utf8`: `Ok` exactly when the bytes are valid
/// UTF-8, and then the string slice over those same bytes.
#[verifier::external_body]
fn try_as_str(v: &[u8]) -> (r: Option<&str>)
    ensures
        r is Some <==> valid_utf8(v@),
        r is Some ==> r.unwrap().spec_bytes() == v@,
{
    core::str::from_utf8(v).ok()
}

/// Copy the bytes of a raw text buffer up to (and excluding) its first zero
/// byte, or all of them when none occurs.
fn text_prefix_bytes(text: &[u8; 8]) -> (r: Vec<u8>)
    ensures
        r@ == text_prefix(text@),
{
    let mut n: usize = 0;
    while n < RAW_TEXT_LEN && text[n] != 0
        invariant
            n <= RAW_TEXT_LEN,
            text@.len() == RAW_TEXT_LEN,
            forall|j: int| 0 <= j < n ==> text@[j] != 0,
        decreases RAW_TEXT_LEN - n,
    {
        n += 1;
    }
    proof {
        lemma_first_zero_characterization(text@, n as int);
    }
    let mut r: Vec<u8> = Vec::new();
    let mut k: usize = 0;
    while k < n
        invariant
            k <= n,
            n <= RAW_TEXT_LEN,
            text@.len() == RAW_TEXT_LEN,
            r@ == text@.take(k as int),
        decreases n - k,
    {
        r.push(text[k]);
        proof {
            assert(r@ =~= text@.take(k + 1 as int));
        }
        k += 1;
    }
    proof {
        assert(r@ =~= text_prefix(text@));
    }
    r
}

/// Build the shared input fields from a raw record.
fn make_input(raw: &RawEvent) -> (r: EventInput)
    ensures
        r == spec_input(*raw),
{
    EventInput {
        time: raw.time,
        x: raw.x,
        y: raw.y,
        root_x: raw.x_root,
        root_y: raw.y_root,
        mods: Modifiers::from_raw(raw.state),
        hint: raw.flags & RAW_IS_HINT != 0,
    }
}

/// Build the rectangle of a raw configure or expose record.
fn make_rect(raw: &RawEvent) -> (r: Rect)
    ensures
        r == spec_rect(*raw),
{
    Rect { x: raw.pos_x as i32, y: raw.pos_y as i32, w: raw.width as u32, h: raw.height as u32 }
}

/// Translate one raw event record delivered to `view`.
///
/// This is the total mapping of the event layer: every raw kind either
/// becomes exactly one typed event, is dropped silently, or hands control to
/// one of the two clipboard phases.  Text that is not valid UTF-8 up to its
/// first zero byte drops the whole event.
pub fn translate<B: Backend>(view: usize, raw: &RawEvent) -> (r: Translation<B>)
    ensures
        spec_translates_to::<B>(view, *raw, r),
{
    if raw.kind == RAW_REALIZE {
        Translation::Deliver(Event::Realize { backend: B::setup(view, Private::token()) })
    } else if raw.kind == RAW_UNREALIZE {
        Translation::Deliver(Event::Unrealize { backend: B::setup(view, Private::token()) })
    } else if raw.kind == RAW_LOOP_ENTER {
        Translation::Deliver(Event::EnterLoop)
    } else if raw.kind == RAW_LOOP_LEAVE {
        Translation::Deliver(Event::LeaveLoop)
    } else if raw.kind == RAW_CONFIGURE {
        Translation::Deliver(Event::Configure {
            rect: make_rect(raw),
            style: ViewStyle::from_raw(raw.style),
        })
    } else if raw.kind == RAW_CLOSE {
        Translation::Deliver(Event::Close)
    } else if raw.kind == RAW_UPDATE {
        Translation::Deliver(Event::Update)
    } else if raw.kind == RAW_EXPOSE {
        Translation::Deliver(Event::Expose {
            backend: B::draw(view, Private::token()),
            rect: make_rect(raw),
        })
    } else if raw.kind == RAW_FOCUS_IN {
        Translation::Deliver(Event::FocusIn { mode: CrossingMode::from_raw(raw.mode) })
    } else if raw.kind == RAW_FOCUS_OUT {
        Translation::Deliver(Event::FocusOut { mode: CrossingMode::from_raw(raw.mode) })
    } else if raw.kind == RAW_KEY_PRESS {
        Translation::Deliver(Event::KeyPress {
            input: make_input(raw),
            keycode: raw.keycode,
            key: Key::from_raw(raw.key),
        })
    } else if raw.kind == RAW_KEY_RELEASE {
        Translation::Deliver(Event::KeyRelease {
            input: make_input(raw),
            keycode: raw.keycode,
            key: Key::from_raw(raw.key),
        })
    } else if raw.kind == RAW_TEXT {
        let bytes = text_prefix_bytes(&raw.text);
        match try_as_str(bytes.as_slice()) {
            Some(s) => {
                let text = s.to_owned();
                proof {
                    encode_utf8_decode_utf8(s@);
                }
                Translation::Deliver(Event::KeyText {
                    input: make_input(raw),
                    keycode: raw.keycode,
                    text,
                })
            },
            None => Translation::Ignore,
        }
    } else if raw.kind == RAW_POINTER_IN {
        Translation::Deliver(Event::PointerIn {
            input: make_input(raw),
            mode: CrossingMode::from_raw(raw.mode),
        })
    } else if raw.kind == RAW_POINTER_OUT {
        Translation::Deliver(Event::PointerOut {
            input: make_input(raw),
            mode: CrossingMode::from_raw(raw.mode),
        })
    } else if raw.kind == RAW_BUTTON_PRESS {
        Translation::Deliver(Event::ButtonPress {
            input: make_input(raw),
            button: MouseButton::from_raw(raw.button),
        })
    } else if raw.kind == RAW_BUTTON_RELEASE {
        Translation::Deliver(Event::ButtonRelease {
            input: make_input(raw),
            button: MouseButton::from_raw(raw.button),
        })
    } else if raw.kind == RAW_MOTION {
        Translation::Deliver(Event::PointerMotion { input: make_input(raw) })
    } else if raw.kind == RAW_SCROLL {
        Translation::Deliver(Event::Scroll {
            input: make_input(raw),
            direction: ScrollDirection::from_raw(raw.direction),
            dx: raw.dx,
            dy: raw.dy,
        })
    } else if raw.kind == RAW_CLIENT {
        Translation::Deliver(Event::Client { data: [raw.data1, raw.data2] })
    } else if raw.kind == RAW_TIMER {
        Translation::Deliver(Event::Timer { id: raw.id })
    } else if raw.kind == RAW_DATA_OFFER {
        Translation::OfferPhase
    } else if raw.kind == RAW_DATA {
        Translation::DataPhase { type_index: raw.type_index }
    } else {
        Translation::Ignore
    }
}

/// Compare two byte slices for equality.
fn bytes_eq(a: &[u8], b: &[u8]) -> (r: bool)
    ensures
        r == (a@ == b@),
{
    if a.len() != b.len() {
        proof {
            assert(a@.len() != b@.len());
        }
        return false;
    }
    let mut i: usize = 0;
    while i < a.len()
        invariant
            i <= a@.len(),
            a@.len() == b@.len(),
            forall|j: int| 0 <= j < i ==> a@[j] == b@[j],
        decreases a@.len() - i,
    {
        if a[i] != b[i] {
            return false;
        }
        i += 1;
    }
    proof {
        assert(a@ =~= b@);
    }
    true
}

/// Decide whether a clipboard type name is the one supported type,
/// `text/plain`.
pub fn is_text_plain(name: &str) -> (r: bool)
    ensures
        r == (name@ == "text/plain"@),
{
    let r = bytes_eq(name.as_bytes(), "text/plain".as_bytes());
    proof {
        encode_utf8_decode_utf8(name@);
        encode_utf8_decode_utf8("text/plain"@);
    }
    r
}

/// The offer phase of the clipboard negotiation: given the types a clipboard
/// owner advertises, the indices to accept — exactly those whose type is
/// `text/plain`, in ascending order.  All other types are ignored, never
/// accepted.
pub fn clipboard_offer_accepts(types: &Vec<String>) -> (r: Vec<u32>)
    requires
        types@.len() <= u32::MAX,
    ensures
        forall|k: int| 0 <= k < r@.len() ==> #[trigger] r@[k] < types@.len(),
        forall|k: int| 0 <= k < r@.len() ==> types@[#[trigger] r@[k] as int]@ == "text/plain"@,
        forall|i: int|
            0 <= i < types@.len() && types@[i]@ == "text/plain"@ ==> r@.contains(i as u32),
        forall|k1: int, k2: int| 0 <= k1 < k2 < r@.len() ==> r@[k1] < r@[k2],
{
    let mut r: Vec<u32> = Vec::new();
    let mut i: usize = 0;
    while i < types.len()
        invariant
            i <= types@.len(),
            types@.len() <= u32::MAX,
            forall|k: int| 0 <= k < r@.len() ==> #[trigger] r@[k] < i,
            forall|k: int| 0 <= k < r@.len() ==> types@[#[trigger] r@[k] as int]@ == "text/plain"@,
            forall|j: int|
                0 <= j < i && types@[j]@ == "text/plain"@ ==> r@.contains(j as u32),
            forall|k1: int, k2: int| 0 <= k1 < k2 < r@.len() ==> r@[k1] < r@[k2],
        decreases types@.len() - i,
    {
        if is_text_plain(types[i].as_str()) {
            let ghost old_r = r@;
            r.push(i as u32);
            proof {
                assert forall|j: int|
                    0 <= j < i && types@[j]@ == "text/plain"@ implies r@.contains(
                    j as u32,
                ) by {
                    assert(old_r.contains(j as u32));
                    let k = choose|k: int| 0 <= k < old_r.len() && old_r[k] == j as u32;
                    assert(r@[k] == j as u32);
                }
                assert(r@.contains(i as u32)) by {
                    assert(r@[r@.len() - 1] == i as u32);
                }
            }
        }
        i += 1;
    }
    r
}

/// The data phase of the clipboard negotiation: given the announced type's
/// name and the bytes the native layer produced for it (absent when it had
/// none), the typed event that results.
///
/// Exactly a `text/plain` type with present, UTF-8-valid bytes yields a
/// clipboard event carrying that text; everything else yields no event.
pub fn clipboard_data_event<B: Backend>(mime: &str, data: Option<&[u8]>) -> (r: Option<
    Event<B>,
>)
    ensures
        (match r {
            Some(e) => {
                &&& mime@ == "text/plain"@
                &&& data is Some
                &&& valid_utf8(data.unwrap()@)
                &&& e.model() == (EventModel::Clipboard { text: decode_utf8(data.unwrap()@) })
            },
            None => !{
                &&& mime@ == "text/plain"@
                &&& data is Some
                &&& valid_utf8(data.unwrap()@)
            },
        }),
{
    if is_text_plain(mime) {
        match data {
            Some(bytes) => match try_as_str(bytes) {
                Some(s) => {
                    let text = s.to_owned();
                    proof {
                        encode_utf8_decode_utf8(s@);
                    }
                    Some(Event::Clipboard { text })
                },
                None => None,
            },
            None => None,
        }
    } else {
        None
    }
}

} // verus!
