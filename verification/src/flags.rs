//! Typed views of the native layer's bit-flag words: keyboard modifiers and
//! view style flags.
//!
//! Each flag word arrives from the native layer as a `u32`; here every defined
//! bit becomes a named `bool` field, and undefined bits are dropped, as the
//! event translation requires.  `into_raw` rebuilds the word for the calls
//! that hand flags back to the native layer.

use vstd::prelude::*;
use crate::raw::{RAW_MOD_SHIFT, RAW_MOD_CTRL, RAW_MOD_ALT, RAW_MOD_SUPER, RAW_MOD_NUM_LOCK,
    RAW_MOD_CAPS_LOCK, RAW_MOD_SCROLL_LOCK, RAW_STYLE_MAPPED, RAW_STYLE_MODAL, RAW_STYLE_ABOVE,
    RAW_STYLE_BELOW, RAW_STYLE_HIDDEN, RAW_STYLE_TALL, RAW_STYLE_WIDE, RAW_STYLE_FULLSCREEN,
    RAW_STYLE_RESIZING, RAW_STYLE_DEMANDING};

verus! {

/// Keyboard modifier flags active at the time of an input event.
#[derive(Clone, Copy, PartialEq, Eq, Structural, Debug)]
pub struct Modifiers {
    /// Shift held
    pub shift: bool,
    /// Control held
    pub ctrl: bool,
    /// Alt/Option held
    pub alt: bool,
    /// Super/Command/Windows key held
    pub super_: bool,
    /// Num lock active
    pub num_lock: bool,
    /// Caps lock active
    pub caps_lock: bool,
    /// Scroll lock active
    pub scroll_lock: bool,
}

impl Modifiers {
    /// The modifiers encoded in a raw flag word, ignoring undefined bits.
    pub open spec fn spec_from_raw(raw: u32) -> Modifiers {
        Modifiers {
            shift: raw & RAW_MOD_SHIFT != 0,
            ctrl: raw & RAW_MOD_CTRL != 0,
            alt: raw & RAW_MOD_ALT != 0,
            super_: raw & RAW_MOD_SUPER != 0,
            num_lock: raw & RAW_MOD_NUM_LOCK != 0,
            caps_lock: raw & RAW_MOD_CAPS_LOCK != 0,
            scroll_lock: raw & RAW_MOD_SCROLL_LOCK != 0,
        }
    }

    /// Decode a raw modifier word; undefined bits are ignored.
    pub fn from_raw(raw: u32) -> (r: Modifiers)
        ensures
            r == Modifiers::spec_from_raw(raw),
    {
        Modifiers {
            shift: raw & RAW_MOD_SHIFT != 0,
            ctrl: raw & RAW_MOD_CTRL != 0,
            alt: raw & RAW_MOD_ALT != 0,
            super_: raw & RAW_MOD_SUPER != 0,
            num_lock: raw & RAW_MOD_NUM_LOCK != 0,
            caps_lock: raw & RAW_MOD_CAPS_LOCK != 0,
            scroll_lock: raw & RAW_MOD_SCROLL_LOCK != 0,
        }
    }

    /// No modifier active.
    pub fn none() -> (r: Modifiers)
        ensures
            r == Modifiers::spec_from_raw(0),
    {
        proof {
            assert(0u32 & RAW_MOD_SHIFT == 0 && 0u32 & RAW_MOD_CTRL == 0 && 0u32 & RAW_MOD_ALT == 0
                && 0u32 & RAW_MOD_SUPER == 0 && 0u32 & RAW_MOD_NUM_LOCK == 0
                && 0u32 & RAW_MOD_CAPS_LOCK == 0 && 0u32 & RAW_MOD_SCROLL_LOCK == 0) by (bit_vector);
        }
        Modifiers {
            shift: false,
            ctrl: false,
            alt: false,
            super_: false,
            num_lock: false,
            caps_lock: false,
            scroll_lock: false,
        }
    }

    /// The raw flag word with exactly this value's bits set.
    pub open spec fn spec_into_raw(self) -> u32 {
        (if self.shift { RAW_MOD_SHIFT } else { 0 })
        | (if self.ctrl { RAW_MOD_CTRL } else { 0 })
        | (if self.alt { RAW_MOD_ALT } else { 0 })
        | (if self.super_ { RAW_MOD_SUPER } else { 0 })
        | (if self.num_lock { RAW_MOD_NUM_LOCK } else { 0 })
        | (if self.caps_lock { RAW_MOD_CAPS_LOCK } else { 0 })
        | (if self.scroll_lock { RAW_MOD_SCROLL_LOCK } else { 0 })
    }

    /// Encode this value as a raw modifier word.
    pub fn into_raw(self) -> (r: u32)
        ensures
            r == self.spec_into_raw(),
    {
        (if self.shift { RAW_MOD_SHIFT } else { 0 })
        | (if self.ctrl { RAW_MOD_CTRL } else { 0 })
        | (if self.alt { RAW_MOD_ALT } else { 0 })
        | (if self.super_ { RAW_MOD_SUPER } else { 0 })
        | (if self.num_lock { RAW_MOD_NUM_LOCK } else { 0 })
        | (if self.caps_lock { RAW_MOD_CAPS_LOCK } else { 0 })
        | (if self.scroll_lock { RAW_MOD_SCROLL_LOCK } else { 0 })
    }
}

/// Decoding a word encoded from typed modifiers gives the same modifiers
/// back: no defined flag is lost or invented on the way to the native layer.
pub proof fn lemma_modifiers_round_trip(m: Modifiers)
    ensures
        Modifiers::spec_from_raw(m.spec_into_raw()) == m,
{
    let s: u32 = if m.shift { RAW_MOD_SHIFT } else { 0 };
    let c: u32 = if m.ctrl { RAW_MOD_CTRL } else { 0 };
    let a: u32 = if m.alt { RAW_MOD_ALT } else { 0 };
    let sup: u32 = if m.super_ { RAW_MOD_SUPER } else { 0 };
    let n: u32 = if m.num_lock { RAW_MOD_NUM_LOCK } else { 0 };
    let cap: u32 = if m.caps_lock { RAW_MOD_CAPS_LOCK } else { 0 };
    let sc: u32 = if m.scroll_lock { RAW_MOD_SCROLL_LOCK } else { 0 };
    assert((s == 0 || s == 1) && (c == 0 || c == 2) && (a == 0 || a == 4) && (sup == 0 || sup == 8)
        && (n == 0 || n == 16) && (cap == 0 || cap == 64) && (sc == 0 || sc == 32) ==> {
        &&& ((s | c | a | sup | n | cap | sc) & 1u32 != 0) == (s == 1)
        &&& ((s | c | a | sup | n | cap | sc) & 2u32 != 0) == (c == 2)
        &&& ((s | c | a | sup | n | cap | sc) & 4u32 != 0) == (a == 4)
        &&& ((s | c | a | sup | n | cap | sc) & 8u32 != 0) == (sup == 8)
        &&& ((s | c | a | sup | n | cap | sc) & 16u32 != 0) == (n == 16)
        &&& ((s | c | a | sup | n | cap | sc) & 64u32 != 0) == (cap == 64)
        &&& ((s | c | a | sup | n | cap | sc) & 32u32 != 0) == (sc == 32)
    }) by (bit_vector);
}

/// View style flags, describing the state a view's window is in.
#[derive(Clone, Copy, PartialEq, Eq, Structural, Debug)]
pub struct ViewStyle {
    /// View is mapped to a real window and potentially visible
    pub mapped: bool,
    /// View is modal, typically a dialog box of its transient parent
    pub modal: bool,
    /// View should be above most others
    pub above: bool,
    /// View should be below most others
    pub below: bool,
    /// View is minimized, shaded, or otherwise invisible
    pub hidden: bool,
    /// View is maximized to fill the screen vertically
    pub tall: bool,
    /// View is maximized to fill the screen horizontally
    pub wide: bool,
    /// View is enlarged to fill the entire screen with no decorations
    pub fullscreen: bool,
    /// View is currently being resized
    pub resizing: bool,
    /// View is ready for input or otherwise demanding attention
    pub demanding: bool,
}

impl ViewStyle {
    /// The style flags encoded in a raw style word, ignoring undefined bits.
    pub open spec fn spec_from_raw(raw: u32) -> ViewStyle {
        ViewStyle {
            mapped: raw & RAW_STYLE_MAPPED != 0,
            modal: raw & RAW_STYLE_MODAL != 0,
            above: raw & RAW_STYLE_ABOVE != 0,
            below: raw & RAW_STYLE_BELOW != 0,
            hidden: raw & RAW_STYLE_HIDDEN != 0,
            tall: raw & RAW_STYLE_TALL != 0,
            wide: raw & RAW_STYLE_WIDE != 0,
            fullscreen: raw & RAW_STYLE_FULLSCREEN != 0,
            resizing: raw & RAW_STYLE_RESIZING != 0,
            demanding: raw & RAW_STYLE_DEMANDING != 0,
        }
    }

    /// Decode a raw style word; undefined bits are ignored.
    pub fn from_raw(raw: u32) -> (r: ViewStyle)
        ensures
            r == ViewStyle::spec_from_raw(raw),
    {
        ViewStyle {
            mapped: raw & RAW_STYLE_MAPPED != 0,
            modal: raw & RAW_STYLE_MODAL != 0,
            above: raw & RAW_STYLE_ABOVE != 0,
            below: raw & RAW_STYLE_BELOW != 0,
            hidden: raw & RAW_STYLE_HIDDEN != 0,
            tall: raw & RAW_STYLE_TALL != 0,
            wide: raw & RAW_STYLE_WIDE != 0,
            fullscreen: raw & RAW_STYLE_FULLSCREEN != 0,
            resizing: raw & RAW_STYLE_RESIZING != 0,
            demanding: raw & RAW_STYLE_DEMANDING != 0,
        }
    }

    /// The raw style word with exactly this value's bits set.
    pub open spec fn spec_into_raw(self) -> u32 {
        (if self.mapped { RAW_STYLE_MAPPED } else { 0 })
        | (if self.modal { RAW_STYLE_MODAL } else { 0 })
        | (if self.above { RAW_STYLE_ABOVE } else { 0 })
        | (if self.below { RAW_STYLE_BELOW } else { 0 })
        | (if self.hidden { RAW_STYLE_HIDDEN } else { 0 })
        | (if self.tall { RAW_STYLE_TALL } else { 0 })
        | (if self.wide { RAW_STYLE_WIDE } else { 0 })
        | (if self.fullscreen { RAW_STYLE_FULLSCREEN } else { 0 })
        | (if self.resizing { RAW_STYLE_RESIZING } else { 0 })
        | (if self.demanding { RAW_STYLE_DEMANDING } else { 0 })
    }

    /// Encode this value as a raw style word.
    pub fn into_raw(self) -> (r: u32)
        ensures
            r == self.spec_into_raw(),
    {
        (if self.mapped { RAW_STYLE_MAPPED } else { 0 })
        | (if self.modal { RAW_STYLE_MODAL } else { 0 })
        | (if self.above { RAW_STYLE_ABOVE } else { 0 })
        | (if self.below { RAW_STYLE_BELOW } else { 0 })
        | (if self.hidden { RAW_STYLE_HIDDEN } else { 0 })
        | (if self.tall { RAW_STYLE_TALL } else { 0 })
        | (if self.wide { RAW_STYLE_WIDE } else { 0 })
        | (if self.fullscreen { RAW_STYLE_FULLSCREEN } else { 0 })
        | (if self.resizing { RAW_STYLE_RESIZING } else { 0 })
        | (if self.demanding { RAW_STYLE_DEMANDING } else { 0 })
    }
}

/// Decoding a word encoded from typed style flags gives the same flags back.
pub proof fn lemma_view_style_round_trip(v: ViewStyle)
    ensures
        ViewStyle::spec_from_raw(v.spec_into_raw()) == v,
{
    let b0: u32 = if v.mapped { RAW_STYLE_MAPPED } else { 0 };
    let b1: u32 = if v.modal { RAW_STYLE_MODAL } else { 0 };
    let b2: u32 = if v.above { RAW_STYLE_ABOVE } else { 0 };
    let b3: u32 = if v.below { RAW_STYLE_BELOW } else { 0 };
    let b4: u32 = if v.hidden { RAW_STYLE_HIDDEN } else { 0 };
    let b5: u32 = if v.tall { RAW_STYLE_TALL } else { 0 };
    let b6: u32 = if v.wide { RAW_STYLE_WIDE } else { 0 };
    let b7: u32 = if v.fullscreen { RAW_STYLE_FULLSCREEN } else { 0 };
    let b8: u32 = if v.resizing { RAW_STYLE_RESIZING } else { 0 };
    let b9: u32 = if v.demanding { RAW_STYLE_DEMANDING } else { 0 };
    assert((b0 == 0 || b0 == 1) && (b1 == 0 || b1 == 2) && (b2 == 0 || b2 == 4)
        && (b3 == 0 || b3 == 8) && (b4 == 0 || b4 == 16) && (b5 == 0 || b5 == 32)
        && (b6 == 0 || b6 == 64) && (b7 == 0 || b7 == 128) && (b8 == 0 || b8 == 256)
        && (b9 == 0 || b9 == 512) ==> {
        &&& ((b0 | b1 | b2 | b3 | b4 | b5 | b6 | b7 | b8 | b9) & 1u32 != 0) == (b0 == 1)
        &&& ((b0 | b1 | b2 | b3 | b4 | b5 | b6 | b7 | b8 | b9) & 2u32 != 0) == (b1 == 2)
        &&& ((b0 | b1 | b2 | b3 | b4 | b5 | b6 | b7 | b8 | b9) & 4u32 != 0) == (b2 == 4)
        &&& ((b0 | b1 | b2 | b3 | b4 | b5 | b6 | b7 | b8 | b9) & 8u32 != 0) == (b3 == 8)
        &&& ((b0 | b1 | b2 | b3 | b4 | b5 | b6 | b7 | b8 | b9) & 16u32 != 0) == (b4 == 16)
        &&& ((b0 | b1 | b2 | b3 | b4 | b5 | b6 | b7 | b8 | b9) & 32u32 != 0) == (b5 == 32)
        &&& ((b0 | b1 | b2 | b3 | b4 | b5 | b6 | b7 | b8 | b9) & 64u32 != 0) == (b6 == 64)
        &&& ((b0 | b1 | b2 | b3 | b4 | b5 | b6 | b7 | b8 | b9) & 128u32 != 0) == (b7 == 128)
        &&& ((b0 | b1 | b2 | b3 | b4 | b5 | b6 | b7 | b8 | b9) & 256u32 != 0) == (b8 == 256)
        &&& ((b0 | b1 | b2 | b3 | b4 | b5 | b6 | b7 | b8 | b9) & 512u32 != 0) == (b9 == 512)
    }) by (bit_vector);
}

} // verus!
