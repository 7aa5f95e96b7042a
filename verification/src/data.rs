//! The typed vocabulary of the event layer: crossing modes, rectangles,
//! cursors, view types, mouse buttons, scroll directions, keys, and the input
//! fields shared by all pointer and keyboard events.
//!
//! Each `from_raw` function is the total mapping from the native layer's
//! numeric code into the closed typed set; each `into_raw` is the encoding a
//! native call expects.  Every mapping's contract pins the result exactly.

use vstd::prelude::*;
use vstd::utf8::is_scalar;
use crate::flags::Modifiers;
use crate::raw::{RAW_CROSSING_GRAB, RAW_CROSSING_UNGRAB, RAW_SCROLL_UP, RAW_SCROLL_DOWN,
    RAW_SCROLL_LEFT, RAW_SCROLL_RIGHT, RAW_CURSOR_ARROW, RAW_CURSOR_CARET, RAW_CURSOR_CROSSHAIR,
    RAW_CURSOR_HAND, RAW_CURSOR_NO, RAW_CURSOR_ALL_SCROLL, RAW_CURSOR_LEFT_RIGHT,
    RAW_CURSOR_UP_DOWN, RAW_CURSOR_UP_LEFT_DOWN_RIGHT, RAW_CURSOR_UP_RIGHT_DOWN_LEFT,
    RAW_VIEW_TYPE_NORMAL, RAW_VIEW_TYPE_UTILITY, RAW_VIEW_TYPE_DIALOG, RAW_KEY_ALT_L,
    RAW_KEY_ALT_R, RAW_KEY_CTRL_L, RAW_KEY_CTRL_R, RAW_KEY_SHIFT_L, RAW_KEY_SHIFT_R,
    RAW_KEY_SUPER_L, RAW_KEY_SUPER_R, RAW_KEY_CAPS_LOCK, RAW_KEY_NUM_LOCK, RAW_KEY_PAUSE,
    RAW_KEY_PRINT_SCREEN, RAW_KEY_SCROLL_LOCK, RAW_KEY_PAGE_DOWN, RAW_KEY_PAGE_UP, RAW_KEY_END,
    RAW_KEY_MENU, RAW_KEY_HOME, RAW_KEY_INSERT, RAW_KEY_F1, RAW_KEY_F2, RAW_KEY_F3, RAW_KEY_F4,
    RAW_KEY_F5, RAW_KEY_F6, RAW_KEY_F7, RAW_KEY_F8, RAW_KEY_F9, RAW_KEY_F10, RAW_KEY_F11,
    RAW_KEY_F12, RAW_KEY_DOWN, RAW_KEY_LEFT, RAW_KEY_RIGHT, RAW_KEY_UP, RAW_KEY_PAD_0,
    RAW_KEY_PAD_1, RAW_KEY_PAD_2, RAW_KEY_PAD_3, RAW_KEY_PAD_4, RAW_KEY_PAD_5, RAW_KEY_PAD_6,
    RAW_KEY_PAD_7, RAW_KEY_PAD_8, RAW_KEY_PAD_9, RAW_KEY_PAD_ADD, RAW_KEY_PAD_SUBTRACT,
    RAW_KEY_PAD_MULTIPLY, RAW_KEY_PAD_DIVIDE, RAW_KEY_PAD_DECIMAL, RAW_KEY_PAD_ENTER,
    RAW_KEY_PAD_EQUAL, RAW_KEY_PAD_UP, RAW_KEY_PAD_DOWN, RAW_KEY_PAD_LEFT, RAW_KEY_PAD_RIGHT,
    RAW_KEY_PAD_HOME, RAW_KEY_PAD_END, RAW_KEY_PAD_PAGE_UP, RAW_KEY_PAD_PAGE_DOWN,
    RAW_KEY_PAD_INSERT, RAW_KEY_PAD_DELETE, RAW_KEY_PAD_SEPARATOR, RAW_KEY_PAD_CLEAR};

verus! {

/// Relies on `char::from_u32`: `Some` exactly when the value is a Unicode
/// scalar (at most 0x10FFFF and not a surrogate), and then that scalar.
pub assume_specification[ char::from_u32 ](v: u32) -> (r: Option<char>)
    ensures
        r is Some <==> is_scalar(v),
        r is Some ==> r.unwrap() as u32 == v,
;

/// An application-specific timer identifier.
///
/// It distinguishes one repeating timer of a view from the others, and should
/// always be checked in the event handler, even in applications that register
/// only one timer.
pub type TimerId = usize;

/// Reason for a pointer or keyboard-focus boundary crossing.
#[derive(Clone, Copy, PartialEq, Eq, Structural, Debug, Hash)]
pub enum CrossingMode {
    /// Crossing due to a normal pointer motion
    Normal,
    /// Crossing due to a grab
    Grab,
    /// Crossing due to a grab release
    Ungrab,
}

impl CrossingMode {
    /// The crossing mode a raw code denotes; unknown codes mean a normal
    /// crossing.
    pub open spec fn spec_from_raw(raw: u32) -> CrossingMode {
        if raw == RAW_CROSSING_GRAB {
            CrossingMode::Grab
        } else if raw == RAW_CROSSING_UNGRAB {
            CrossingMode::Ungrab
        } else {
            CrossingMode::Normal
        }
    }

    /// Decode a raw crossing-mode code.
    pub fn from_raw(raw: u32) -> (r: CrossingMode)
        ensures
            r == CrossingMode::spec_from_raw(raw),
    {
        if raw == RAW_CROSSING_GRAB {
            CrossingMode::Grab
        } else if raw == RAW_CROSSING_UNGRAB {
            CrossingMode::Ungrab
        } else {
            CrossingMode::Normal
        }
    }
}

/// An arbitrary rectangle in (physical) pixel coordinates with top-left
/// origin.
#[derive(Clone, Copy, PartialEq, Eq, Structural, Debug, Hash, Default)]
pub struct Rect {
    pub x: i32,
    pub y: i32,
    pub w: u32,
    pub h: u32,
}

/// Mouse cursor icon.
#[derive(Clone, Copy, PartialEq, Eq, Structural, Debug, Hash)]
pub enum MouseCursor {
    Arrow,
    Caret,
    Crosshair,
    Hand,
    NotAllowed,
    Scroll,
    ResizeWE,
    ResizeNS,
    ResizeNWSE,
    ResizeNESW,
}

impl MouseCursor {
    /// The raw cursor code of each icon.
    pub open spec fn spec_into_raw(self) -> u32 {
        match self {
            MouseCursor::Arrow => RAW_CURSOR_ARROW,
            MouseCursor::Caret => RAW_CURSOR_CARET,
            MouseCursor::Crosshair => RAW_CURSOR_CROSSHAIR,
            MouseCursor::Hand => RAW_CURSOR_HAND,
            MouseCursor::NotAllowed => RAW_CURSOR_NO,
            MouseCursor::Scroll => RAW_CURSOR_ALL_SCROLL,
            MouseCursor::ResizeWE => RAW_CURSOR_LEFT_RIGHT,
            MouseCursor::ResizeNS => RAW_CURSOR_UP_DOWN,
            MouseCursor::ResizeNWSE => RAW_CURSOR_UP_LEFT_DOWN_RIGHT,
            MouseCursor::ResizeNESW => RAW_CURSOR_UP_RIGHT_DOWN_LEFT,
        }
    }

    /// Encode this icon as the raw cursor code the native layer expects.
    pub fn into_raw(self) -> (r: u32)
        ensures
            r == self.spec_into_raw(),
    {
        match self {
            MouseCursor::Arrow => RAW_CURSOR_ARROW,
            MouseCursor::Caret => RAW_CURSOR_CARET,
            MouseCursor::Crosshair => RAW_CURSOR_CROSSHAIR,
            MouseCursor::Hand => RAW_CURSOR_HAND,
            MouseCursor::NotAllowed => RAW_CURSOR_NO,
            MouseCursor::Scroll => RAW_CURSOR_ALL_SCROLL,
            MouseCursor::ResizeWE => RAW_CURSOR_LEFT_RIGHT,
            MouseCursor::ResizeNS => RAW_CURSOR_UP_DOWN,
            MouseCursor::ResizeNWSE => RAW_CURSOR_UP_LEFT_DOWN_RIGHT,
            MouseCursor::ResizeNESW => RAW_CURSOR_UP_RIGHT_DOWN_LEFT,
        }
    }
}

impl Default for MouseCursor {
    /// The default cursor is the plain arrow.
    fn default() -> (r: MouseCursor)
        ensures
            r == MouseCursor::Arrow,
    {
        MouseCursor::Arrow
    }
}

/// A view type.
#[derive(Clone, Copy, PartialEq, Eq, Structural, Debug, Hash)]
pub enum ViewType {
    /// A normal top-level window
    Normal,
    /// A utility window like a palette or toolbox
    Utility,
    /// A dialog window
    Dialog,
}

impl ViewType {
    /// The raw view-type code of each type.
    pub open spec fn spec_into_raw(self) -> u32 {
        match self {
            ViewType::Normal => RAW_VIEW_TYPE_NORMAL,
            ViewType::Utility => RAW_VIEW_TYPE_UTILITY,
            ViewType::Dialog => RAW_VIEW_TYPE_DIALOG,
        }
    }

    /// Encode this view type as the raw code the native layer expects.
    pub fn into_raw(self) -> (r: u32)
        ensures
            r == self.spec_into_raw(),
    {
        match self {
            ViewType::Normal => RAW_VIEW_TYPE_NORMAL,
            ViewType::Utility => RAW_VIEW_TYPE_UTILITY,
            ViewType::Dialog => RAW_VIEW_TYPE_DIALOG,
        }
    }
}

impl Default for ViewType {
    /// The default view type is a normal top-level window.
    fn default() -> (r: ViewType)
        ensures
            r == ViewType::Normal,
    {
        ViewType::Normal
    }
}

/// Mouse button.
#[derive(Clone, Copy, PartialEq, Eq, Structural, Debug, Hash)]
pub enum MouseButton {
    Left,
    Right,
    Middle,
    Back,
    Forward,
    /// Any button beyond the five named ones, by its raw index.
    Other(u32),
}

impl MouseButton {
    /// The button a raw index denotes: indices 0 to 4 are the named buttons,
    /// anything else keeps its raw index.
    pub open spec fn spec_from_raw(raw: u32) -> MouseButton {
        if raw == 0 {
            MouseButton::Left
        } else if raw == 1 {
            MouseButton::Right
        } else if raw == 2 {
            MouseButton::Middle
        } else if raw == 3 {
            MouseButton::Back
        } else if raw == 4 {
            MouseButton::Forward
        } else {
            MouseButton::Other(raw)
        }
    }

    /// Decode a raw button index.
    pub fn from_raw(raw: u32) -> (r: MouseButton)
        ensures
            r == MouseButton::spec_from_raw(raw),
    {
        if raw == 0 {
            MouseButton::Left
        } else if raw == 1 {
            MouseButton::Right
        } else if raw == 2 {
            MouseButton::Middle
        } else if raw == 3 {
            MouseButton::Back
        } else if raw == 4 {
            MouseButton::Forward
        } else {
            MouseButton::Other(raw)
        }
    }
}

/// Scroll direction.
///
/// The discrete directions are for devices like mouse wheels with constrained
/// axes, while a smooth scroll is for those with arbitrary direction freedom,
/// like some touchpads.
#[derive(Clone, Copy, PartialEq, Eq, Structural, Debug, Hash)]
pub enum ScrollDirection {
    Up,
    Down,
    Left,
    Right,
    Smooth,
}

impl ScrollDirection {
    /// The direction a raw code denotes; unknown codes mean a smooth scroll.
    pub open spec fn spec_from_raw(raw: u32) -> ScrollDirection {
        if raw == RAW_SCROLL_UP {
            ScrollDirection::Up
        } else if raw == RAW_SCROLL_DOWN {
            ScrollDirection::Down
        } else if raw == RAW_SCROLL_LEFT {
            ScrollDirection::Left
        } else if raw == RAW_SCROLL_RIGHT {
            ScrollDirection::Right
        } else {
            ScrollDirection::Smooth
        }
    }

    /// Decode a raw scroll-direction code.
    pub fn from_raw(raw: u32) -> (r: ScrollDirection)
        ensures
            r == ScrollDirection::spec_from_raw(raw),
    {
        if raw == RAW_SCROLL_UP {
            ScrollDirection::Up
        } else if raw == RAW_SCROLL_DOWN {
            ScrollDirection::Down
        } else if raw == RAW_SCROLL_LEFT {
            ScrollDirection::Left
        } else if raw == RAW_SCROLL_RIGHT {
            ScrollDirection::Right
        } else {
            ScrollDirection::Smooth
        }
    }
}

/// Keyboard key.
///
/// Keys are represented portably as Unicode code points, using the "natural"
/// code point for the key where possible: the 'A' key is `Char('a')`
/// regardless of the modifiers held.  Special keys that have no natural code
/// point get a variant of their own.
#[derive(Clone, Copy, PartialEq, Eq, Structural, Debug, Hash)]
pub enum Key {
    /// A sentinel value for when no key/unknown key is pressed/released
    NoKey,
    /// A character key without any modifiers applied.
    Char(char),
    F1,
    F2,
    F3,
    F4,
    F5,
    F6,
    F7,
    F8,
    F9,
    F10,
    F11,
    F12,
    Left,
    Up,
    Right,
    Down,
    PageUp,
    PageDown,
    Home,
    End,
    Insert,
    ShiftL,
    ShiftR,
    CtrlL,
    CtrlR,
    AltL,
    AltR,
    SuperL,
    SuperR,
    Menu,
    CapsLock,
    ScrollLock,
    NumLock,
    PrintScreen,
    Pause,
    Numpad0,
    Numpad1,
    Numpad2,
    Numpad3,
    Numpad4,
    Numpad5,
    Numpad6,
    Numpad7,
    Numpad8,
    Numpad9,
    NumpadAdd,
    NumpadSubtract,
    NumpadMultiply,
    NumpadDivide,
    NumpadDecimal,
    NumpadEnter,
    NumpadEqual,
    NumpadUp,
    NumpadDown,
    NumpadLeft,
    NumpadRight,
    NumpadHome,
    NumpadEnd,
    NumpadPageUp,
    NumpadPageDown,
    NumpadInsert,
    NumpadDelete,
    NumpadSeparator,
    NumpadClear,
}

impl Key {
    /// The key a raw code denotes: zero is no key, the reserved special codes
    /// map to their variants, any other Unicode scalar is a character key,
    /// and what remains (a non-scalar code) is no key.
    pub open spec fn spec_from_raw(raw: u32) -> Key {
        if raw == 0 { Key::NoKey }
        else if raw == RAW_KEY_ALT_L { Key::AltL }
        else if raw == RAW_KEY_ALT_R { Key::AltR }
        else if raw == RAW_KEY_CTRL_L { Key::CtrlL }
        else if raw == RAW_KEY_CTRL_R { Key::CtrlR }
        else if raw == RAW_KEY_SHIFT_L { Key::ShiftL }
        else if raw == RAW_KEY_SHIFT_R { Key::ShiftR }
        else if raw == RAW_KEY_SUPER_L { Key::SuperL }
        else if raw == RAW_KEY_SUPER_R { Key::SuperR }
        else if raw == RAW_KEY_CAPS_LOCK { Key::CapsLock }
        else if raw == RAW_KEY_NUM_LOCK { Key::NumLock }
        else if raw == RAW_KEY_PAUSE { Key::Pause }
        else if raw == RAW_KEY_PRINT_SCREEN { Key::PrintScreen }
        else if raw == RAW_KEY_SCROLL_LOCK { Key::ScrollLock }
        else if raw == RAW_KEY_PAGE_DOWN { Key::PageDown }
        else if raw == RAW_KEY_PAGE_UP { Key::PageUp }
        else if raw == RAW_KEY_END { Key::End }
        else if raw == RAW_KEY_MENU { Key::Menu }
        else if raw == RAW_KEY_HOME { Key::Home }
        else if raw == RAW_KEY_INSERT { Key::Insert }
        else if raw == RAW_KEY_F1 { Key::F1 }
        else if raw == RAW_KEY_F2 { Key::F2 }
        else if raw == RAW_KEY_F3 { Key::F3 }
        else if raw == RAW_KEY_F4 { Key::F4 }
        else if raw == RAW_KEY_F5 { Key::F5 }
        else if raw == RAW_KEY_F6 { Key::F6 }
        else if raw == RAW_KEY_F7 { Key::F7 }
        else if raw == RAW_KEY_F8 { Key::F8 }
        else if raw == RAW_KEY_F9 { Key::F9 }
        else if raw == RAW_KEY_F10 { Key::F10 }
        else if raw == RAW_KEY_F11 { Key::F11 }
        else if raw == RAW_KEY_F12 { Key::F12 }
        else if raw == RAW_KEY_DOWN { Key::Down }
        else if raw == RAW_KEY_LEFT { Key::Left }
        else if raw == RAW_KEY_RIGHT { Key::Right }
        else if raw == RAW_KEY_UP { Key::Up }
        else if raw == RAW_KEY_PAD_0 { Key::Numpad0 }
        else if raw == RAW_KEY_PAD_1 { Key::Numpad1 }
        else if raw == RAW_KEY_PAD_2 { Key::Numpad2 }
        else if raw == RAW_KEY_PAD_3 { Key::Numpad3 }
        else if raw == RAW_KEY_PAD_4 { Key::Numpad4 }
        else if raw == RAW_KEY_PAD_5 { Key::Numpad5 }
        else if raw == RAW_KEY_PAD_6 { Key::Numpad6 }
        else if raw == RAW_KEY_PAD_7 { Key::Numpad7 }
        else if raw == RAW_KEY_PAD_8 { Key::Numpad8 }
        else if raw == RAW_KEY_PAD_9 { Key::Numpad9 }
        else if raw == RAW_KEY_PAD_ADD { Key::NumpadAdd }
        else if raw == RAW_KEY_PAD_SUBTRACT { Key::NumpadSubtract }
        else if raw == RAW_KEY_PAD_MULTIPLY { Key::NumpadMultiply }
        else if raw == RAW_KEY_PAD_DIVIDE { Key::NumpadDivide }
        else if raw == RAW_KEY_PAD_DECIMAL { Key::NumpadDecimal }
        else if raw == RAW_KEY_PAD_ENTER { Key::NumpadEnter }
        else if raw == RAW_KEY_PAD_EQUAL { Key::NumpadEqual }
        else if raw == RAW_KEY_PAD_UP { Key::NumpadUp }
        else if raw == RAW_KEY_PAD_DOWN { Key::NumpadDown }
        else if raw == RAW_KEY_PAD_LEFT { Key::NumpadLeft }
        else if raw == RAW_KEY_PAD_RIGHT { Key::NumpadRight }
        else if raw == RAW_KEY_PAD_HOME { Key::NumpadHome }
        else if raw == RAW_KEY_PAD_END { Key::NumpadEnd }
        else if raw == RAW_KEY_PAD_PAGE_UP { Key::NumpadPageUp }
        else if raw == RAW_KEY_PAD_PAGE_DOWN { Key::NumpadPageDown }
        else if raw == RAW_KEY_PAD_INSERT { Key::NumpadInsert }
        else if raw == RAW_KEY_PAD_DELETE { Key::NumpadDelete }
        else if raw == RAW_KEY_PAD_SEPARATOR { Key::NumpadSeparator }
        else if raw == RAW_KEY_PAD_CLEAR { Key::NumpadClear }
        else if is_scalar(raw) { Key::Char(raw as char) }
        else { Key::NoKey }
    }

    /// Decode a raw key code.
    pub fn from_raw(raw: u32) -> (r: Key)
        ensures
            r == Key::spec_from_raw(raw),
    {
        if raw == 0 { Key::NoKey }
        else if raw == RAW_KEY_ALT_L { Key::AltL }
        else if raw == RAW_KEY_ALT_R { Key::AltR }
        else if raw == RAW_KEY_CTRL_L { Key::CtrlL }
        else if raw == RAW_KEY_CTRL_R { Key::CtrlR }
        else if raw == RAW_KEY_SHIFT_L { Key::ShiftL }
        else if raw == RAW_KEY_SHIFT_R { Key::ShiftR }
        else if raw == RAW_KEY_SUPER_L { Key::SuperL }
        else if raw == RAW_KEY_SUPER_R { Key::SuperR }
        else if raw == RAW_KEY_CAPS_LOCK { Key::CapsLock }
        else if raw == RAW_KEY_NUM_LOCK { Key::NumLock }
        else if raw == RAW_KEY_PAUSE { Key::Pause }
        else if raw == RAW_KEY_PRINT_SCREEN { Key::PrintScreen }
        else if raw == RAW_KEY_SCROLL_LOCK { Key::ScrollLock }
        else if raw == RAW_KEY_PAGE_DOWN { Key::PageDown }
        else if raw == RAW_KEY_PAGE_UP { Key::PageUp }
        else if raw == RAW_KEY_END { Key::End }
        else if raw == RAW_KEY_MENU { Key::Menu }
        else if raw == RAW_KEY_HOME { Key::Home }
        else if raw == RAW_KEY_INSERT { Key::Insert }
        else if raw == RAW_KEY_F1 { Key::F1 }
        else if raw == RAW_KEY_F2 { Key::F2 }
        else if raw == RAW_KEY_F3 { Key::F3 }
        else if raw == RAW_KEY_F4 { Key::F4 }
        else if raw == RAW_KEY_F5 { Key::F5 }
        else if raw == RAW_KEY_F6 { Key::F6 }
        else if raw == RAW_KEY_F7 { Key::F7 }
        else if raw == RAW_KEY_F8 { Key::F8 }
        else if raw == RAW_KEY_F9 { Key::F9 }
        else if raw == RAW_KEY_F10 { Key::F10 }
        else if raw == RAW_KEY_F11 { Key::F11 }
        else if raw == RAW_KEY_F12 { Key::F12 }
        else if raw == RAW_KEY_DOWN { Key::Down }
        else if raw == RAW_KEY_LEFT { Key::Left }
        else if raw == RAW_KEY_RIGHT { Key::Right }
        else if raw == RAW_KEY_UP { Key::Up }
        else if raw == RAW_KEY_PAD_0 { Key::Numpad0 }
        else if raw == RAW_KEY_PAD_1 { Key::Numpad1 }
        else if raw == RAW_KEY_PAD_2 { Key::Numpad2 }
        else if raw == RAW_KEY_PAD_3 { Key::Numpad3 }
        else if raw == RAW_KEY_PAD_4 { Key::Numpad4 }
        else if raw == RAW_KEY_PAD_5 { Key::Numpad5 }
        else if raw == RAW_KEY_PAD_6 { Key::Numpad6 }
        else if raw == RAW_KEY_PAD_7 { Key::Numpad7 }
        else if raw == RAW_KEY_PAD_8 { Key::Numpad8 }
        else if raw == RAW_KEY_PAD_9 { Key::Numpad9 }
        else if raw == RAW_KEY_PAD_ADD { Key::NumpadAdd }
        else if raw == RAW_KEY_PAD_SUBTRACT { Key::NumpadSubtract }
        else if raw == RAW_KEY_PAD_MULTIPLY { Key::NumpadMultiply }
        else if raw == RAW_KEY_PAD_DIVIDE { Key::NumpadDivide }
        else if raw == RAW_KEY_PAD_DECIMAL { Key::NumpadDecimal }
        else if raw == RAW_KEY_PAD_ENTER { Key::NumpadEnter }
        else if raw == RAW_KEY_PAD_EQUAL { Key::NumpadEqual }
        else if raw == RAW_KEY_PAD_UP { Key::NumpadUp }
        else if raw == RAW_KEY_PAD_DOWN { Key::NumpadDown }
        else if raw == RAW_KEY_PAD_LEFT { Key::NumpadLeft }
        else if raw == RAW_KEY_PAD_RIGHT { Key::NumpadRight }
        else if raw == RAW_KEY_PAD_HOME { Key::NumpadHome }
        else if raw == RAW_KEY_PAD_END { Key::NumpadEnd }
        else if raw == RAW_KEY_PAD_PAGE_UP { Key::NumpadPageUp }
        else if raw == RAW_KEY_PAD_PAGE_DOWN { Key::NumpadPageDown }
        else if raw == RAW_KEY_PAD_INSERT { Key::NumpadInsert }
        else if raw == RAW_KEY_PAD_DELETE { Key::NumpadDelete }
        else if raw == RAW_KEY_PAD_SEPARATOR { Key::NumpadSeparator }
        else if raw == RAW_KEY_PAD_CLEAR { Key::NumpadClear }
        else {
            match char::from_u32(raw) {
                Some(c) => {
                    proof {
                        vstd::utf8::char_u32_cast(c, raw);
                    }
                    Key::Char(c)
                },
                None => Key::NoKey,
            }
        }
    }
}

/// Event data shared by every pointer and keyboard event.
///
/// The time and coordinate fields hold the bit patterns of the native layer's
/// `double` values; this layer carries them through unchanged.
#[derive(Clone, Copy, PartialEq, Eq, Structural, Debug)]
pub struct EventInput {
    /// Time of the event in seconds (bit pattern of a native `double`).
    pub time: u64,
    /// X coordinate of the event in view coordinates (`double` bit pattern).
    pub x: u64,
    /// Y coordinate of the event in view coordinates (`double` bit pattern).
    pub y: u64,
    /// X coordinate of the event in screen coordinates (`double` bit pattern).
    pub root_x: u64,
    /// Y coordinate of the event in screen coordinates (`double` bit pattern).
    pub root_y: u64,
    /// Keyboard modifiers active at the time of the event.
    pub mods: Modifiers,
    /// Whether the event is a hint (not created by a direct user input).
    pub hint: bool,
}

} // verus!
