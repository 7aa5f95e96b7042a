//! The raw protocol shared with the native windowing toolkit: the numeric
//! constants of its C interface, and a plain-value record of its polymorphic
//! event union.
//!
//! The native toolkit delivers every event as one C union tagged by a `kind`
//! discriminant; which fields are meaningful depends on the tag.  [`RawEvent`]
//! holds the superset of those fields as plain values, so that the translation
//! into typed events is ordinary verified logic.  Times, coordinates and
//! scroll distances are native `double`s; this layer never interprets them, so
//! they are carried as their IEEE-754 bit patterns in `u64` fields and
//! converted at the foreign-function boundary.

use vstd::prelude::*;

verus! {

// Event kind discriminants, in the native layer's declaration order.
pub const RAW_NOTHING: u32 = 0;
pub const RAW_REALIZE: u32 = 1;
pub const RAW_UNREALIZE: u32 = 2;
pub const RAW_CONFIGURE: u32 = 3;
pub const RAW_UPDATE: u32 = 4;
pub const RAW_EXPOSE: u32 = 5;
pub const RAW_CLOSE: u32 = 6;
pub const RAW_FOCUS_IN: u32 = 7;
pub const RAW_FOCUS_OUT: u32 = 8;
pub const RAW_KEY_PRESS: u32 = 9;
pub const RAW_KEY_RELEASE: u32 = 10;
pub const RAW_TEXT: u32 = 11;
pub const RAW_POINTER_IN: u32 = 12;
pub const RAW_POINTER_OUT: u32 = 13;
pub const RAW_BUTTON_PRESS: u32 = 14;
pub const RAW_BUTTON_RELEASE: u32 = 15;
pub const RAW_MOTION: u32 = 16;
pub const RAW_SCROLL: u32 = 17;
pub const RAW_CLIENT: u32 = 18;
pub const RAW_TIMER: u32 = 19;
pub const RAW_LOOP_ENTER: u32 = 20;
pub const RAW_LOOP_LEAVE: u32 = 21;
pub const RAW_DATA_OFFER: u32 = 22;
pub const RAW_DATA: u32 = 23;

// Status codes returned by the native calls.
pub const RAW_SUCCESS: u32 = 0;
pub const RAW_FAILURE: u32 = 1;
pub const RAW_UNKNOWN_ERROR: u32 = 2;
pub const RAW_BAD_BACKEND: u32 = 3;
pub const RAW_BAD_CONFIGURATION: u32 = 4;
pub const RAW_BAD_PARAMETER: u32 = 5;
pub const RAW_BACKEND_FAILED: u32 = 6;
pub const RAW_REGISTRATION_FAILED: u32 = 7;
pub const RAW_REALIZE_FAILED: u32 = 8;
pub const RAW_SET_FORMAT_FAILED: u32 = 9;
pub const RAW_CREATE_CONTEXT_FAILED: u32 = 10;
pub const RAW_UNSUPPORTED: u32 = 11;
pub const RAW_NO_MEMORY: u32 = 12;

// Event flags.
pub const RAW_IS_SEND_EVENT: u32 = 1;
pub const RAW_IS_HINT: u32 = 2;

// Keyboard modifier flags.
pub const RAW_MOD_SHIFT: u32 = 1;
pub const RAW_MOD_CTRL: u32 = 2;
pub const RAW_MOD_ALT: u32 = 4;
pub const RAW_MOD_SUPER: u32 = 8;
pub const RAW_MOD_NUM_LOCK: u32 = 16;
pub const RAW_MOD_SCROLL_LOCK: u32 = 32;
pub const RAW_MOD_CAPS_LOCK: u32 = 64;

// View style flags.
pub const RAW_STYLE_MAPPED: u32 = 1;
pub const RAW_STYLE_MODAL: u32 = 2;
pub const RAW_STYLE_ABOVE: u32 = 4;
pub const RAW_STYLE_BELOW: u32 = 8;
pub const RAW_STYLE_HIDDEN: u32 = 16;
pub const RAW_STYLE_TALL: u32 = 32;
pub const RAW_STYLE_WIDE: u32 = 64;
pub const RAW_STYLE_FULLSCREEN: u32 = 128;
pub const RAW_STYLE_RESIZING: u32 = 256;
pub const RAW_STYLE_DEMANDING: u32 = 512;

// Crossing modes.
pub const RAW_CROSSING_NORMAL: u32 = 0;
pub const RAW_CROSSING_GRAB: u32 = 1;
pub const RAW_CROSSING_UNGRAB: u32 = 2;

// Scroll directions.
pub const RAW_SCROLL_UP: u32 = 0;
pub const RAW_SCROLL_DOWN: u32 = 1;
pub const RAW_SCROLL_LEFT: u32 = 2;
pub const RAW_SCROLL_RIGHT: u32 = 3;
pub const RAW_SCROLL_SMOOTH: u32 = 4;

// Special key codes, in the code-point private use area the toolkit reserves.
pub const RAW_KEY_F1: u32 = 0xE000;
pub const RAW_KEY_F2: u32 = 0xE001;
pub const RAW_KEY_F3: u32 = 0xE002;
pub const RAW_KEY_F4: u32 = 0xE003;
pub const RAW_KEY_F5: u32 = 0xE004;
pub const RAW_KEY_F6: u32 = 0xE005;
pub const RAW_KEY_F7: u32 = 0xE006;
pub const RAW_KEY_F8: u32 = 0xE007;
pub const RAW_KEY_F9: u32 = 0xE008;
pub const RAW_KEY_F10: u32 = 0xE009;
pub const RAW_KEY_F11: u32 = 0xE00A;
pub const RAW_KEY_F12: u32 = 0xE00B;
pub const RAW_KEY_PAGE_UP: u32 = 0xE031;
pub const RAW_KEY_PAGE_DOWN: u32 = 0xE032;
pub const RAW_KEY_END: u32 = 0xE033;
pub const RAW_KEY_HOME: u32 = 0xE034;
pub const RAW_KEY_LEFT: u32 = 0xE035;
pub const RAW_KEY_UP: u32 = 0xE036;
pub const RAW_KEY_RIGHT: u32 = 0xE037;
pub const RAW_KEY_DOWN: u32 = 0xE038;
pub const RAW_KEY_INSERT: u32 = 0xE039;
pub const RAW_KEY_SHIFT_L: u32 = 0xE051;
pub const RAW_KEY_SHIFT_R: u32 = 0xE052;
pub const RAW_KEY_CTRL_L: u32 = 0xE053;
pub const RAW_KEY_CTRL_R: u32 = 0xE054;
pub const RAW_KEY_ALT_L: u32 = 0xE055;
pub const RAW_KEY_ALT_R: u32 = 0xE056;
pub const RAW_KEY_SUPER_L: u32 = 0xE057;
pub const RAW_KEY_SUPER_R: u32 = 0xE058;
pub const RAW_KEY_MENU: u32 = 0xE059;
pub const RAW_KEY_CAPS_LOCK: u32 = 0xE05A;
pub const RAW_KEY_SCROLL_LOCK: u32 = 0xE05B;
pub const RAW_KEY_NUM_LOCK: u32 = 0xE05C;
pub const RAW_KEY_PRINT_SCREEN: u32 = 0xE05D;
pub const RAW_KEY_PAUSE: u32 = 0xE05E;
pub const RAW_KEY_PAD_0: u32 = 0xE060;
pub const RAW_KEY_PAD_1: u32 = 0xE061;
pub const RAW_KEY_PAD_2: u32 = 0xE062;
pub const RAW_KEY_PAD_3: u32 = 0xE063;
pub const RAW_KEY_PAD_4: u32 = 0xE064;
pub const RAW_KEY_PAD_5: u32 = 0xE065;
pub const RAW_KEY_PAD_6: u32 = 0xE066;
pub const RAW_KEY_PAD_7: u32 = 0xE067;
pub const RAW_KEY_PAD_8: u32 = 0xE068;
pub const RAW_KEY_PAD_9: u32 = 0xE069;
pub const RAW_KEY_PAD_ENTER: u32 = 0xE070;
pub const RAW_KEY_PAD_PAGE_UP: u32 = 0xE071;
pub const RAW_KEY_PAD_PAGE_DOWN: u32 = 0xE072;
pub const RAW_KEY_PAD_END: u32 = 0xE073;
pub const RAW_KEY_PAD_HOME: u32 = 0xE074;
pub const RAW_KEY_PAD_LEFT: u32 = 0xE075;
pub const RAW_KEY_PAD_UP: u32 = 0xE076;
pub const RAW_KEY_PAD_RIGHT: u32 = 0xE077;
pub const RAW_KEY_PAD_DOWN: u32 = 0xE078;
pub const RAW_KEY_PAD_CLEAR: u32 = 0xE09D;
pub const RAW_KEY_PAD_INSERT: u32 = 0xE09E;
pub const RAW_KEY_PAD_DELETE: u32 = 0xE09F;
pub const RAW_KEY_PAD_EQUAL: u32 = 0xE0A0;
pub const RAW_KEY_PAD_MULTIPLY: u32 = 0xE0AA;
pub const RAW_KEY_PAD_ADD: u32 = 0xE0AB;
pub const RAW_KEY_PAD_SEPARATOR: u32 = 0xE0AC;
pub const RAW_KEY_PAD_SUBTRACT: u32 = 0xE0AD;
pub const RAW_KEY_PAD_DECIMAL: u32 = 0xE0AE;
pub const RAW_KEY_PAD_DIVIDE: u32 = 0xE0AF;

// Integer view hints.
pub const RAW_HINT_CONTEXT_API: u32 = 0;
pub const RAW_HINT_CONTEXT_VERSION_MAJOR: u32 = 1;
pub const RAW_HINT_CONTEXT_VERSION_MINOR: u32 = 2;
pub const RAW_HINT_CONTEXT_PROFILE: u32 = 3;
pub const RAW_HINT_CONTEXT_DEBUG: u32 = 4;
pub const RAW_HINT_RED_BITS: u32 = 5;
pub const RAW_HINT_GREEN_BITS: u32 = 6;
pub const RAW_HINT_BLUE_BITS: u32 = 7;
pub const RAW_HINT_ALPHA_BITS: u32 = 8;
pub const RAW_HINT_DEPTH_BITS: u32 = 9;
pub const RAW_HINT_STENCIL_BITS: u32 = 10;
pub const RAW_HINT_SAMPLE_BUFFERS: u32 = 11;
pub const RAW_HINT_SAMPLES: u32 = 12;
pub const RAW_HINT_DOUBLE_BUFFER: u32 = 13;
pub const RAW_HINT_SWAP_INTERVAL: u32 = 14;
pub const RAW_HINT_RESIZABLE: u32 = 15;
pub const RAW_HINT_IGNORE_KEY_REPEAT: u32 = 16;
pub const RAW_HINT_REFRESH_RATE: u32 = 17;
pub const RAW_HINT_VIEW_TYPE: u32 = 18;
pub const RAW_HINT_DARK_FRAME: u32 = 19;

// Values for the context-API and context-profile hints.
pub const RAW_OPENGL_API: u32 = 0;
pub const RAW_OPENGL_ES_API: u32 = 1;
pub const RAW_OPENGL_CORE_PROFILE: u32 = 0;
pub const RAW_OPENGL_COMPATIBILITY_PROFILE: u32 = 1;

// Size hints.
pub const RAW_DEFAULT_SIZE: u32 = 0;
pub const RAW_CURRENT_SIZE: u32 = 1;
pub const RAW_MIN_SIZE: u32 = 2;
pub const RAW_MAX_SIZE: u32 = 3;
pub const RAW_FIXED_ASPECT: u32 = 4;
pub const RAW_MIN_ASPECT: u32 = 5;
pub const RAW_MAX_ASPECT: u32 = 6;

// Position hints.
pub const RAW_DEFAULT_POSITION: u32 = 0;
pub const RAW_CURRENT_POSITION: u32 = 1;

// String hints.
pub const RAW_CLASS_NAME: u32 = 1;
pub const RAW_WINDOW_TITLE: u32 = 2;

// Cursor icons.
pub const RAW_CURSOR_ARROW: u32 = 0;
pub const RAW_CURSOR_CARET: u32 = 1;
pub const RAW_CURSOR_CROSSHAIR: u32 = 2;
pub const RAW_CURSOR_HAND: u32 = 3;
pub const RAW_CURSOR_NO: u32 = 4;
pub const RAW_CURSOR_LEFT_RIGHT: u32 = 5;
pub const RAW_CURSOR_UP_DOWN: u32 = 6;
pub const RAW_CURSOR_UP_LEFT_DOWN_RIGHT: u32 = 7;
pub const RAW_CURSOR_UP_RIGHT_DOWN_LEFT: u32 = 8;
pub const RAW_CURSOR_ALL_SCROLL: u32 = 9;

// View types.
pub const RAW_VIEW_TYPE_NORMAL: u32 = 0;
pub const RAW_VIEW_TYPE_UTILITY: u32 = 1;
pub const RAW_VIEW_TYPE_DIALOG: u32 = 2;

// Show commands.
pub const RAW_SHOW_PASSIVE: u32 = 0;
pub const RAW_SHOW_RAISE: u32 = 1;
pub const RAW_SHOW_FORCE_RAISE: u32 = 2;

// World modes and flags.
pub const RAW_WORLD_PROGRAM: u32 = 0;
pub const RAW_WORLD_MODULE: u32 = 1;
pub const RAW_WORLD_THREADS: u32 = 1;

/// Number of bytes in the fixed text buffer of a key-text event.
pub const RAW_TEXT_LEN: usize = 8;

/// One raw event, as the flat superset of the native event union's fields.
///
/// `kind` selects which of the remaining fields carry the event's data, as in
/// the native union; the others are ignored by the translation.  The `u64`
/// fields named after native `double`s hold those doubles' bit patterns.
#[derive(Clone, Copy, PartialEq, Eq, Debug)]
pub struct RawEvent {
    /// The event kind discriminant (one of the `RAW_*` event constants).
    pub kind: u32,
    /// Event flags (`RAW_IS_SEND_EVENT`, `RAW_IS_HINT`).
    pub flags: u32,
    /// Event time in seconds (bit pattern of a native `double`).
    pub time: u64,
    /// X coordinate in view coordinates (bit pattern of a native `double`).
    pub x: u64,
    /// Y coordinate in view coordinates (bit pattern of a native `double`).
    pub y: u64,
    /// X coordinate in screen coordinates (bit pattern of a native `double`).
    pub x_root: u64,
    /// Y coordinate in screen coordinates (bit pattern of a native `double`).
    pub y_root: u64,
    /// Active keyboard modifier flags (`RAW_MOD_*`).
    pub state: u32,
    /// Hardware-dependent physical key identifier.
    pub keycode: u32,
    /// Portable key code point, or one of the `RAW_KEY_*` specials.
    pub key: u32,
    /// Fixed-size text buffer of a key-text event, terminated by the first
    /// zero byte (or taken whole when none occurs).
    pub text: [u8; 8],
    /// Raw mouse button index.
    pub button: u32,
    /// Crossing mode of a pointer or focus transition (`RAW_CROSSING_*`).
    pub mode: u32,
    /// Horizontal scroll distance (bit pattern of a native `double`).
    pub dx: u64,
    /// Vertical scroll distance (bit pattern of a native `double`).
    pub dy: u64,
    /// Scroll direction (`RAW_SCROLL_*`).
    pub direction: u32,
    /// X position of a configure or expose rectangle.
    pub pos_x: i16,
    /// Y position of a configure or expose rectangle.
    pub pos_y: i16,
    /// Width of a configure or expose rectangle.
    pub width: u16,
    /// Height of a configure or expose rectangle.
    pub height: u16,
    /// Style flags of a configure event (`RAW_STYLE_*`).
    pub style: u32,
    /// First word of a client event's payload.
    pub data1: usize,
    /// Second word of a client event's payload.
    pub data2: usize,
    /// Timer identifier of a timer event.
    pub id: usize,
    /// Index of the clipboard type a data event carries.
    pub type_index: u32,
}

/// A raw record of the given kind and flags whose every other field is zero:
/// the shape of a synthetic event sent into the native queue.
pub open spec fn spec_plain_event(kind: u32, flags: u32) -> RawEvent {
    RawEvent {
        kind,
        flags,
        time: 0u64,
        x: 0u64,
        y: 0u64,
        x_root: 0u64,
        y_root: 0u64,
        state: 0u32,
        keycode: 0u32,
        key: 0u32,
        text: [0u8, 0u8, 0u8, 0u8, 0u8, 0u8, 0u8, 0u8],
        button: 0u32,
        mode: 0u32,
        dx: 0u64,
        dy: 0u64,
        direction: 0u32,
        pos_x: 0i16,
        pos_y: 0i16,
        width: 0u16,
        height: 0u16,
        style: 0u32,
        data1: 0usize,
        data2: 0usize,
        id: 0usize,
        type_index: 0u32,
    }
}

impl RawEvent {
    /// Build a raw record of the given kind and flags with every other field
    /// zero.
    pub fn plain(kind: u32, flags: u32) -> (r: RawEvent)
        ensures
            r == spec_plain_event(kind, flags),
    {
        RawEvent {
            kind,
            flags,
            time: 0,
            x: 0,
            y: 0,
            x_root: 0,
            y_root: 0,
            state: 0,
            keycode: 0,
            key: 0,
            text: [0, 0, 0, 0, 0, 0, 0, 0],
            button: 0,
            mode: 0,
            dx: 0,
            dy: 0,
            direction: 0,
            pos_x: 0,
            pos_y: 0,
            width: 0,
            height: 0,
            style: 0,
            data1: 0,
            data2: 0,
            id: 0,
            type_index: 0,
        }
    }
}

} // verus!
