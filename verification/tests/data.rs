use pugl_rs::raw::{RAW_CURSOR_ARROW, RAW_CURSOR_ALL_SCROLL, RAW_CURSOR_UP_LEFT_DOWN_RIGHT,
    RAW_VIEW_TYPE_NORMAL, RAW_VIEW_TYPE_UTILITY, RAW_VIEW_TYPE_DIALOG, RAW_SCROLL_UP,
    RAW_SCROLL_DOWN, RAW_SCROLL_LEFT, RAW_SCROLL_RIGHT, RAW_CROSSING_NORMAL, RAW_CROSSING_GRAB,
    RAW_CROSSING_UNGRAB, RAW_KEY_F1, RAW_KEY_F12, RAW_KEY_PAD_0, RAW_KEY_PAD_DIVIDE,
    RAW_KEY_SHIFT_L, RAW_KEY_MENU, RAW_KEY_PAGE_UP, RAW_KEY_HOME, RAW_MOD_SHIFT, RAW_MOD_ALT,
    RAW_MOD_CAPS_LOCK, RAW_STYLE_MAPPED, RAW_STYLE_DEMANDING, RAW_STYLE_HIDDEN};
use pugl_rs::{CrossingMode, Key, Modifiers, MouseButton, MouseCursor, Rect, ScrollDirection,
    ViewStyle, ViewType};

#[test]
fn cursors_encode_their_raw_codes() {
    assert_eq!(MouseCursor::Arrow.into_raw(), RAW_CURSOR_ARROW);
    assert_eq!(MouseCursor::Scroll.into_raw(), RAW_CURSOR_ALL_SCROLL);
    assert_eq!(MouseCursor::ResizeNWSE.into_raw(), RAW_CURSOR_UP_LEFT_DOWN_RIGHT);
    assert_eq!(MouseCursor::default(), MouseCursor::Arrow);
}

#[test]
fn view_types_encode_their_raw_codes() {
    assert_eq!(ViewType::Normal.into_raw(), RAW_VIEW_TYPE_NORMAL);
    assert_eq!(ViewType::Utility.into_raw(), RAW_VIEW_TYPE_UTILITY);
    assert_eq!(ViewType::Dialog.into_raw(), RAW_VIEW_TYPE_DIALOG);
    assert_eq!(ViewType::default(), ViewType::Normal);
}

#[test]
fn scroll_directions_decode_with_smooth_fallback() {
    assert_eq!(ScrollDirection::from_raw(RAW_SCROLL_UP), ScrollDirection::Up);
    assert_eq!(ScrollDirection::from_raw(RAW_SCROLL_DOWN), ScrollDirection::Down);
    assert_eq!(ScrollDirection::from_raw(RAW_SCROLL_LEFT), ScrollDirection::Left);
    assert_eq!(ScrollDirection::from_raw(RAW_SCROLL_RIGHT), ScrollDirection::Right);
    assert_eq!(ScrollDirection::from_raw(4), ScrollDirection::Smooth);
    assert_eq!(ScrollDirection::from_raw(250), ScrollDirection::Smooth);
}

#[test]
fn crossing_modes_decode_with_normal_fallback() {
    assert_eq!(CrossingMode::from_raw(RAW_CROSSING_NORMAL), CrossingMode::Normal);
    assert_eq!(CrossingMode::from_raw(RAW_CROSSING_GRAB), CrossingMode::Grab);
    assert_eq!(CrossingMode::from_raw(RAW_CROSSING_UNGRAB), CrossingMode::Ungrab);
    assert_eq!(CrossingMode::from_raw(77), CrossingMode::Normal);
}

#[test]
fn buttons_decode_the_five_named_indices() {
    assert_eq!(MouseButton::from_raw(0), MouseButton::Left);
    assert_eq!(MouseButton::from_raw(1), MouseButton::Right);
    assert_eq!(MouseButton::from_raw(2), MouseButton::Middle);
    assert_eq!(MouseButton::from_raw(3), MouseButton::Back);
    assert_eq!(MouseButton::from_raw(4), MouseButton::Forward);
    assert_eq!(MouseButton::from_raw(5), MouseButton::Other(5));
}

#[test]
fn keys_decode_specials_characters_and_sentinels() {
    assert_eq!(Key::from_raw(0), Key::NoKey);
    assert_eq!(Key::from_raw(RAW_KEY_F1), Key::F1);
    assert_eq!(Key::from_raw(RAW_KEY_F12), Key::F12);
    assert_eq!(Key::from_raw(RAW_KEY_SHIFT_L), Key::ShiftL);
    assert_eq!(Key::from_raw(RAW_KEY_MENU), Key::Menu);
    assert_eq!(Key::from_raw(RAW_KEY_PAGE_UP), Key::PageUp);
    assert_eq!(Key::from_raw(RAW_KEY_HOME), Key::Home);
    assert_eq!(Key::from_raw(RAW_KEY_PAD_0), Key::Numpad0);
    assert_eq!(Key::from_raw(RAW_KEY_PAD_DIVIDE), Key::NumpadDivide);
    // The 'A' key is the code point of 'a' regardless of modifiers.
    assert_eq!(Key::from_raw(97), Key::Char('a'));
    assert_eq!(Key::from_raw(0x20AC), Key::Char('\u{20AC}'));
    // A value outside the Unicode scalar range is no key: surrogates...
    assert_eq!(Key::from_raw(0xD800), Key::NoKey);
    // ...and values past the last code point.
    assert_eq!(Key::from_raw(0x110000), Key::NoKey);
}

#[test]
fn modifiers_decode_each_bit_and_encode_back() {
    let m = Modifiers::from_raw(RAW_MOD_SHIFT | RAW_MOD_ALT | RAW_MOD_CAPS_LOCK);
    assert!(m.shift && m.alt && m.caps_lock);
    assert!(!m.ctrl && !m.super_ && !m.num_lock && !m.scroll_lock);
    assert_eq!(m.into_raw(), RAW_MOD_SHIFT | RAW_MOD_ALT | RAW_MOD_CAPS_LOCK);
    // Undefined bits are dropped.
    let m = Modifiers::from_raw(0xFFFF_FF80);
    assert_eq!(m, Modifiers::none());
    assert_eq!(Modifiers::none().into_raw(), 0);
}

#[test]
fn view_styles_decode_each_bit_and_encode_back() {
    let s = ViewStyle::from_raw(RAW_STYLE_MAPPED | RAW_STYLE_DEMANDING | RAW_STYLE_HIDDEN);
    assert!(s.mapped && s.demanding && s.hidden);
    assert!(!s.modal && !s.above && !s.below && !s.tall && !s.wide && !s.fullscreen && !s.resizing);
    assert_eq!(s.into_raw(), RAW_STYLE_MAPPED | RAW_STYLE_DEMANDING | RAW_STYLE_HIDDEN);
}

#[test]
fn rect_is_plain_data() {
    let r = Rect { x: -1, y: 2, w: 3, h: 4 };
    assert_eq!(r, Rect { x: -1, y: 2, w: 3, h: 4 });
    assert_eq!(Rect::default(), Rect { x: 0, y: 0, w: 0, h: 0 });
}
