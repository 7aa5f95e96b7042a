use pugl_rs::raw::{RawEvent, RAW_CONFIGURE, RAW_EXPOSE, RAW_CLOSE, RAW_UPDATE, RAW_REALIZE,
    RAW_UNREALIZE, RAW_LOOP_ENTER, RAW_LOOP_LEAVE, RAW_FOCUS_IN, RAW_FOCUS_OUT, RAW_KEY_PRESS,
    RAW_KEY_RELEASE, RAW_TEXT, RAW_POINTER_IN, RAW_POINTER_OUT, RAW_MOTION, RAW_BUTTON_PRESS,
    RAW_BUTTON_RELEASE, RAW_SCROLL, RAW_CLIENT, RAW_TIMER, RAW_DATA_OFFER, RAW_DATA,
    RAW_IS_HINT, RAW_MOD_SHIFT, RAW_MOD_CTRL, RAW_STYLE_MAPPED, RAW_STYLE_RESIZING,
    RAW_SCROLL_LEFT, RAW_CROSSING_GRAB, RAW_KEY_F5};
use pugl_rs::{translate, Event, Translation, CrossingMode, Key, MouseButton, ScrollDirection};

fn key_press_record() -> RawEvent {
    let mut ev = RawEvent::plain(RAW_KEY_PRESS, RAW_IS_HINT);
    ev.time = 1.5f64.to_bits();
    ev.x = 10.0f64.to_bits();
    ev.y = 20.0f64.to_bits();
    ev.x_root = 110.0f64.to_bits();
    ev.y_root = 120.0f64.to_bits();
    ev.state = RAW_MOD_SHIFT | RAW_MOD_CTRL;
    ev.keycode = 38;
    ev.key = 97;
    ev
}

#[test]
fn key_press_translates_with_exact_fields() {
    let raw = key_press_record();
    match translate::<()>(7, &raw) {
        Translation::Deliver(Event::KeyPress { input, keycode, key }) => {
            assert_eq!(f64::from_bits(input.time), 1.5);
            assert_eq!(f64::from_bits(input.x), 10.0);
            assert_eq!(f64::from_bits(input.y), 20.0);
            assert_eq!(f64::from_bits(input.root_x), 110.0);
            assert_eq!(f64::from_bits(input.root_y), 120.0);
            assert!(input.mods.shift);
            assert!(input.mods.ctrl);
            assert!(!input.mods.alt);
            assert!(input.hint);
            assert_eq!(keycode, 38);
            assert_eq!(key, Key::Char('a'));
        }
        _ => panic!("expected a key press"),
    }
}

#[test]
fn translation_is_deterministic_on_identical_records() {
    let raw = key_press_record();
    let first = match translate::<()>(7, &raw) {
        Translation::Deliver(Event::KeyPress { input, keycode, key }) => (input, keycode, key),
        _ => panic!("expected a key press"),
    };
    let second = match translate::<()>(7, &raw) {
        Translation::Deliver(Event::KeyPress { input, keycode, key }) => (input, keycode, key),
        _ => panic!("expected a key press"),
    };
    assert_eq!(first, second);
}

#[test]
fn special_key_translates() {
    let mut raw = RawEvent::plain(RAW_KEY_RELEASE, 0);
    raw.key = RAW_KEY_F5;
    raw.keycode = 71;
    match translate::<()>(1, &raw) {
        Translation::Deliver(Event::KeyRelease { input, keycode, key }) => {
            assert!(!input.hint);
            assert_eq!(keycode, 71);
            assert_eq!(key, Key::F5);
        }
        _ => panic!("expected a key release"),
    }
}

#[test]
fn configure_translates_rect_and_style() {
    let mut raw = RawEvent::plain(RAW_CONFIGURE, 0);
    raw.pos_x = -5;
    raw.pos_y = 30;
    raw.width = 640;
    raw.height = 480;
    raw.style = RAW_STYLE_MAPPED | RAW_STYLE_RESIZING;
    match translate::<()>(1, &raw) {
        Translation::Deliver(Event::Configure { rect, style }) => {
            assert_eq!((rect.x, rect.y, rect.w, rect.h), (-5, 30, 640, 480));
            assert!(style.mapped);
            assert!(style.resizing);
            assert!(!style.fullscreen);
        }
        _ => panic!("expected a configure event"),
    }
}

#[test]
fn expose_translates_rect() {
    let mut raw = RawEvent::plain(RAW_EXPOSE, 0);
    raw.pos_x = 1;
    raw.pos_y = 2;
    raw.width = 3;
    raw.height = 4;
    match translate::<()>(1, &raw) {
        Translation::Deliver(Event::Expose { backend: (), rect }) => {
            assert_eq!((rect.x, rect.y, rect.w, rect.h), (1, 2, 3, 4));
        }
        _ => panic!("expected an expose event"),
    }
}

#[test]
fn plain_kinds_translate() {
    assert!(matches!(
        translate::<()>(1, &RawEvent::plain(RAW_REALIZE, 0)),
        Translation::Deliver(Event::Realize { backend: () })
    ));
    assert!(matches!(
        translate::<()>(1, &RawEvent::plain(RAW_UNREALIZE, 0)),
        Translation::Deliver(Event::Unrealize { backend: () })
    ));
    assert!(matches!(
        translate::<()>(1, &RawEvent::plain(RAW_LOOP_ENTER, 0)),
        Translation::Deliver(Event::EnterLoop)
    ));
    assert!(matches!(
        translate::<()>(1, &RawEvent::plain(RAW_LOOP_LEAVE, 0)),
        Translation::Deliver(Event::LeaveLoop)
    ));
    assert!(matches!(
        translate::<()>(1, &RawEvent::plain(RAW_CLOSE, 0)),
        Translation::Deliver(Event::Close)
    ));
    assert!(matches!(
        translate::<()>(1, &RawEvent::plain(RAW_UPDATE, 0)),
        Translation::Deliver(Event::Update)
    ));
}

#[test]
fn focus_and_crossing_translate() {
    let mut raw = RawEvent::plain(RAW_FOCUS_IN, 0);
    raw.mode = RAW_CROSSING_GRAB;
    assert!(matches!(
        translate::<()>(1, &raw),
        Translation::Deliver(Event::FocusIn { mode: CrossingMode::Grab })
    ));
    raw.kind = RAW_FOCUS_OUT;
    raw.mode = 99;
    assert!(matches!(
        translate::<()>(1, &raw),
        Translation::Deliver(Event::FocusOut { mode: CrossingMode::Normal })
    ));
    raw.kind = RAW_POINTER_IN;
    raw.mode = RAW_CROSSING_GRAB;
    assert!(matches!(
        translate::<()>(1, &raw),
        Translation::Deliver(Event::PointerIn { mode: CrossingMode::Grab, .. })
    ));
    raw.kind = RAW_POINTER_OUT;
    assert!(matches!(
        translate::<()>(1, &raw),
        Translation::Deliver(Event::PointerOut { mode: CrossingMode::Grab, .. })
    ));
    raw.kind = RAW_MOTION;
    assert!(matches!(
        translate::<()>(1, &raw),
        Translation::Deliver(Event::PointerMotion { .. })
    ));
}

#[test]
fn buttons_translate() {
    let mut raw = RawEvent::plain(RAW_BUTTON_PRESS, 0);
    raw.button = 0;
    assert!(matches!(
        translate::<()>(1, &raw),
        Translation::Deliver(Event::ButtonPress { button: MouseButton::Left, .. })
    ));
    raw.kind = RAW_BUTTON_RELEASE;
    raw.button = 9;
    assert!(matches!(
        translate::<()>(1, &raw),
        Translation::Deliver(Event::ButtonRelease { button: MouseButton::Other(9), .. })
    ));
}

#[test]
fn scroll_translates_with_distances() {
    let mut raw = RawEvent::plain(RAW_SCROLL, 0);
    raw.direction = RAW_SCROLL_LEFT;
    raw.dx = (-2.0f64).to_bits();
    raw.dy = 1.0f64.to_bits();
    match translate::<()>(1, &raw) {
        Translation::Deliver(Event::Scroll { direction, dx, dy, .. }) => {
            assert_eq!(direction, ScrollDirection::Left);
            assert_eq!(f64::from_bits(dx), -2.0);
            assert_eq!(f64::from_bits(dy), 1.0);
        }
        _ => panic!("expected a scroll event"),
    }
}

#[test]
fn client_and_timer_translate() {
    let mut raw = RawEvent::plain(RAW_CLIENT, 0);
    raw.data1 = 11;
    raw.data2 = 22;
    match translate::<()>(1, &raw) {
        Translation::Deliver(Event::Client { data }) => assert_eq!(data, [11, 22]),
        _ => panic!("expected a client event"),
    }
    let mut raw = RawEvent::plain(RAW_TIMER, 0);
    raw.id = 42;
    assert!(matches!(
        translate::<()>(1, &raw),
        Translation::Deliver(Event::Timer { id: 42 })
    ));
}

#[test]
fn unknown_kind_is_dropped_silently() {
    let raw = RawEvent::plain(999, 0);
    assert!(matches!(translate::<()>(1, &raw), Translation::Ignore));
    let raw = RawEvent::plain(0, 0);
    assert!(matches!(translate::<()>(1, &raw), Translation::Ignore));
}

#[test]
fn clipboard_kinds_hand_off_to_the_phases() {
    assert!(matches!(
        translate::<()>(1, &RawEvent::plain(RAW_DATA_OFFER, 0)),
        Translation::OfferPhase
    ));
    let mut raw = RawEvent::plain(RAW_DATA, 0);
    raw.type_index = 3;
    assert!(matches!(
        translate::<()>(1, &raw),
        Translation::DataPhase { type_index: 3 }
    ));
}

#[test]
fn key_text_decodes_up_to_first_zero() {
    let mut raw = RawEvent::plain(RAW_TEXT, 0);
    raw.text = [0xC3, 0xA9, 0, 0, 0, 0, 0, 0];
    raw.keycode = 26;
    match translate::<()>(1, &raw) {
        Translation::Deliver(Event::KeyText { keycode, text, .. }) => {
            assert_eq!(keycode, 26);
            assert_eq!(text, "\u{e9}");
            assert_eq!(text.len(), 2);
        }
        _ => panic!("expected a key text event"),
    }
}

#[test]
fn key_text_full_buffer_without_zero_decodes_whole() {
    let mut raw = RawEvent::plain(RAW_TEXT, 0);
    raw.text = *b"abcdefgh";
    match translate::<()>(1, &raw) {
        Translation::Deliver(Event::KeyText { text, .. }) => assert_eq!(text, "abcdefgh"),
        _ => panic!("expected a key text event"),
    }
}

#[test]
fn key_text_invalid_utf8_yields_no_event() {
    let mut raw = RawEvent::plain(RAW_TEXT, 0);
    raw.text = [0xC3, 0x28, 0, 0, 0, 0, 0, 0];
    assert!(matches!(translate::<()>(1, &raw), Translation::Ignore));
    raw.text = [0xFF, 0, 0, 0, 0, 0, 0, 0];
    assert!(matches!(translate::<()>(1, &raw), Translation::Ignore));
}
