use pugl_rs::{clipboard_data_event, clipboard_offer_accepts, is_text_plain, Event};

#[test]
fn offer_of_text_plain_is_accepted_at_its_index() {
    let types = vec!["text/plain".to_string()];
    assert_eq!(clipboard_offer_accepts(&types), vec![0]);
}

#[test]
fn offer_accepts_every_text_plain_index_in_order() {
    let types = vec![
        "image/png".to_string(),
        "text/plain".to_string(),
        "text/html".to_string(),
        "text/plain".to_string(),
    ];
    assert_eq!(clipboard_offer_accepts(&types), vec![1, 3]);
}

#[test]
fn offer_of_non_text_types_accepts_nothing() {
    let types = vec!["image/png".to_string(), "text/html".to_string()];
    assert_eq!(clipboard_offer_accepts(&types), Vec::<u32>::new());
    assert_eq!(clipboard_offer_accepts(&Vec::new()), Vec::<u32>::new());
}

#[test]
fn clipboard_round_trip_yields_exactly_the_text() {
    // Offer phase: one advertised type, accepted; no typed event yet.
    let types = vec!["text/plain".to_string()];
    let accepted = clipboard_offer_accepts(&types);
    assert_eq!(accepted, vec![0]);
    // Data phase: the accepted type's bytes become exactly one event.
    let payload = b"waow";
    match clipboard_data_event::<()>("text/plain", Some(payload)) {
        Some(Event::Clipboard { text }) => assert_eq!(text, "waow"),
        _ => panic!("expected a clipboard event"),
    }
}

#[test]
fn data_for_another_type_yields_no_event() {
    assert!(clipboard_data_event::<()>("image/png", Some(b"waow")).is_none());
}

#[test]
fn absent_or_undecodable_data_yields_no_event() {
    assert!(clipboard_data_event::<()>("text/plain", None).is_none());
    assert!(clipboard_data_event::<()>("text/plain", Some(&[0xC3, 0x28])).is_none());
}

#[test]
fn text_plain_recognition_is_exact() {
    assert!(is_text_plain("text/plain"));
    assert!(!is_text_plain("text/plain;charset=utf-8"));
    assert!(!is_text_plain("TEXT/PLAIN"));
    assert!(!is_text_plain(""));
}
