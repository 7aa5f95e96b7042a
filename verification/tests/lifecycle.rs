use pugl_rs::raw::{RAW_SUCCESS, RAW_BAD_BACKEND, RAW_BAD_CONFIGURATION, RAW_BACKEND_FAILED,
    RAW_REGISTRATION_FAILED, RAW_REALIZE_FAILED, RAW_CREATE_CONTEXT_FAILED,
    RAW_SET_FORMAT_FAILED, RAW_NO_MEMORY, RAW_UNREALIZE, RAW_KEY_PRESS, RAW_CLIENT, RAW_CLOSE,
    RAW_IS_SEND_EVENT, RAW_CURRENT_SIZE, RAW_MIN_SIZE, RAW_MAX_SIZE, RAW_HINT_RESIZABLE,
    RAW_SHOW_RAISE, RAW_SHOW_PASSIVE, RAW_SHOW_FORCE_RAISE};
use pugl_rs::{dispatch_step, size_update_commands, BackendKind, CallbackSlot, HintCommand,
    NativeView, View, ViewError, ViewParent, World};

fn realized_view() -> View<()> {
    let world: World<u64> = World::new_program(0x1000).unwrap();
    let (unrealized, plan) = world.new_view((), 0x2000);
    assert_eq!(plan.kind, BackendKind::Stub);
    assert!(plan.hints.is_empty());
    unrealized.realize(RAW_SUCCESS).unwrap()
}

#[test]
fn builder_then_realize_yields_a_live_view() {
    let world: World<u64> = World::new_program(0x1000).unwrap();
    let (unrealized, _plan) = world.new_view((), 0x2000);
    let unrealized = unrealized
        .with_title("hello")
        .with_resizable(true)
        .with_size(640, 480)
        .with_min_size(64, 64);
    assert_eq!(unrealized.title(), "hello");
    assert!(unrealized.parent().is_none());
    let view = unrealized.realize(RAW_SUCCESS).expect("valid configuration realizes");
    assert_eq!(view.handle(), 0x2000);
    assert_eq!(view.title(), "hello");
    assert_eq!(view.size(), (640, 480));
}

#[test]
fn realize_failure_maps_to_the_typed_error() {
    let world: World<u64> = World::new_program(0x1000).unwrap();
    let (unrealized, _plan) = world.new_view((), 0x2000);
    match unrealized.realize(RAW_BAD_BACKEND) {
        Err(e) => assert_eq!(e, ViewError::BadBackend),
        Ok(_) => panic!("a native failure must not realize"),
    }
}

#[test]
fn every_realize_failure_status_has_its_error() {
    let cases = [
        (RAW_BAD_CONFIGURATION, ViewError::BadConfig),
        (RAW_BAD_BACKEND, ViewError::BadBackend),
        (RAW_BACKEND_FAILED, ViewError::BackendInit),
        (RAW_REGISTRATION_FAILED, ViewError::ClassRegister),
        (RAW_REALIZE_FAILED, ViewError::OsRealize),
        (RAW_CREATE_CONTEXT_FAILED, ViewError::CreateContext),
        (RAW_SET_FORMAT_FAILED, ViewError::SetPixelFormat),
        (RAW_NO_MEMORY, ViewError::OutOfMemory),
        (777, ViewError::Unknown),
    ];
    for (status, expected) in cases {
        assert_eq!(ViewError::from_status(status), expected);
    }
}

#[test]
fn error_messages_name_the_stage() {
    assert_eq!(ViewError::BadBackend.message(), "invalid backend");
    assert_eq!(ViewError::OutOfMemory.message(), "out of memory");
    assert_eq!(ViewError::Unknown.message(), "unknown error");
}

#[test]
fn installing_a_second_callback_frees_the_first_exactly_once() {
    let mut slot = CallbackSlot::empty();
    let freed = slot.install(1);
    assert!(!freed);
    assert_eq!((slot.installs, slot.frees), (1, 0));
    let freed = slot.install(2);
    assert!(freed);
    assert_eq!((slot.installs, slot.frees), (2, 1));
    assert_eq!(slot.handler, Some(2));
}

#[test]
fn unrealize_frees_the_callback_exactly_once_and_never_invokes_after() {
    let mut slot = CallbackSlot::empty();
    slot.install(7);
    let plan = dispatch_step(&mut slot, RAW_KEY_PRESS, true);
    assert!(plan.invoke);
    assert!(!plan.free);
    assert_eq!(slot.frees, 0);
    let plan = dispatch_step(&mut slot, RAW_UNREALIZE, true);
    assert!(plan.invoke);
    assert!(plan.free);
    assert_eq!(plan.status, RAW_SUCCESS);
    assert_eq!(slot.handler, None);
    assert_eq!(slot.frees, 1);
    // Whatever comes later, nothing is invoked and nothing more is freed.
    let plan = dispatch_step(&mut slot, RAW_KEY_PRESS, true);
    assert!(!plan.invoke);
    assert!(!plan.free);
    let plan = dispatch_step(&mut slot, RAW_UNREALIZE, true);
    assert!(!plan.invoke);
    assert!(!plan.free);
    assert_eq!(slot.frees, 1);
}

#[test]
fn a_view_dispatches_through_its_own_slot() {
    let world: World<u64> = World::new_program(0x1000).unwrap();
    let (unrealized, _plan) = world.new_view((), 0x2000);
    let mut view = unrealized.with_event_handler(9).realize(RAW_SUCCESS).unwrap();
    let plan = view.dispatch(RAW_KEY_PRESS, true);
    assert!(plan.invoke && !plan.free);
    let plan = view.dispatch(RAW_UNREALIZE, true);
    assert!(plan.invoke && plan.free);
    let plan = view.dispatch(RAW_KEY_PRESS, true);
    assert!(!plan.invoke && !plan.free);
    assert_eq!(plan.status, RAW_SUCCESS);
}

#[test]
fn unrealize_with_no_callback_frees_nothing() {
    let mut slot = CallbackSlot::empty();
    let plan = dispatch_step(&mut slot, RAW_UNREALIZE, true);
    assert!(!plan.invoke);
    assert!(!plan.free);
    assert_eq!((slot.installs, slot.frees), (0, 0));
}

#[test]
fn untranslated_events_invoke_nothing() {
    let mut slot = CallbackSlot::empty();
    slot.install(7);
    let plan = dispatch_step(&mut slot, RAW_KEY_PRESS, false);
    assert!(!plan.invoke);
    assert!(!plan.free);
    assert_eq!(slot.handler, Some(7));
}

#[test]
fn freeing_a_view_yields_its_handle_once() {
    let view = realized_view();
    assert_eq!(view.free(), 0x2000);
    // `free` consumes the view; releasing twice does not compile.
}

#[test]
fn size_below_minimum_is_rejected_not_silently_accepted() {
    let mut view = realized_view();
    view.set_min_size(128, 128);
    view.set_max_size(2048, 2048);
    assert!(!view.set_size(64, 64));
    assert_eq!(view.size(), (0, 0));
    assert!(view.set_size(800, 600));
    assert_eq!(view.size(), (800, 600));
    assert!(!view.set_size(4096, 600));
    assert_eq!(view.size(), (800, 600));
}

#[test]
fn size_without_bounds_is_accepted() {
    let mut view = realized_view();
    assert!(view.set_size(5, 5));
    assert_eq!(view.size(), (5, 5));
}

#[test]
fn size_update_commands_use_the_resizable_workaround() {
    assert_eq!(
        size_update_commands(true, 800, 600),
        vec![HintCommand::SetSizeHint { hint: RAW_CURRENT_SIZE, width: 800, height: 600 }]
    );
    assert_eq!(
        size_update_commands(false, 800, 600),
        vec![
            HintCommand::SetViewHint { hint: RAW_HINT_RESIZABLE, value: 1 },
            HintCommand::SetSizeHint { hint: RAW_MAX_SIZE, width: 800, height: 600 },
            HintCommand::SetSizeHint { hint: RAW_MIN_SIZE, width: 800, height: 600 },
            HintCommand::SetSizeHint { hint: RAW_CURRENT_SIZE, width: 800, height: 600 },
            HintCommand::SetViewHint { hint: RAW_HINT_RESIZABLE, value: 0 },
        ]
    );
}

#[test]
fn show_and_hide_track_visibility() {
    let mut view = realized_view();
    assert!(!view.is_visible());
    assert_eq!(view.show(), RAW_SHOW_RAISE);
    assert!(view.is_visible());
    view.hide_view();
    assert!(!view.is_visible());
    assert_eq!(view.show_passive(), RAW_SHOW_PASSIVE);
    assert!(view.is_visible());
    assert_eq!(view.show_aggressive(), RAW_SHOW_FORCE_RAISE);
}

#[test]
fn positions_and_parent_are_recorded() {
    let world: World<u64> = World::new_program(0x1000).unwrap();
    let (unrealized, _plan) = world.new_view((), 0x2000);
    let parent = ViewParent::Embedding(NativeView::from_raw(0x77));
    let mut view = unrealized
        .with_parent(parent)
        .with_position(10, -20)
        .realize(RAW_SUCCESS)
        .unwrap();
    assert_eq!(view.parent(), Some(parent));
    assert_eq!(view.position(), (10, -20));
    view.set_position(3, 4);
    assert_eq!(view.position(), (3, 4));
}

#[test]
fn synthetic_events_carry_their_payload() {
    let view = realized_view();
    let ev = view.send_client_event([5, 6]);
    assert_eq!(ev.kind, RAW_CLIENT);
    assert_eq!(ev.flags, RAW_IS_SEND_EVENT);
    assert_eq!((ev.data1, ev.data2), (5, 6));
    let ev = view.send_close_event();
    assert_eq!(ev.kind, RAW_CLOSE);
    assert_eq!(ev.flags, RAW_IS_SEND_EVENT);
}

#[test]
fn copy_clipboard_offers_text_plain_bytes() {
    let view = realized_view();
    let (mime, bytes) = view.copy_clipboard("waow");
    assert_eq!(mime, "text/plain");
    assert_eq!(bytes, b"waow");
}

#[test]
fn native_view_round_trips_its_raw_handle() {
    let nv = NativeView::from_raw(0xABCD);
    assert_eq!(nv.as_raw(), 0xABCD);
}
