use pugl_rs::raw::{RAW_SUCCESS, RAW_FAILURE, RAW_WORLD_PROGRAM, RAW_WORLD_MODULE,
    RAW_WORLD_THREADS};
use pugl_rs::{UpdateAction, World, WorldError, WorldInner, WorldMode};

#[test]
fn world_creation_reports_allocation_failure() {
    assert!(World::<u64>::new_program(0x1000).is_ok());
    assert!(matches!(World::<u64>::new_program(0), Err(WorldError)));
    assert!(World::<u64>::new_module(0x1000).is_ok());
    assert!(matches!(World::<u64>::new_module(0), Err(WorldError)));
}

#[test]
fn world_modes_encode_their_raw_requests() {
    assert_eq!(WorldMode::Program.into_raw(), (RAW_WORLD_PROGRAM, 0));
    assert_eq!(WorldMode::Module.into_raw(), (RAW_WORLD_MODULE, RAW_WORLD_THREADS));
}

#[test]
fn class_name_is_recorded() {
    let world: World<u64> = World::new_program(1).unwrap().with_class_name("MyApp");
    assert_eq!(world.class_name(), "MyApp");
}

#[test]
fn a_panic_is_reraised_exactly_once_then_updates_proceed() {
    let mut world: World<String> = World::new_program(1).unwrap();
    // A callback panicked during an update: the trampoline stores the
    // payload and reports success to native code.
    let status = world.absorb_panic("boom".to_string());
    assert_eq!(status, RAW_SUCCESS);
    // The next call into the world re-raises the identical payload instead
    // of pumping.
    match world.begin_update() {
        UpdateAction::Raise(p) => assert_eq!(p, "boom"),
        UpdateAction::Pump => panic!("a pending panic must be re-raised"),
    }
    // A third call proceeds normally.
    assert!(matches!(world.begin_update(), UpdateAction::Pump));
}

#[test]
fn a_second_panic_replaces_the_first() {
    let mut world: World<String> = World::new_program(1).unwrap();
    world.absorb_panic("first".to_string());
    world.absorb_panic("second".to_string());
    match world.begin_update() {
        UpdateAction::Raise(p) => assert_eq!(p, "second"),
        UpdateAction::Pump => panic!("a pending panic must be re-raised"),
    }
    assert!(matches!(world.begin_update(), UpdateAction::Pump));
}

#[test]
fn update_outcome_maps_the_native_statuses() {
    assert_eq!(World::<u64>::update_outcome(RAW_SUCCESS), Ok(true));
    assert_eq!(World::<u64>::update_outcome(RAW_FAILURE), Ok(false));
    assert_eq!(World::<u64>::update_outcome(55), Err(WorldError));
}

#[test]
fn replace_poison_stores_and_returns_the_previous_content() {
    let mut inner: WorldInner<u64> = WorldInner::wrap(9);
    assert_eq!(inner.replace_poison(Some(10)), None);
    assert_eq!(inner.replace_poison(Some(11)), Some(10));
    assert_eq!(inner.replace_poison(None), Some(11));
    assert_eq!(inner.replace_poison(None), None);
}

#[test]
fn world_error_message_is_stable() {
    assert_eq!(WorldError.message(), "unknown world error");
}
