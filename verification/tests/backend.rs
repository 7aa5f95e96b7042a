use pugl_rs::raw::{RAW_HINT_CONTEXT_API, RAW_HINT_CONTEXT_PROFILE,
    RAW_HINT_CONTEXT_VERSION_MAJOR, RAW_HINT_CONTEXT_VERSION_MINOR, RAW_HINT_CONTEXT_DEBUG,
    RAW_HINT_DOUBLE_BUFFER, RAW_HINT_RED_BITS, RAW_HINT_GREEN_BITS, RAW_HINT_BLUE_BITS,
    RAW_HINT_ALPHA_BITS, RAW_HINT_DEPTH_BITS, RAW_HINT_STENCIL_BITS, RAW_HINT_SAMPLES,
    RAW_HINT_SAMPLE_BUFFERS, RAW_HINT_SWAP_INTERVAL, RAW_OPENGL_API, RAW_OPENGL_ES_API,
    RAW_OPENGL_CORE_PROFILE, RAW_OPENGL_COMPATIBILITY_PROFILE};
use pugl_rs::raw::{RAW_EXPOSE, RAW_REALIZE};
use pugl_rs::{translate, BackendKind, Event, HintSetting, OpenGl, OpenGlVersion, RawEvent,
    Translation, World};

fn hint(hint: u32, value: i32) -> HintSetting {
    HintSetting { hint, value }
}

#[test]
fn stub_backend_installs_nothing() {
    let world: World<u64> = World::new_program(1).unwrap();
    let (_view, plan) = world.new_view((), 2);
    assert_eq!(plan.kind, BackendKind::Stub);
    assert!(plan.hints.is_empty());
}

#[test]
fn default_opengl_is_a_core_2_0_double_buffered_context() {
    let gl = OpenGl::default();
    assert!(matches!(gl.version, OpenGlVersion::Core(2, 0)));
    assert!(!gl.debug);
    assert!(gl.double_buffer);
    assert_eq!(gl.swap_interval, None);
    assert_eq!(
        (gl.bits_red, gl.bits_green, gl.bits_blue, gl.bits_alpha),
        (8, 8, 8, 8)
    );
    assert_eq!((gl.bits_stencil, gl.bits_depth), (0, 0));
    assert_eq!(gl.aa_buffers, None);
    assert_eq!(gl.aa_samples, 0);
}

#[test]
fn default_opengl_installs_the_exact_hint_sequence() {
    let world: World<u64> = World::new_program(1).unwrap();
    let (_view, plan) = world.new_view(OpenGl::default(), 2);
    assert_eq!(plan.kind, BackendKind::OpenGl);
    assert_eq!(
        plan.hints,
        vec![
            hint(RAW_HINT_CONTEXT_API, RAW_OPENGL_API as i32),
            hint(RAW_HINT_CONTEXT_PROFILE, RAW_OPENGL_CORE_PROFILE as i32),
            hint(RAW_HINT_CONTEXT_VERSION_MAJOR, 2),
            hint(RAW_HINT_CONTEXT_VERSION_MINOR, 0),
            hint(RAW_HINT_CONTEXT_DEBUG, 0),
            hint(RAW_HINT_DOUBLE_BUFFER, 1),
            hint(RAW_HINT_RED_BITS, 8),
            hint(RAW_HINT_GREEN_BITS, 8),
            hint(RAW_HINT_BLUE_BITS, 8),
            hint(RAW_HINT_ALPHA_BITS, 8),
            hint(RAW_HINT_DEPTH_BITS, 0),
            hint(RAW_HINT_STENCIL_BITS, 0),
            hint(RAW_HINT_SAMPLES, 0),
        ]
    );
}

#[test]
fn es_version_and_optional_hints_are_installed_when_set() {
    let gl = OpenGl {
        version: OpenGlVersion::ES(3, 1),
        debug: true,
        double_buffer: false,
        swap_interval: Some(1),
        bits_red: 5,
        bits_green: 6,
        bits_blue: 5,
        bits_alpha: 0,
        bits_stencil: 8,
        bits_depth: 24,
        aa_buffers: Some(1),
        aa_samples: 4,
    };
    let world: World<u64> = World::new_program(1).unwrap();
    let (_view, plan) = world.new_view(gl, 2);
    assert_eq!(
        plan.hints,
        vec![
            hint(RAW_HINT_CONTEXT_API, RAW_OPENGL_ES_API as i32),
            hint(RAW_HINT_CONTEXT_VERSION_MAJOR, 3),
            hint(RAW_HINT_CONTEXT_VERSION_MINOR, 1),
            hint(RAW_HINT_CONTEXT_DEBUG, 1),
            hint(RAW_HINT_DOUBLE_BUFFER, 0),
            hint(RAW_HINT_RED_BITS, 5),
            hint(RAW_HINT_GREEN_BITS, 6),
            hint(RAW_HINT_BLUE_BITS, 5),
            hint(RAW_HINT_ALPHA_BITS, 0),
            hint(RAW_HINT_DEPTH_BITS, 24),
            hint(RAW_HINT_STENCIL_BITS, 8),
            hint(RAW_HINT_SAMPLES, 4),
            hint(RAW_HINT_SAMPLE_BUFFERS, 1),
            hint(RAW_HINT_SWAP_INTERVAL, 1),
        ]
    );
}

#[test]
fn compat_profile_is_requested_for_compat_versions() {
    let gl = OpenGl { version: OpenGlVersion::Compat(3, 2), ..OpenGl::default() };
    let world: World<u64> = World::new_program(1).unwrap();
    let (_view, plan) = world.new_view(gl, 2);
    assert_eq!(plan.hints[0], hint(RAW_HINT_CONTEXT_API, RAW_OPENGL_API as i32));
    assert_eq!(
        plan.hints[1],
        hint(RAW_HINT_CONTEXT_PROFILE, RAW_OPENGL_COMPATIBILITY_PROFILE as i32)
    );
    assert_eq!(plan.hints[2], hint(RAW_HINT_CONTEXT_VERSION_MAJOR, 3));
    assert_eq!(plan.hints[3], hint(RAW_HINT_CONTEXT_VERSION_MINOR, 2));
}

#[test]
fn opengl_contexts_are_bound_to_the_view() {
    let raw = RawEvent::plain(RAW_REALIZE, 0);
    match translate::<OpenGl>(0x2000, &raw) {
        Translation::Deliver(Event::Realize { backend }) => {
            assert_eq!(backend.view_handle(), 0x2000);
        }
        _ => panic!("expected a realize event"),
    }
    let raw = RawEvent::plain(RAW_EXPOSE, 0);
    match translate::<OpenGl>(0x2000, &raw) {
        Translation::Deliver(Event::Expose { backend, .. }) => {
            assert_eq!(backend.view_handle(), 0x2000);
        }
        _ => panic!("expected an expose event"),
    }
}
