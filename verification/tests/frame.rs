use shaderlab::camera::Basis;
use shaderlab::geom::Vec3Milli;
use shaderlab::input::HeldKeys;
use shaderlab::render::{compose_frame, RenderCmd};
use shaderlab::shader::{CompileOutcome, CompileStatus, Slot};
use shaderlab::state::{AppState, FrameEvents};

fn chars(s: &str) -> Vec<char> {
    s.chars().collect()
}

fn no_keys() -> HeldKeys {
    HeldKeys {
        ascend: false,
        descend: false,
        forward: false,
        back: false,
        strafe_right: false,
        strafe_left: false,
        yaw_right: false,
        yaw_left: false,
        pitch_up: false,
        pitch_down: false,
    }
}

fn quiet_frame() -> FrameEvents {
    FrameEvents { editing: false, toggle_clicked: false, compile_request: None }
}

fn zero_yaw() -> Basis {
    Basis::from_yaw_trig(1000, 0)
}

#[test]
fn held_keys_fly_the_camera_when_not_editing() {
    let mut state = AppState::new(chars("inst"), chars("cust"));
    let keys = HeldKeys { forward: true, ascend: true, ..no_keys() };
    let result = state.frame_update(quiet_frame(), keys, zero_yaw());
    assert!(result.is_none());
    assert_eq!(state.camera.position, Vec3Milli { x: 1000, y: 1000, z: 0 });
}

#[test]
fn editor_focus_suppresses_the_same_keys() {
    let mut state = AppState::new(chars("inst"), chars("cust"));
    let keys = HeldKeys { forward: true, ascend: true, ..no_keys() };
    let events = FrameEvents { editing: true, ..quiet_frame() };
    state.frame_update(events, keys, zero_yaw());
    assert_eq!(state.camera.position, Vec3Milli { x: 0, y: 0, z: 0 });
    assert!(state.edit_mode);
}

#[test]
fn typed_text_reaches_the_editor_only_in_edit_mode() {
    let mut state = AppState::new(chars(""), chars(""));
    state.route_text('n');
    assert_eq!(state.registry.instance_slot.source, chars(""));

    let events = FrameEvents { editing: true, ..quiet_frame() };
    state.frame_update(events, no_keys(), zero_yaw());
    state.route_text('y');
    state.route_text('e');
    state.route_text('s');
    assert_eq!(state.registry.instance_slot.source, chars("yes"));
    assert_eq!(state.registry.custom_slot.source, chars(""));
}

#[test]
fn resize_event_resets_projection_and_nothing_else() {
    let mut state = AppState::new(chars("inst"), chars("cust"));
    state.resize_event(1024, 768);
    state.resize_event(800, 600);
    assert_eq!(state.projection.width, 800);
    assert_eq!(state.projection.height, 600);
    assert_eq!(state.projection.znear_milli, 100);
    assert_eq!(state.projection.zfar_milli, 10_000_000);
    assert_eq!(state.registry.instance_slot.source, chars("inst"));
}

#[test]
fn compile_verdict_lands_on_the_newly_toggled_slot() {
    let mut state = AppState::new(chars("inst"), chars("cust"));
    let events = FrameEvents {
        editing: false,
        toggle_clicked: true,
        compile_request: Some(CompileOutcome::Accepted),
    };
    let result = state.frame_update(events, no_keys(), zero_yaw());
    assert_eq!(result, Some(Ok(0)));
    assert_eq!(state.registry.active, Slot::Custom);
    assert!(state.registry.custom_slot.program.is_some());
    assert!(state.registry.instance_slot.program.is_none());
}

#[test]
fn failed_edit_keeps_both_passes_rendering() {
    // Start with the two default sources and compile both successfully.
    let mut state = AppState::new(chars("default instance"), chars("default custom"));
    let compile = |outcome| FrameEvents {
        editing: false,
        toggle_clicked: false,
        compile_request: Some(outcome),
    };
    assert_eq!(
        state.frame_update(compile(CompileOutcome::Accepted), no_keys(), zero_yaw()),
        Some(Ok(0)),
    );
    let toggle_and_compile = FrameEvents {
        editing: false,
        toggle_clicked: true,
        compile_request: Some(CompileOutcome::Accepted),
    };
    assert_eq!(
        state.frame_update(toggle_and_compile, no_keys(), zero_yaw()),
        Some(Ok(1)),
    );
    assert!(state.both_compiled());
    let plan_before = compose_frame(&state.registry);

    // Edit the custom slot's text into a deliberately malformed shader.
    let focus = FrameEvents { editing: true, ..quiet_frame() };
    state.frame_update(focus, no_keys(), zero_yaw());
    state.route_text('@');
    state.route_text('@');

    // The compiler rejects it: status records the failure...
    let verdict = state.frame_update(
        compile(CompileOutcome::Rejected(chars("unexpected token"))),
        no_keys(),
        zero_yaw(),
    );
    let err = verdict.expect("a compile was requested").expect_err("the source is malformed");
    assert_eq!(err.reason, chars("unexpected token"));
    assert_eq!(
        state.registry.custom_slot.status,
        CompileStatus::Failed(chars("unexpected token")),
    );

    // ...but the custom slot still renders with the original default program,
    // and the instanced pass is untouched.
    let program = state.registry.custom_slot.program.as_ref().expect("program survives");
    assert_eq!(program.id, 1);
    assert_eq!(program.source, chars("default custom"));
    let plan_after = compose_frame(&state.registry);
    assert_eq!(plan_after, plan_before);
    assert!(plan_after.contains(&RenderCmd::BindShader { slot: Slot::Custom, program: 1 }));
    assert!(plan_after.contains(&RenderCmd::BindShader { slot: Slot::Instance, program: 0 }));
}
