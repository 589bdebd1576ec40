use shaderlab::camera::{Basis, CamCmd, CameraTransform, ProjectionState};
use shaderlab::geom::Vec3Milli;
use shaderlab::input::{arbitrate, HeldKeys};

fn no_keys() -> HeldKeys {
    HeldKeys {
        ascend: false,
        descend: false,
        forward: false,
        back: false,
        strafe_right: false,
        strafe_left: false,
        yaw_right: false,
        yaw_left: false,
        pitch_up: false,
        pitch_down: false,
    }
}

#[test]
fn basis_at_yaw_zero_is_x_forward_z_right() {
    // cos(0) = 1, sin(0) = 0, in thousandths; pitch is not an input at all.
    let basis = Basis::from_yaw_trig(1000, 0);
    assert_eq!(basis.forward, Vec3Milli { x: 1000, y: 0, z: 0 });
    assert_eq!(basis.right, Vec3Milli { x: 0, y: 0, z: 1000 });
}

#[test]
fn resize_pins_clip_planes_regardless_of_prior_state() {
    let mut projection = ProjectionState {
        width: 123,
        height: 7,
        znear_milli: 999_999,
        zfar_milli: 1,
    };
    projection.resize(800, 600);
    assert_eq!(projection.width, 800);
    assert_eq!(projection.height, 600);
    assert_eq!(projection.znear_milli, 100); // 0.1 world units
    assert_eq!(projection.zfar_milli, 10_000_000); // 10000 world units
}

#[test]
fn translation_commands_move_along_the_basis() {
    let basis = Basis::from_yaw_trig(1000, 0);
    let mut cam = CameraTransform::start();
    cam.apply_command(CamCmd::Forward, &basis);
    assert_eq!(cam.position, Vec3Milli { x: 1000, y: 0, z: 0 });
    cam.apply_command(CamCmd::StrafeRight, &basis);
    assert_eq!(cam.position, Vec3Milli { x: 1000, y: 0, z: 1000 });
    cam.apply_command(CamCmd::Back, &basis);
    cam.apply_command(CamCmd::StrafeLeft, &basis);
    assert_eq!(cam.position, Vec3Milli { x: 0, y: 0, z: 0 });
}

#[test]
fn turn_and_tilt_commands_step_the_angles() {
    let basis = Basis::from_yaw_trig(1000, 0);
    let mut cam = CameraTransform::start();
    cam.apply_command(CamCmd::YawRight, &basis);
    cam.apply_command(CamCmd::YawRight, &basis);
    cam.apply_command(CamCmd::YawLeft, &basis);
    cam.apply_command(CamCmd::PitchUp, &basis);
    cam.apply_command(CamCmd::PitchDown, &basis);
    cam.apply_command(CamCmd::PitchDown, &basis);
    assert_eq!(cam.yaw_steps, 1);
    assert_eq!(cam.pitch_steps, -1);
    // Translation never moved.
    assert_eq!(cam.position, Vec3Milli { x: 0, y: 0, z: 0 });
}

#[test]
fn ascend_and_descend_ignore_orientation() {
    // An oblique yaw: the vertical moves must not be affected by it.
    let basis = Basis::from_yaw_trig(707, 707);
    let mut cam = CameraTransform::start();
    cam.apply_command(CamCmd::Ascend, &basis);
    assert_eq!(cam.position, Vec3Milli { x: 0, y: 1000, z: 0 });
    cam.apply_command(CamCmd::Descend, &basis);
    cam.apply_command(CamCmd::Descend, &basis);
    assert_eq!(cam.position, Vec3Milli { x: 0, y: -1000, z: 0 });
}

#[test]
fn editing_suppresses_every_movement_key() {
    let keys = HeldKeys {
        ascend: true,
        descend: true,
        forward: true,
        back: true,
        strafe_right: true,
        strafe_left: true,
        yaw_right: true,
        yaw_left: true,
        pitch_up: true,
        pitch_down: true,
    };
    assert_eq!(arbitrate(true, &keys), vec![]);
}

#[test]
fn held_keys_yield_commands_in_polling_order() {
    let keys = HeldKeys {
        forward: true,
        yaw_left: true,
        ascend: true,
        ..no_keys()
    };
    assert_eq!(
        arbitrate(false, &keys),
        vec![CamCmd::Ascend, CamCmd::Forward, CamCmd::YawLeft],
    );
}

#[test]
fn run_commands_applies_in_order() {
    let basis = Basis::from_yaw_trig(0, 1000); // yaw a quarter turn: forward is +z
    let mut cam = CameraTransform::start();
    let cmds = vec![CamCmd::Forward, CamCmd::Forward, CamCmd::Ascend, CamCmd::YawRight];
    cam.run_commands(&cmds, &basis);
    assert_eq!(cam.position, Vec3Milli { x: 0, y: 1000, z: 2000 });
    assert_eq!(cam.yaw_steps, 1);
}
