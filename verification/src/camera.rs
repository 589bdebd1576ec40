//! The camera controller: a position/orientation transform driven by discrete
//! per-frame movement commands, and the projection state reset by resizes.
//!
//! Yaw and pitch advance in fixed angular steps (one per frame tick while the
//! key is held). Travel direction is derived from yaw alone: the caller hands
//! in the yaw's cosine and sine in thousandths (trigonometry is the outside
//! collaborator's floating-point work), and the basis construction never looks
//! at pitch — pitch shapes only the view matrix, a deliberate quirk of the
//! design that is preserved here.

use vstd::prelude::*;

use crate::geom::Vec3Milli;

verus! {

/// One discrete movement command, applied once per frame tick per held key.
#[derive(Clone, Copy, PartialEq, Eq, Structural, Debug)]
pub enum CamCmd {
    /// Rise one world unit (straight up, independent of orientation).
    Ascend,
    /// Sink one world unit.
    Descend,
    /// Travel one unit along the yaw-derived forward vector.
    Forward,
    /// Travel one unit against the forward vector.
    Back,
    /// Travel one unit along the yaw-derived right vector.
    StrafeRight,
    /// Travel one unit against the right vector.
    StrafeLeft,
    /// Turn one angular step to the right.
    YawRight,
    /// Turn one angular step to the left.
    YawLeft,
    /// Tilt one angular step up.
    PitchUp,
    /// Tilt one angular step down.
    PitchDown,
}

/// The travel basis for the current yaw: unit vectors in thousandths, handed
/// in by the driver from the yaw's cosine and sine.
#[derive(Clone, Copy, PartialEq, Eq, Structural, Debug)]
pub struct Basis {
    pub forward: Vec3Milli,
    pub right: Vec3Milli,
}

/// The travel basis derived from the yaw's cosine and sine (in thousandths):
/// `forward = (cos, 0, sin)` and `right = (-sin, 0, cos)`. Pitch is not an
/// input — translation ignores it by design.
pub open spec fn basis_of(cos_milli: i64, sin_milli: i64) -> Basis {
    Basis {
        forward: Vec3Milli { x: cos_milli, y: 0, z: sin_milli },
        right: Vec3Milli { x: (-sin_milli) as i64, y: 0, z: cos_milli },
    }
}

impl Basis {
    /// Components of a scaled unit vector: within one world unit.
    pub open spec fn wf(self) -> bool {
        &&& self.forward.unit_bounded()
        &&& self.right.unit_bounded()
    }

    /// Builds the travel basis from the current yaw's cosine and sine, both
    /// in thousandths (so within `[-1000, 1000]`).
    pub fn from_yaw_trig(cos_milli: i64, sin_milli: i64) -> (r: Basis)
        requires
            -1000 <= cos_milli <= 1000,
            -1000 <= sin_milli <= 1000,
        ensures
            r == basis_of(cos_milli, sin_milli),
            r.wf(),
    {
        Basis {
            forward: Vec3Milli { x: cos_milli, y: 0, z: sin_milli },
            right: Vec3Milli { x: -sin_milli, y: 0, z: cos_milli },
        }
    }
}

/// The camera's position (thousandths of a unit) and orientation (whole
/// angular steps of yaw and pitch).
#[derive(Clone, Copy, PartialEq, Eq, Structural, Debug)]
pub struct CameraTransform {
    pub position: Vec3Milli,
    pub yaw_steps: i64,
    pub pitch_steps: i64,
}

/// The projection state: viewport size and clip planes (in thousandths of a
/// world unit).
#[derive(Clone, Copy, PartialEq, Eq, Structural, Debug)]
pub struct ProjectionState {
    pub width: u32,
    pub height: u32,
    pub znear_milli: u32,
    pub zfar_milli: u32,
}

/// The near clip plane every resize pins: a tenth of a world unit.
pub open spec fn znear_reset() -> u32 {
    100
}

/// The far clip plane every resize pins: ten thousand world units.
pub open spec fn zfar_reset() -> u32 {
    10_000_000
}

/// The projection state after a resize to `width` by `height`. The prior
/// state is not an input: a resize pins every field deterministically.
pub open spec fn resized(width: u32, height: u32) -> ProjectionState {
    ProjectionState { width, height, znear_milli: znear_reset(), zfar_milli: zfar_reset() }
}

/// The projection state `before` after a resize to `width` by `height`.
pub open spec fn resize_spec(before: ProjectionState, width: u32, height: u32) -> ProjectionState {
    resized(width, height)
}

impl ProjectionState {
    /// Applies a window resize: the viewport takes the new size and both clip
    /// planes are reset to their fixed values, whatever held before.
    pub fn resize(&mut self, width: u32, height: u32)
        ensures
            *final(self) == resize_spec(*old(self), width, height),
            *final(self) == resized(width, height),
    {
        self.width = width;
        self.height = height;
        self.znear_milli = 100;
        self.zfar_milli = 10_000_000;
    }
}

/// `p` translated by `d`, coordinate-wise (wrapping only outside the bounds
/// the exec paths prove they stay within).
pub open spec fn translated(p: Vec3Milli, d: Vec3Milli) -> Vec3Milli {
    Vec3Milli {
        x: (p.x + d.x) as i64,
        y: (p.y + d.y) as i64,
        z: (p.z + d.z) as i64,
    }
}

/// `d` reversed, coordinate-wise.
pub open spec fn reversed(d: Vec3Milli) -> Vec3Milli {
    Vec3Milli { x: (-d.x) as i64, y: (-d.y) as i64, z: (-d.z) as i64 }
}

/// The transform after one movement command is applied under travel basis
/// `basis`: translations move the position by one (scaled) unit vector,
/// turns and tilts move the orientation by one step.
pub open spec fn step(cam: CameraTransform, cmd: CamCmd, basis: Basis) -> CameraTransform {
    match cmd {
        CamCmd::Ascend => CameraTransform {
            position: translated(cam.position, Vec3Milli { x: 0, y: 1000, z: 0 }),
            ..cam
        },
        CamCmd::Descend => CameraTransform {
            position: translated(cam.position, Vec3Milli { x: 0, y: (-1000) as i64, z: 0 }),
            ..cam
        },
        CamCmd::Forward => CameraTransform {
            position: translated(cam.position, basis.forward),
            ..cam
        },
        CamCmd::Back => CameraTransform {
            position: translated(cam.position, reversed(basis.forward)),
            ..cam
        },
        CamCmd::StrafeRight => CameraTransform {
            position: translated(cam.position, basis.right),
            ..cam
        },
        CamCmd::StrafeLeft => CameraTransform {
            position: translated(cam.position, reversed(basis.right)),
            ..cam
        },
        CamCmd::YawRight => CameraTransform { yaw_steps: (cam.yaw_steps + 1) as i64, ..cam },
        CamCmd::YawLeft => CameraTransform { yaw_steps: (cam.yaw_steps - 1) as i64, ..cam },
        CamCmd::PitchUp => CameraTransform { pitch_steps: (cam.pitch_steps + 1) as i64, ..cam },
        CamCmd::PitchDown => CameraTransform { pitch_steps: (cam.pitch_steps - 1) as i64, ..cam },
    }
}

/// The transform after a whole command sequence is applied in order.
pub open spec fn run(cam: CameraTransform, cmds: Seq<CamCmd>, basis: Basis) -> CameraTransform
    decreases cmds.len(),
{
    if cmds.len() == 0 {
        cam
    } else {
        step(run(cam, cmds.drop_last(), basis), cmds.last(), basis)
    }
}

impl CameraTransform {
    /// Every coordinate and angle is at least `margin` away from the `i64`
    /// limits, so that `margin / 1000` further commands cannot overflow.
    pub open spec fn within(self, margin: int) -> bool {
        &&& self.position.within(margin)
        &&& i64::MIN + margin <= self.yaw_steps <= i64::MAX - margin
        &&& i64::MIN + margin <= self.pitch_steps <= i64::MAX - margin
    }

    /// The camera as it starts: at the origin, no yaw or pitch steps taken.
    pub open spec fn initial() -> CameraTransform {
        CameraTransform {
            position: Vec3Milli { x: 0, y: 0, z: 0 },
            yaw_steps: 0,
            pitch_steps: 0,
        }
    }

    /// The starting camera.
    pub fn start() -> (r: CameraTransform)
        ensures
            r == CameraTransform::initial(),
    {
        CameraTransform {
            position: Vec3Milli { x: 0, y: 0, z: 0 },
            yaw_steps: 0,
            pitch_steps: 0,
        }
    }

    /// Applies one movement command under travel basis `basis`.
    pub fn apply_command(&mut self, cmd: CamCmd, basis: &Basis)
        requires
            basis.wf(),
            old(self).within(1000),
        ensures
            *final(self) == step(*old(self), cmd, *basis),
    {
        match cmd {
            CamCmd::Ascend => {
                self.position.y = self.position.y + 1000;
            },
            CamCmd::Descend => {
                self.position.y = self.position.y - 1000;
            },
            CamCmd::Forward => {
                self.position.x = self.position.x + basis.forward.x;
                self.position.y = self.position.y + basis.forward.y;
                self.position.z = self.position.z + basis.forward.z;
            },
            CamCmd::Back => {
                self.position.x = self.position.x - basis.forward.x;
                self.position.y = self.position.y - basis.forward.y;
                self.position.z = self.position.z - basis.forward.z;
            },
            CamCmd::StrafeRight => {
                self.position.x = self.position.x + basis.right.x;
                self.position.y = self.position.y + basis.right.y;
                self.position.z = self.position.z + basis.right.z;
            },
            CamCmd::StrafeLeft => {
                self.position.x = self.position.x - basis.right.x;
                self.position.y = self.position.y - basis.right.y;
                self.position.z = self.position.z - basis.right.z;
            },
            CamCmd::YawRight => {
                self.yaw_steps = self.yaw_steps + 1;
            },
            CamCmd::YawLeft => {
                self.yaw_steps = self.yaw_steps - 1;
            },
            CamCmd::PitchUp => {
                self.pitch_steps = self.pitch_steps + 1;
            },
            CamCmd::PitchDown => {
                self.pitch_steps = self.pitch_steps - 1;
            },
        }
    }
}

impl CameraTransform {
    /// Applies a whole frame's movement commands in order under travel basis
    /// `basis`.
    pub fn run_commands(&mut self, cmds: &Vec<CamCmd>, basis: &Basis)
        requires
            basis.wf(),
            old(self).within(1000 * cmds@.len() as int),
        ensures
            *final(self) == run(*old(self), cmds@, *basis),
    {
        let n = cmds.len();
        let mut i: usize = 0;
        while i < n
            invariant
                basis.wf(),
                i <= n == cmds@.len(),
                *self == run(*old(self), cmds@.take(i as int), *basis),
                self.within(1000 * (n - i) as int),
            decreases n - i,
        {
            proof {
                assert(cmds@.take(i as int + 1).drop_last() =~= cmds@.take(i as int));
                assert(cmds@.take(i as int + 1).last() == cmds@[i as int]);
            }
            self.apply_command(cmds[i], basis);
            i = i + 1;
        }
        proof {
            assert(cmds@.take(cmds@.len() as int) =~= cmds@);
        }
    }
}

/// At yaw zero — cosine one, sine zero — the travel basis is the positive
/// x axis forward and the positive z axis right. Pitch plays no part: the
/// basis is a function of yaw alone.
pub proof fn lemma_basis_at_yaw_zero()
    ensures
        basis_of(1000, 0) == (Basis {
            forward: Vec3Milli { x: 1000, y: 0, z: 0 },
            right: Vec3Milli { x: 0, y: 0, z: 1000 },
        }),
{
}

/// A resize is deterministic: whatever two projection states held before,
/// resizing both to the same size yields the same state, with the near plane
/// pinned to a tenth of a unit and the far plane to ten thousand units.
pub proof fn lemma_resize_deterministic(
    before: ProjectionState,
    other: ProjectionState,
    width: u32,
    height: u32,
)
    ensures
        resize_spec(before, width, height) == resize_spec(other, width, height),
        resize_spec(before, width, height).znear_milli == znear_reset(),
        resize_spec(before, width, height).zfar_milli == zfar_reset(),
        resize_spec(before, width, height).width == width,
        resize_spec(before, width, height).height == height,
{
}

} // verus!
