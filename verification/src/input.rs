//! The input-mode arbiter: decides, per frame, whether the held-key state
//! drives the camera or is suppressed because the text editor holds focus,
//! so a single physical key never both types and flies.

use vstd::prelude::*;

use crate::camera::CamCmd;

verus! {

/// The held-key state the windowing backend reports for one frame, one flag
/// per movement key, named for the command the key drives.
#[derive(Clone, Copy, PartialEq, Eq, Structural, Debug)]
pub struct HeldKeys {
    pub ascend: bool,
    pub descend: bool,
    pub forward: bool,
    pub back: bool,
    pub strafe_right: bool,
    pub strafe_left: bool,
    pub yaw_right: bool,
    pub yaw_left: bool,
    pub pitch_up: bool,
    pub pitch_down: bool,
}

/// `cmds` with `cmd` appended when `held`, else `cmds` unchanged.
pub open spec fn appended_if(cmds: Seq<CamCmd>, held: bool, cmd: CamCmd) -> Seq<CamCmd> {
    if held {
        cmds.push(cmd)
    } else {
        cmds
    }
}

/// The movement commands one frame of held keys yields: one command per held
/// key, in the fixed order the update loop polls the keys — ascend, descend,
/// forward, back, strafe right, strafe left, yaw right, yaw left, pitch up,
/// pitch down.
pub open spec fn commands_of(keys: HeldKeys) -> Seq<CamCmd> {
    let cmds = Seq::<CamCmd>::empty();
    let cmds = appended_if(cmds, keys.ascend, CamCmd::Ascend);
    let cmds = appended_if(cmds, keys.descend, CamCmd::Descend);
    let cmds = appended_if(cmds, keys.forward, CamCmd::Forward);
    let cmds = appended_if(cmds, keys.back, CamCmd::Back);
    let cmds = appended_if(cmds, keys.strafe_right, CamCmd::StrafeRight);
    let cmds = appended_if(cmds, keys.strafe_left, CamCmd::StrafeLeft);
    let cmds = appended_if(cmds, keys.yaw_right, CamCmd::YawRight);
    let cmds = appended_if(cmds, keys.yaw_left, CamCmd::YawLeft);
    let cmds = appended_if(cmds, keys.pitch_up, CamCmd::PitchUp);
    appended_if(cmds, keys.pitch_down, CamCmd::PitchDown)
}

/// The commands the camera receives this frame: none at all while the editor
/// holds focus, else exactly the held keys' commands.
pub open spec fn arbitrated(editing: bool, keys: HeldKeys) -> Seq<CamCmd> {
    if editing {
        Seq::empty()
    } else {
        commands_of(keys)
    }
}

/// Arbitrates this frame's key state: while the editor holds focus every
/// movement key is suppressed; otherwise each held key contributes its one
/// command, in the fixed polling order.
pub fn arbitrate(editing: bool, keys: &HeldKeys) -> (r: Vec<CamCmd>)
    ensures
        r@ == arbitrated(editing, *keys),
        r@.len() <= 10,
{
    let mut cmds: Vec<CamCmd> = Vec::new();
    if editing {
        proof {
            assert(cmds@ =~= arbitrated(editing, *keys));
        }
        return cmds;
    }
    if keys.ascend {
        cmds.push(CamCmd::Ascend);
    }
    if keys.descend {
        cmds.push(CamCmd::Descend);
    }
    if keys.forward {
        cmds.push(CamCmd::Forward);
    }
    if keys.back {
        cmds.push(CamCmd::Back);
    }
    if keys.strafe_right {
        cmds.push(CamCmd::StrafeRight);
    }
    if keys.strafe_left {
        cmds.push(CamCmd::StrafeLeft);
    }
    if keys.yaw_right {
        cmds.push(CamCmd::YawRight);
    }
    if keys.yaw_left {
        cmds.push(CamCmd::YawLeft);
    }
    if keys.pitch_up {
        cmds.push(CamCmd::PitchUp);
    }
    if keys.pitch_down {
        cmds.push(CamCmd::PitchDown);
    }
    proof {
        assert(cmds@ =~= arbitrated(editing, *keys));
    }
    cmds
}

} // verus!
