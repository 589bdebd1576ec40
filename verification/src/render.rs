//! The render composer: turns the current registry state into the one fixed,
//! ordered command plan for a frame — the 3D scene first (custom-shaded mesh,
//! then the instanced batch), flushed, and only then the 2D overlay.
//!
//! The driver executes the plan against the GPU. Whatever a slot's compile
//! status says, the plan binds the slot's last successfully compiled program:
//! a failed edit never skips a draw.

use vstd::prelude::*;

use crate::geom::{clear_grey, white, ColorMilli};
use crate::instances::batch_size;
use crate::shader::{RegistryModel, ShaderRegistry, Slot};

verus! {

/// Which of the two built-in meshes a draw uses.
#[derive(Clone, Copy, PartialEq, Eq, Structural, Debug)]
pub enum MeshId {
    /// The single uniquely-shaded mesh.
    Cube,
    /// The mesh every batch instance shares.
    Pyramid,
}

/// One drawing command of the per-frame plan, in the order the driver must
/// issue them.
#[derive(Clone, Copy, PartialEq, Eq, Structural, Debug)]
pub enum RenderCmd {
    /// Open the 3D context under the camera's view/projection, cleared to
    /// this background colour.
    Begin3d { clear: ColorMilli },
    /// Bind the named slot's program (by its handle) for subsequent draws.
    BindShader { slot: Slot, program: u64 },
    /// Draw the named mesh once with default parameters.
    DrawMesh { mesh: MeshId },
    /// Regenerate the instance batch (`count` records) and issue its one
    /// batched draw with the batch-wide modifier applied.
    DrawInstances { mesh: MeshId, count: u64, scale_milli: i64, color: ColorMilli },
    /// Flush the 3D context. No overlay content may be issued before this.
    Finish3d,
    /// Open the 2D overlay context.
    Begin2d,
    /// Draw the fixed status line.
    DrawStatusText,
    /// Draw the GUI panel's rendered output.
    DrawGui,
    /// Flush the 2D overlay context; the frame is complete.
    Finish2d,
}

/// True of commands that issue or affect 3D scene content.
pub open spec fn is_scene_cmd(cmd: RenderCmd) -> bool {
    match cmd {
        RenderCmd::Begin3d { .. } => true,
        RenderCmd::BindShader { .. } => true,
        RenderCmd::DrawMesh { .. } => true,
        RenderCmd::DrawInstances { .. } => true,
        RenderCmd::Finish3d => true,
        _ => false,
    }
}

/// True of commands that issue 2D overlay content.
pub open spec fn is_overlay_cmd(cmd: RenderCmd) -> bool {
    match cmd {
        RenderCmd::Begin2d => true,
        RenderCmd::DrawStatusText => true,
        RenderCmd::DrawGui => true,
        RenderCmd::Finish2d => true,
        _ => false,
    }
}

/// The compositing invariant: every overlay command comes after a flush of
/// the 3D context, and no scene command follows any overlay command.
pub open spec fn overlay_after_flush(cmds: Seq<RenderCmd>) -> bool {
    &&& forall|i: int|
        0 <= i < cmds.len() && is_overlay_cmd(#[trigger] cmds[i]) ==> exists|f: int|
            0 <= f < i && cmds[f] == RenderCmd::Finish3d
    &&& forall|i: int, j: int|
        0 <= i < j < cmds.len() && is_overlay_cmd(#[trigger] cmds[i]) ==> !is_scene_cmd(
            #[trigger] cmds[j],
        )
}

/// The plan for one frame, given the handles of the two bound programs: clear
/// and open the 3D context, draw the unique mesh under the custom program,
/// swap to the instance program (no flush needed for a shader swap), draw the
/// regenerated batch with the batch-wide modifier, flush, then the overlay —
/// status line and GUI panel — and finish.
pub open spec fn frame_plan(instance_program: u64, custom_program: u64) -> Seq<RenderCmd> {
    seq![
        RenderCmd::Begin3d { clear: clear_grey() },
        RenderCmd::BindShader { slot: Slot::Custom, program: custom_program },
        RenderCmd::DrawMesh { mesh: MeshId::Cube },
        RenderCmd::BindShader { slot: Slot::Instance, program: instance_program },
        RenderCmd::DrawInstances {
            mesh: MeshId::Pyramid,
            count: batch_size(),
            scale_milli: 2000,
            color: white(),
        },
        RenderCmd::Finish3d,
        RenderCmd::Begin2d,
        RenderCmd::DrawStatusText,
        RenderCmd::DrawGui,
        RenderCmd::Finish2d,
    ]
}

/// The frame plan a registry in state `r` yields: the fixed plan over the two
/// currently bound program handles.
pub open spec fn plan_of(r: RegistryModel) -> Seq<RenderCmd> {
    frame_plan(r.instance_slot.bound_program_id(), r.custom_slot.bound_program_id())
}

/// Composes the frame plan from the registry's current state. Each pass binds
/// the slot's last successfully compiled program, whatever the slot's compile
/// status — a `Failed` status never skips a draw or changes the plan's shape.
pub fn compose_frame(registry: &ShaderRegistry) -> (r: Vec<RenderCmd>)
    requires
        registry@.instance_slot.program is Some,
        registry@.custom_slot.program is Some,
    ensures
        r@ == plan_of(registry@),
{
    let instance_program: u64 = match &registry.instance_slot.program {
        Some(p) => p.id,
        None => 0,
    };
    let custom_program: u64 = match &registry.custom_slot.program {
        Some(p) => p.id,
        None => 0,
    };
    let mut cmds: Vec<RenderCmd> = Vec::new();
    cmds.push(RenderCmd::Begin3d { clear: ColorMilli { r: 250, g: 250, b: 250, a: 1000 } });
    cmds.push(RenderCmd::BindShader { slot: Slot::Custom, program: custom_program });
    cmds.push(RenderCmd::DrawMesh { mesh: MeshId::Cube });
    cmds.push(RenderCmd::BindShader { slot: Slot::Instance, program: instance_program });
    cmds.push(
        RenderCmd::DrawInstances {
            mesh: MeshId::Pyramid,
            count: 100,
            scale_milli: 2000,
            color: ColorMilli { r: 1000, g: 1000, b: 1000, a: 1000 },
        },
    );
    cmds.push(RenderCmd::Finish3d);
    cmds.push(RenderCmd::Begin2d);
    cmds.push(RenderCmd::DrawStatusText);
    cmds.push(RenderCmd::DrawGui);
    cmds.push(RenderCmd::Finish2d);
    proof {
        assert(cmds@ =~= frame_plan(
            registry@.instance_slot.bound_program_id(),
            registry@.custom_slot.bound_program_id(),
        ));
    }
    cmds
}

/// What is drawn never changes until a compile is accepted: a failed compile
/// attempt, a click of the slot toggle, and typing into an editor buffer all
/// leave the frame plan exactly as it was — both passes keep drawing with the
/// last successfully compiled programs.
pub proof fn lemma_plan_moves_only_on_accepted_compile(
    r: RegistryModel,
    which: Slot,
    reason: Seq<char>,
    c: char,
)
    ensures
        plan_of(r.recompile_failed_m(which, reason)) == plan_of(r),
        plan_of(r.toggle_m()) == plan_of(r),
        plan_of(r.edit_m(c)) == plan_of(r),
{
}

/// Every frame plan obeys the compositing invariant: the 3D context is
/// flushed before any overlay content, and no scene content follows the
/// overlay.
pub proof fn lemma_frame_plan_flushed(instance_program: u64, custom_program: u64)
    ensures
        overlay_after_flush(frame_plan(instance_program, custom_program)),
{
    let cmds = frame_plan(instance_program, custom_program);
    assert(cmds[5] == RenderCmd::Finish3d);
    assert forall|i: int| 0 <= i < cmds.len() && is_overlay_cmd(#[trigger] cmds[i]) implies exists|
        f: int,
    | 0 <= f < i && cmds[f] == RenderCmd::Finish3d by {
        assert(i >= 6);
        assert(0 <= 5 < i && cmds[5] == RenderCmd::Finish3d);
    }
}

} // verus!
