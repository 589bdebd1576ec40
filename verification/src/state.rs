//! The process-wide state and the per-frame update protocol: the GUI panel's
//! events arrive first (focus, toggle, compile verdict), then — unless the
//! editor holds focus — the held keys drive the camera, one command each.
//!
//! Single-writer discipline: only the editing path writes source text, only
//! the recompile operation writes compiled programs, only the resize event
//! writes the projection. Every transition here is total — no error escapes
//! the frame cycle.

use vstd::prelude::*;

use crate::camera::{run, Basis, CameraTransform, ProjectionState, resized, resize_spec};
use crate::input::{arbitrate, arbitrated, HeldKeys};
use crate::shader::{
    CompileError, CompileOutcome, OutcomeModel, RegistryModel, ShaderRegistry,
};

verus! {

/// Everything the harness owns: the shader registry, the camera transform,
/// the projection, and whether the editor holds keyboard focus.
#[derive(Clone, PartialEq, Eq, Debug)]
pub struct AppState {
    pub registry: ShaderRegistry,
    pub camera: CameraTransform,
    pub projection: ProjectionState,
    pub edit_mode: bool,
}

/// What the GUI panel reports for one frame: whether the editor has focus,
/// whether the slot toggle was clicked, and — if the compile button was
/// clicked — the outside compiler's verdict on the active slot's source.
#[derive(Clone, PartialEq, Eq, Debug)]
pub struct FrameEvents {
    pub editing: bool,
    pub toggle_clicked: bool,
    pub compile_request: Option<CompileOutcome>,
}

/// Mathematical model of the whole state.
#[verifier::ext_equal]
pub ghost struct AppModel {
    pub registry: RegistryModel,
    pub camera: CameraTransform,
    pub projection: ProjectionState,
    pub edit_mode: bool,
}

/// Mathematical model of one frame's GUI events.
#[verifier::ext_equal]
pub ghost struct EventsModel {
    pub editing: bool,
    pub toggle_clicked: bool,
    pub compile_request: Option<OutcomeModel>,
}

impl View for AppState {
    type V = AppModel;

    open spec fn view(&self) -> AppModel {
        AppModel {
            registry: self.registry@,
            camera: self.camera,
            projection: self.projection,
            edit_mode: self.edit_mode,
        }
    }
}

impl View for FrameEvents {
    type V = EventsModel;

    open spec fn view(&self) -> EventsModel {
        EventsModel {
            editing: self.editing,
            toggle_clicked: self.toggle_clicked,
            compile_request: match self.compile_request {
                Some(outcome) => Some(outcome@),
                None => None,
            },
        }
    }
}

impl AppModel {
    /// The state as built at startup: default sources loaded, nothing
    /// compiled, the camera at its start, an 800 by 600 viewport, and the
    /// editor without focus.
    pub open spec fn initial(instance_source: Seq<char>, custom_source: Seq<char>) -> AppModel {
        AppModel {
            registry: RegistryModel::initial(instance_source, custom_source),
            camera: CameraTransform::initial(),
            projection: resized(800, 600),
            edit_mode: false,
        }
    }

    /// The state after the GUI panel's events are applied, in the order the
    /// panel reports them: focus first, then the slot toggle, then — on the
    /// newly selected slot — the compile verdict.
    pub open spec fn events_m(self, ev: EventsModel) -> AppModel {
        let focused = AppModel { edit_mode: ev.editing, ..self };
        let toggled = if ev.toggle_clicked {
            AppModel { registry: focused.registry.toggle_m(), ..focused }
        } else {
            focused
        };
        match ev.compile_request {
            Some(outcome) => AppModel {
                registry: toggled.registry.recompile_m(toggled.registry.active, outcome),
                ..toggled
            },
            None => toggled,
        }
    }

    /// The state after one whole frame update: the GUI events, then the
    /// arbitrated movement commands — all of them suppressed while the editor
    /// holds focus — run over the camera under travel basis `basis`.
    pub open spec fn frame_m(self, ev: EventsModel, keys: HeldKeys, basis: Basis) -> AppModel {
        let after_events = self.events_m(ev);
        AppModel {
            camera: run(after_events.camera, arbitrated(ev.editing, keys), basis),
            ..after_events
        }
    }

    /// The state after one typed character: routed to the active slot's
    /// source text while the editor holds focus, discarded otherwise.
    pub open spec fn route_text_m(self, c: char) -> AppModel {
        if self.edit_mode {
            AppModel { registry: self.registry.edit_m(c), ..self }
        } else {
            self
        }
    }
}

impl AppState {
    /// Builds the startup state from the two bundled default shader sources.
    pub fn new(instance_source: Vec<char>, custom_source: Vec<char>) -> (r: AppState)
        ensures
            r@ == AppModel::initial(instance_source@, custom_source@),
    {
        let state = AppState {
            registry: ShaderRegistry::new(instance_source, custom_source),
            camera: CameraTransform::start(),
            projection: ProjectionState { width: 800, height: 600, znear_milli: 100, zfar_milli: 10_000_000 },
            edit_mode: false,
        };
        proof {
            assert(state@ =~~= AppModel::initial(state.registry.instance_slot.source@, state.registry.custom_slot.source@));
        }
        state
    }

    /// Applies one whole frame's update: the GUI events first (focus, toggle,
    /// compile verdict on the newly active slot), then the held keys — each
    /// suppressed entirely while the editor holds focus — drive the camera,
    /// one discrete command per held key, under travel basis `basis`.
    ///
    /// Returns the surfaced compile result: `None` when no compile was
    /// requested, otherwise the fresh program handle or the error carrying
    /// the compiler's reason.
    pub fn frame_update(&mut self, ev: FrameEvents, keys: HeldKeys, basis: Basis) -> (r: Option<
        Result<u64, CompileError>,
    >)
        requires
            basis.wf(),
            old(self).camera.within(10000),
            old(self).registry.next_program_id < u64::MAX,
        ensures
            final(self)@ == old(self)@.frame_m(ev@, keys, basis),
            ev.compile_request is None ==> r is None,
            ev.compile_request matches Some(CompileOutcome::Accepted) ==> r == Some(
                Ok::<u64, CompileError>(old(self).registry.next_program_id),
            ),
            ev.compile_request matches Some(CompileOutcome::Rejected(reason)) ==> (r matches Some(
                inner,
            ) && inner matches Err(e) && e.reason@ == reason@),
    {
        let ghost ev_model = ev@;
        self.edit_mode = ev.editing;
        if ev.toggle_clicked {
            self.registry.toggle_active();
        }
        let compile_result: Option<Result<u64, CompileError>> = match ev.compile_request {
            Some(outcome) => {
                let target = self.registry.active;
                Some(self.registry.recompile(target, outcome))
            },
            None => None,
        };
        proof {
            assert(self@ =~~= old(self)@.events_m(ev_model));
        }
        let cmds = arbitrate(ev.editing, &keys);
        self.camera.run_commands(&cmds, &basis);
        proof {
            assert(self@ =~~= old(self)@.frame_m(ev_model, keys, basis));
        }
        compile_result
    }

    /// Routes one typed character: appended to the active slot's source text
    /// while the editor holds focus, discarded otherwise (the key is then the
    /// camera's to consume, via the held-key path).
    pub fn route_text(&mut self, c: char)
        ensures
            final(self)@ == old(self)@.route_text_m(c),
    {
        if self.edit_mode {
            self.registry.push_active_char(c);
            proof {
                assert(self@ =~~= old(self)@.route_text_m(c));
            }
        }
    }

    /// Applies a window resize: the projection takes the new viewport size
    /// and both clip planes are reset to their fixed values, whatever held
    /// before; nothing else moves.
    pub fn resize_event(&mut self, width: u32, height: u32)
        ensures
            final(self)@ == (AppModel {
                projection: resize_spec(old(self).projection, width, height),
                ..old(self)@
            }),
    {
        self.projection.resize(width, height);
    }

    /// True once both slots hold a successfully compiled program — the state
    /// the startup build leaves behind, and what drawing a frame needs.
    pub fn both_compiled(&self) -> (r: bool)
        ensures
            r == (self@.registry.instance_slot.program is Some
                && self@.registry.custom_slot.program is Some),
    {
        self.registry.instance_slot.program.is_some()
            && self.registry.custom_slot.program.is_some()
    }
}

} // verus!
