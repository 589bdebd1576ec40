//! The shader registry: two independently compiled shader slots, each pairing
//! editable source text with the most recently accepted compiled program.
//!
//! The compiler itself is an outside collaborator (the GPU backend); the
//! registry is handed its verdict on the slot's current source and applies the
//! central failure-containment rule: a rejected source never disturbs the
//! previously working program, while an accepted one replaces it atomically.

use vstd::prelude::*;

verus! {

/// Selects which of the two shader slots an operation addresses.
#[derive(Clone, Copy, PartialEq, Eq, Structural, Debug)]
pub enum Slot {
    /// The program used for the batched instance draw.
    Instance,
    /// The program used for the single unique mesh.
    Custom,
}

/// The slot that `which` does not name.
pub open spec fn other_slot(which: Slot) -> Slot {
    match which {
        Slot::Instance => Slot::Custom,
        Slot::Custom => Slot::Instance,
    }
}

/// A successfully compiled shader program. `id` stands for the opaque GPU
/// handle (fresh on every successful compile); `source` is the text the
/// program was built from, which fully determines its behaviour.
#[derive(Clone, PartialEq, Eq, Debug)]
pub struct CompiledProgram {
    pub id: u64,
    pub source: Vec<char>,
}

/// The outcome of one compile attempt, as reported by the outside compiler.
#[derive(Clone, PartialEq, Eq, Debug)]
pub enum CompileOutcome {
    Accepted,
    Rejected(Vec<char>),
}

/// The error surfaced to the user when a source is rejected.
#[derive(Clone, PartialEq, Eq, Debug)]
pub struct CompileError {
    pub reason: Vec<char>,
}

/// The compile state a slot reports to the user interface.
#[derive(Clone, PartialEq, Eq, Debug)]
pub enum CompileStatus {
    /// No compile has been attempted yet (only before the startup build).
    Pending,
    /// The last attempt succeeded; the slot's program holds its result.
    Compiled,
    /// The last attempt failed with this reason; the slot's program is untouched.
    Failed(Vec<char>),
}

/// One shader slot: editable source text, the last accepted program (if any
/// attempt has succeeded yet), and the status of the latest attempt.
#[derive(Clone, PartialEq, Eq, Debug)]
pub struct ShaderSlot {
    pub source: Vec<char>,
    pub program: Option<CompiledProgram>,
    pub status: CompileStatus,
}

/// The registry owning both shader slots, the toggle selecting which slot the
/// editor is addressing, and the counter that mints fresh program handles.
#[derive(Clone, PartialEq, Eq, Debug)]
pub struct ShaderRegistry {
    pub instance_slot: ShaderSlot,
    pub custom_slot: ShaderSlot,
    pub active: Slot,
    pub next_program_id: u64,
}

/// Mathematical model of a compiled program.
#[verifier::ext_equal]
pub ghost struct ProgramModel {
    pub id: u64,
    pub source: Seq<char>,
}

/// Mathematical model of a slot's compile state.
#[verifier::ext_equal]
pub ghost enum StatusModel {
    Pending,
    Compiled,
    Failed(Seq<char>),
}

/// Mathematical model of one shader slot.
#[verifier::ext_equal]
pub ghost struct SlotModel {
    pub source: Seq<char>,
    pub program: Option<ProgramModel>,
    pub status: StatusModel,
}

/// Mathematical model of the whole registry.
#[verifier::ext_equal]
pub ghost struct RegistryModel {
    pub instance_slot: SlotModel,
    pub custom_slot: SlotModel,
    pub active: Slot,
    pub next_program_id: u64,
}

/// Mathematical model of a compile attempt's outcome.
#[verifier::ext_equal]
pub ghost enum OutcomeModel {
    Accepted,
    Rejected(Seq<char>),
}

impl View for CompileOutcome {
    type V = OutcomeModel;

    open spec fn view(&self) -> OutcomeModel {
        match self {
            CompileOutcome::Accepted => OutcomeModel::Accepted,
            CompileOutcome::Rejected(reason) => OutcomeModel::Rejected(reason@),
        }
    }
}

impl View for CompiledProgram {
    type V = ProgramModel;

    open spec fn view(&self) -> ProgramModel {
        ProgramModel { id: self.id, source: self.source@ }
    }
}

impl View for CompileStatus {
    type V = StatusModel;

    open spec fn view(&self) -> StatusModel {
        match self {
            CompileStatus::Pending => StatusModel::Pending,
            CompileStatus::Compiled => StatusModel::Compiled,
            CompileStatus::Failed(reason) => StatusModel::Failed(reason@),
        }
    }
}

impl View for ShaderSlot {
    type V = SlotModel;

    open spec fn view(&self) -> SlotModel {
        SlotModel {
            source: self.source@,
            program: match self.program {
                Some(p) => Some(p@),
                None => None,
            },
            status: self.status@,
        }
    }
}

impl View for ShaderRegistry {
    type V = RegistryModel;

    open spec fn view(&self) -> RegistryModel {
        RegistryModel {
            instance_slot: self.instance_slot@,
            custom_slot: self.custom_slot@,
            active: self.active,
            next_program_id: self.next_program_id,
        }
    }
}

impl SlotModel {
    /// A compiled program is on hand whenever the latest attempt succeeded,
    /// and none before the first attempt.
    pub open spec fn wf(self) -> bool {
        &&& self.status is Compiled ==> self.program is Some
        &&& self.status is Pending ==> self.program is None
    }

    /// The handle of the program currently bound for drawing. Meaningful only
    /// once some compile has succeeded (`program is Some`).
    pub open spec fn bound_program_id(self) -> u64 {
        match self.program {
            Some(p) => p.id,
            None => 0,
        }
    }

    /// The source text the currently bound program was built from — the
    /// slot's observable rendering behaviour.
    pub open spec fn bound_behaviour(self) -> Seq<char> {
        match self.program {
            Some(p) => p.source,
            None => Seq::empty(),
        }
    }

    /// The slot holding `source`, before any compile attempt.
    pub open spec fn fresh(source: Seq<char>) -> SlotModel {
        SlotModel { source, program: None, status: StatusModel::Pending }
    }
}

impl RegistryModel {
    /// The slot `which` names.
    pub open spec fn slot_m(self, which: Slot) -> SlotModel {
        match which {
            Slot::Instance => self.instance_slot,
            Slot::Custom => self.custom_slot,
        }
    }

    /// `self` with the slot `which` names replaced by `slot`.
    pub open spec fn with_slot_m(self, which: Slot, slot: SlotModel) -> RegistryModel {
        match which {
            Slot::Instance => RegistryModel { instance_slot: slot, ..self },
            Slot::Custom => RegistryModel { custom_slot: slot, ..self },
        }
    }

    pub open spec fn wf(self) -> bool {
        self.instance_slot.wf() && self.custom_slot.wf()
    }

    /// The registry as built at startup: both default sources loaded, nothing
    /// compiled yet, the instance slot selected for editing.
    pub open spec fn initial(instance_source: Seq<char>, custom_source: Seq<char>) -> RegistryModel {
        RegistryModel {
            instance_slot: SlotModel::fresh(instance_source),
            custom_slot: SlotModel::fresh(custom_source),
            active: Slot::Instance,
            next_program_id: 0,
        }
    }

    /// The registry after the active-edit toggle is clicked.
    pub open spec fn toggle_m(self) -> RegistryModel {
        RegistryModel { active: other_slot(self.active), ..self }
    }

    /// The registry after one character is typed into the active slot's
    /// source text.
    pub open spec fn edit_m(self, c: char) -> RegistryModel {
        let slot = self.slot_m(self.active);
        self.with_slot_m(self.active, SlotModel { source: slot.source.push(c), ..slot })
    }

    /// The registry after the compiler accepts the current source of the slot
    /// `which` names: a fresh program built from that source is bound, the
    /// status returns to `Compiled`, and nothing else moves.
    pub open spec fn recompile_ok_m(self, which: Slot) -> RegistryModel {
        let slot = self.slot_m(which);
        let compiled = SlotModel {
            program: Some(ProgramModel { id: self.next_program_id, source: slot.source }),
            status: StatusModel::Compiled,
            ..slot
        };
        RegistryModel {
            next_program_id: (self.next_program_id + 1) as u64,
            ..self.with_slot_m(which, compiled)
        }
    }

    /// The registry after the compiler rejects the current source of the slot
    /// `which` names: only that slot's status moves; the bound program — and
    /// everything else — survives untouched.
    pub open spec fn recompile_failed_m(self, which: Slot, reason: Seq<char>) -> RegistryModel {
        let slot = self.slot_m(which);
        self.with_slot_m(which, SlotModel { status: StatusModel::Failed(reason), ..slot })
    }

    /// The registry after a compile attempt on the slot `which` names, for
    /// either verdict.
    pub open spec fn recompile_m(self, which: Slot, outcome: OutcomeModel) -> RegistryModel {
        match outcome {
            OutcomeModel::Accepted => self.recompile_ok_m(which),
            OutcomeModel::Rejected(reason) => self.recompile_failed_m(which, reason),
        }
    }
}

impl ShaderRegistry {
    /// Creates the registry with the two bundled default sources, nothing
    /// compiled yet, and the instance slot selected for editing.
    pub fn new(instance_source: Vec<char>, custom_source: Vec<char>) -> (r: ShaderRegistry)
        ensures
            r@ == RegistryModel::initial(instance_source@, custom_source@),
    {
        ShaderRegistry {
            instance_slot: ShaderSlot {
                source: instance_source,
                program: None,
                status: CompileStatus::Pending,
            },
            custom_slot: ShaderSlot {
                source: custom_source,
                program: None,
                status: CompileStatus::Pending,
            },
            active: Slot::Instance,
            next_program_id: 0,
        }
    }

    /// Flips which slot the editor is addressing. Both slots, including their
    /// unsaved source text, are untouched.
    pub fn toggle_active(&mut self)
        ensures
            final(self)@ == old(self)@.toggle_m(),
    {
        self.active = match self.active {
            Slot::Instance => Slot::Custom,
            Slot::Custom => Slot::Instance,
        };
        proof {
            assert(self@ =~~= old(self)@.toggle_m());
        }
    }

    /// A borrow of the source text the editor is currently addressing.
    pub fn active_source(&self) -> (r: &Vec<char>)
        ensures
            r@ == self@.slot_m(self@.active).source,
    {
        match self.active {
            Slot::Instance => &self.instance_slot.source,
            Slot::Custom => &self.custom_slot.source,
        }
    }

    /// Appends one typed character to the active slot's source text.
    pub fn push_active_char(&mut self, c: char)
        ensures
            final(self)@ == old(self)@.edit_m(c),
    {
        match self.active {
            Slot::Instance => self.instance_slot.source.push(c),
            Slot::Custom => self.custom_slot.source.push(c),
        }
        proof {
            assert(self@ =~~= old(self)@.edit_m(c));
        }
    }

    /// Applies the outside compiler's verdict on the current source of the
    /// slot `which` names. On acceptance the slot binds a fresh program built
    /// from that source and reports `Compiled`; on rejection the previously
    /// bound program is left untouched and the slot reports `Failed` with the
    /// compiler's reason. The other slot and the toggle never move.
    pub fn recompile(&mut self, which: Slot, outcome: CompileOutcome) -> (r: Result<
        u64,
        CompileError,
    >)
        requires
            old(self).next_program_id < u64::MAX,
        ensures
            outcome is Accepted ==> {
                &&& final(self)@ == old(self)@.recompile_ok_m(which)
                &&& r == Ok::<u64, CompileError>(old(self).next_program_id)
            },
            outcome matches CompileOutcome::Rejected(reason) ==> {
                &&& final(self)@ == old(self)@.recompile_failed_m(which, reason@)
                &&& r matches Err(e) && e.reason@ == reason@
            },
    {
        match outcome {
            CompileOutcome::Accepted => {
                let id = self.next_program_id;
                self.next_program_id = id + 1;
                match which {
                    Slot::Instance => {
                        let built = CompiledProgram {
                            id,
                            source: clone_chars(&self.instance_slot.source),
                        };
                        self.instance_slot.program = Some(built);
                        self.instance_slot.status = CompileStatus::Compiled;
                    },
                    Slot::Custom => {
                        let built = CompiledProgram {
                            id,
                            source: clone_chars(&self.custom_slot.source),
                        };
                        self.custom_slot.program = Some(built);
                        self.custom_slot.status = CompileStatus::Compiled;
                    },
                }
                proof {
                    assert(self@ =~~= old(self)@.recompile_ok_m(which));
                }
                Ok(id)
            },
            CompileOutcome::Rejected(reason) => {
                let surfaced = clone_chars(&reason);
                match which {
                    Slot::Instance => {
                        self.instance_slot.status = CompileStatus::Failed(surfaced);
                    },
                    Slot::Custom => {
                        self.custom_slot.status = CompileStatus::Failed(surfaced);
                    },
                }
                proof {
                    assert(self@ =~~= old(self)@.recompile_failed_m(which, reason@));
                }
                Err(CompileError { reason })
            },
        }
    }
}

/// The registry's well-formedness — a program bound whenever the status says
/// `Compiled`, none before the first attempt — holds at startup and is
/// preserved by every transition: toggling, editing, and both compile
/// verdicts.
pub proof fn lemma_transitions_preserve_wf(
    r: RegistryModel,
    source_a: Seq<char>,
    source_b: Seq<char>,
    which: Slot,
    outcome: OutcomeModel,
    c: char,
)
    requires
        r.wf(),
    ensures
        RegistryModel::initial(source_a, source_b).wf(),
        r.toggle_m().wf(),
        r.edit_m(c).wf(),
        r.recompile_m(which, outcome).wf(),
{
}

/// Recompiling a slot whose bound program was built from the slot's current
/// source is idempotent: the freshly bound program is built from the very same
/// text, so the slot's rendering behaviour is unchanged (only the opaque
/// handle is new), and the slot's status is `Compiled` as before.
pub proof fn lemma_recompile_idempotent(r: RegistryModel, which: Slot)
    requires
        r.slot_m(which).program matches Some(p) && p.source == r.slot_m(which).source,
    ensures
        r.recompile_ok_m(which).slot_m(which).bound_behaviour() == r.slot_m(
            which,
        ).bound_behaviour(),
        r.recompile_ok_m(which).slot_m(which).source == r.slot_m(which).source,
        r.recompile_ok_m(which).slot_m(which).status is Compiled,
        r.recompile_ok_m(which).slot_m(other_slot(which)) == r.slot_m(other_slot(which)),
{
}

/// A failed compile never disturbs the previously working state: the slot's
/// bound program (handle and behaviour), its source text, the other slot, the
/// toggle and the handle counter all survive; only the status records the
/// failure, carrying the compiler's reason.
pub proof fn lemma_failed_compile_preserves_program(r: RegistryModel, which: Slot, reason: Seq<char>)
    ensures
        r.recompile_failed_m(which, reason).slot_m(which).program == r.slot_m(which).program,
        r.recompile_failed_m(which, reason).slot_m(which).source == r.slot_m(which).source,
        r.recompile_failed_m(which, reason).slot_m(which).status == StatusModel::Failed(reason),
        r.recompile_failed_m(which, reason).slot_m(other_slot(which)) == r.slot_m(
            other_slot(which),
        ),
        r.recompile_failed_m(which, reason).active == r.active,
        r.recompile_failed_m(which, reason).next_program_id == r.next_program_id,
{
}

/// A single toggle moves nothing but the selection, and toggling the
/// active-edit slot away and back restores the registry exactly: both slots'
/// unsaved source text — and everything else — is preserved byte for byte.
pub proof fn lemma_toggle_roundtrip(r: RegistryModel)
    ensures
        r.toggle_m().instance_slot == r.instance_slot,
        r.toggle_m().custom_slot == r.custom_slot,
        r.toggle_m().toggle_m() == r,
{
    assert(r.toggle_m().toggle_m() =~~= r);
}

/// Copies a character buffer.
fn clone_chars(v: &Vec<char>) -> (r: Vec<char>)
    ensures
        r@ == v@,
{
    let mut out: Vec<char> = Vec::new();
    let mut i: usize = 0;
    while i < v.len()
        invariant
            i <= v.len(),
            out@ == v@.take(i as int),
        decreases v.len() - i,
    {
        out.push(v[i]);
        proof {
            assert(out@ =~= v@.take(i + 1 as int));
        }
        i = i + 1;
    }
    proof {
        assert(out@ =~= v@);
    }
    out
}

} // verus!
