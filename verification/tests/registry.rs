use shaderlab::shader::{
    CompileOutcome, CompileStatus, ShaderRegistry, Slot,
};

fn chars(s: &str) -> Vec<char> {
    s.chars().collect()
}

#[test]
fn new_registry_holds_defaults_uncompiled() {
    let reg = ShaderRegistry::new(chars("instance shader"), chars("custom shader"));
    assert_eq!(reg.instance_slot.source, chars("instance shader"));
    assert_eq!(reg.custom_slot.source, chars("custom shader"));
    assert!(reg.instance_slot.program.is_none());
    assert!(reg.custom_slot.program.is_none());
    assert_eq!(reg.instance_slot.status, CompileStatus::Pending);
    assert_eq!(reg.custom_slot.status, CompileStatus::Pending);
    assert_eq!(reg.active, Slot::Instance);
}

#[test]
fn accepted_compile_binds_fresh_program() {
    let mut reg = ShaderRegistry::new(chars("instance shader"), chars("custom shader"));
    let result = reg.recompile(Slot::Instance, CompileOutcome::Accepted);
    assert_eq!(result, Ok(0));
    let program = reg.instance_slot.program.as_ref().expect("program bound");
    assert_eq!(program.id, 0);
    assert_eq!(program.source, chars("instance shader"));
    assert_eq!(reg.instance_slot.status, CompileStatus::Compiled);
    assert!(reg.custom_slot.program.is_none());
}

#[test]
fn rejected_compile_preserves_bound_program() {
    let mut reg = ShaderRegistry::new(chars("instance shader"), chars("custom shader"));
    reg.recompile(Slot::Custom, CompileOutcome::Accepted).unwrap();
    let before = reg.custom_slot.program.clone().expect("program bound");

    // Break the source, then have the compiler reject it.
    reg.toggle_active();
    reg.push_active_char('!');
    let result = reg.recompile(Slot::Custom, CompileOutcome::Rejected(chars("parse error")));

    let err = result.expect_err("rejected compile surfaces an error");
    assert_eq!(err.reason, chars("parse error"));
    let after = reg.custom_slot.program.clone().expect("program survives");
    assert_eq!(after.id, before.id);
    assert_eq!(after.source, before.source);
    assert_eq!(reg.custom_slot.status, CompileStatus::Failed(chars("parse error")));
}

#[test]
fn recompiling_current_source_is_idempotent() {
    let mut reg = ShaderRegistry::new(chars("instance shader"), chars("custom shader"));
    reg.recompile(Slot::Instance, CompileOutcome::Accepted).unwrap();
    let before = reg.instance_slot.program.clone().expect("program bound");

    // The source has not been edited since it was last accepted.
    assert_eq!(reg.instance_slot.source, before.source);
    reg.recompile(Slot::Instance, CompileOutcome::Accepted).unwrap();

    let after = reg.instance_slot.program.clone().expect("program bound");
    assert_eq!(after.source, before.source);
    assert_eq!(reg.instance_slot.status, CompileStatus::Compiled);
}

#[test]
fn toggling_slots_preserves_unsaved_text() {
    let mut reg = ShaderRegistry::new(chars("inst"), chars("cust"));
    reg.push_active_char('A');
    reg.toggle_active();
    assert_eq!(reg.active, Slot::Custom);
    reg.push_active_char('B');
    reg.toggle_active();
    assert_eq!(reg.active, Slot::Instance);
    assert_eq!(reg.instance_slot.source, chars("instA"));
    assert_eq!(reg.custom_slot.source, chars("custB"));
}

#[test]
fn typed_characters_reach_only_the_active_slot() {
    let mut reg = ShaderRegistry::new(chars(""), chars(""));
    reg.push_active_char('x');
    reg.push_active_char('y');
    assert_eq!(reg.instance_slot.source, chars("xy"));
    assert_eq!(reg.custom_slot.source, chars(""));
    assert_eq!(*reg.active_source(), chars("xy"));
}

#[test]
fn accepted_compiles_mint_fresh_handles() {
    let mut reg = ShaderRegistry::new(chars("a"), chars("b"));
    assert_eq!(reg.recompile(Slot::Instance, CompileOutcome::Accepted), Ok(0));
    assert_eq!(reg.recompile(Slot::Custom, CompileOutcome::Accepted), Ok(1));
    assert_eq!(reg.recompile(Slot::Instance, CompileOutcome::Accepted), Ok(2));
    assert_eq!(reg.instance_slot.program.as_ref().unwrap().id, 2);
    assert_eq!(reg.custom_slot.program.as_ref().unwrap().id, 1);
}
