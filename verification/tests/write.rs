use kscale::{module_stub, BindingError, WriteAction, WritePhase, WritePlan};

fn run(outcomes: &[bool]) -> (WritePlan, Vec<WriteAction>) {
    let mut plan = WritePlan::new(&module_stub(), "out/rust.pyi");
    let mut actions = Vec::new();
    for succeeded in outcomes {
        actions.push(plan.action());
        plan.advance(*succeeded);
    }
    (plan, actions)
}

#[test]
fn new_plan_stages_the_text_beside_the_destination() {
    let plan = WritePlan::new(&module_stub(), "out/rust.pyi");
    assert_eq!(plan.destination(), "out/rust.pyi");
    assert_eq!(plan.staging(), "out/rust.pyi.tmp");
    assert_eq!(plan.text(), "def hello_world() -> None: ...\n\n");
    assert_eq!(plan.phase(), WritePhase::Staging);
    assert_eq!(plan.action(), WriteAction::Stage);
    assert_eq!(plan.outcome(), None);
}

#[test]
fn write_succeeds_when_stage_and_commit_succeed() {
    let (plan, actions) = run(&[true, true]);
    assert_eq!(actions, vec![WriteAction::Stage, WriteAction::Commit]);
    assert_eq!(plan.phase(), WritePhase::Written);
    assert_eq!(plan.action(), WriteAction::Stop);
    assert_eq!(plan.outcome(), Some(Ok(())));
}

#[test]
fn failed_staging_is_discarded_and_never_committed() {
    let (plan, actions) = run(&[false, true, true]);
    assert_eq!(actions, vec![WriteAction::Stage, WriteAction::Discard, WriteAction::Stop]);
    assert_eq!(plan.phase(), WritePhase::Failed);
    assert_eq!(
        plan.outcome(),
        Some(Err(BindingError::WriteFailure { path: "out/rust.pyi".to_string() }))
    );
}

#[test]
fn failed_commit_is_discarded() {
    let (plan, actions) = run(&[true, false]);
    assert_eq!(actions, vec![WriteAction::Stage, WriteAction::Commit]);
    assert_eq!(plan.phase(), WritePhase::Discarding);
    assert_eq!(plan.action(), WriteAction::Discard);
    assert_eq!(plan.outcome(), None);

    let (plan, _) = run(&[true, false, false]);
    assert_eq!(plan.phase(), WritePhase::Failed);
    assert_eq!(
        plan.outcome(),
        Some(Err(BindingError::WriteFailure { path: "out/rust.pyi".to_string() }))
    );
}

#[test]
fn ended_write_stays_ended() {
    let (plan, _) = run(&[true, true, false, true]);
    assert_eq!(plan.phase(), WritePhase::Written);
    let (plan, _) = run(&[false, false, true, true]);
    assert_eq!(plan.phase(), WritePhase::Failed);
    assert_eq!(plan.destination(), "out/rust.pyi");
    assert_eq!(plan.staging(), "out/rust.pyi.tmp");
}
