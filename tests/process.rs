use jail::jail::{JailError, RunningJail};
use jail::process::{
    attach_verdict, AttachPlan, HookVerdict, Jailed, SpawnAction, SpawnEvent, SpawnState,
};

const EINVAL: i32 = 22;

fn attached() -> SpawnEvent {
    SpawnEvent::AttachReturned(Ok(()))
}

#[test]
fn verdict_of_success_proceeds() {
    assert_eq!(attach_verdict(&Ok(())), HookVerdict::Proceed);
}

#[test]
fn verdict_of_attach_error_keeps_code() {
    let r = Err(JailError::JailAttachError(EINVAL));
    assert_eq!(attach_verdict(&r), HookVerdict::Fail(EINVAL));
    let r = Err(JailError::JailAttachError(1));
    assert_eq!(attach_verdict(&r), HookVerdict::Fail(1));
}

#[test]
fn verdict_of_other_errors_is_defect() {
    let others = [
        JailError::JailGetError(EINVAL),
        JailError::JailSetError(EINVAL),
        JailError::JailRemoveError(EINVAL),
        JailError::ParameterNotFound,
        JailError::ParameterTypeError,
    ];
    for e in others {
        assert_eq!(attach_verdict(&Err(e)), HookVerdict::Defect);
    }
}

#[test]
fn jail_records_in_order() {
    let a = RunningJail::from_jid(3);
    let b = RunningJail::from_jid(5);
    let mut plan = AttachPlan::new();
    plan.jail(&a).jail(&b);
    assert_eq!(plan.jails, vec![a, b]);
}

#[test]
fn live_jail_spawn_proceeds_to_exec() {
    let c = RunningJail::from_jid(7);
    let mut plan = AttachPlan::new();
    plan.jail(&c);
    let mut attempt = plan.spawn_attempt();
    assert_eq!(attempt.state, SpawnState::Configured);
    assert_eq!(attempt.step(SpawnEvent::Duplicated), SpawnAction::Attach(c));
    assert_eq!(attempt.state, SpawnState::Duplicated { current: 0 });
    assert_eq!(attempt.step(attached()), SpawnAction::Exec);
    assert_eq!(attempt.state, SpawnState::Attached);
    assert_eq!(attempt.step(SpawnEvent::ImageReplaced), SpawnAction::Wait);
    assert_eq!(attempt.state, SpawnState::Replaced);
}

#[test]
fn destroyed_jail_fails_spawn() {
    let c = RunningJail::from_jid(7);
    let mut plan = AttachPlan::new();
    plan.jail(&c);
    let mut attempt = plan.spawn_attempt();
    assert_eq!(attempt.step(SpawnEvent::Duplicated), SpawnAction::Attach(c));
    let failed = SpawnEvent::AttachReturned(Err(JailError::JailAttachError(EINVAL)));
    assert_eq!(attempt.step(failed), SpawnAction::FailSpawn(EINVAL));
    assert_eq!(attempt.state, SpawnState::AttachFailed { errno: EINVAL });
    assert_eq!(attempt.step(SpawnEvent::ImageReplaced), SpawnAction::Wait);
    assert_eq!(attempt.step(attached()), SpawnAction::Wait);
    assert_eq!(attempt.step(SpawnEvent::Duplicated), SpawnAction::Wait);
    assert_eq!(attempt.state, SpawnState::AttachFailed { errno: EINVAL });
}

#[test]
fn nothing_attached_before_duplication() {
    let mut plan = AttachPlan::new();
    plan.jail(&RunningJail::from_jid(2));
    let mut attempt = plan.spawn_attempt();
    assert_eq!(attempt.step(attached()), SpawnAction::Wait);
    assert_eq!(attempt.step(SpawnEvent::ImageReplaced), SpawnAction::Wait);
    assert_eq!(attempt.state, SpawnState::Configured);
}

#[test]
fn two_jails_attached_once_each_in_order() {
    let a = RunningJail::from_jid(11);
    let b = RunningJail::from_jid(12);
    let mut plan = AttachPlan::new();
    plan.jail(&a).jail(&b);
    let mut attempt = plan.spawn_attempt();
    let mut actions = Vec::new();
    actions.push(attempt.step(SpawnEvent::Duplicated));
    actions.push(attempt.step(attached()));
    actions.push(attempt.step(attached()));
    assert_eq!(
        actions,
        vec![SpawnAction::Attach(a), SpawnAction::Attach(b), SpawnAction::Exec]
    );
    let attaches = actions
        .iter()
        .filter(|x| matches!(x, SpawnAction::Attach(_)))
        .count();
    assert_eq!(attaches, 2);
}

#[test]
fn second_attach_failure_stops_after_first() {
    let a = RunningJail::from_jid(11);
    let b = RunningJail::from_jid(12);
    let c = RunningJail::from_jid(13);
    let mut plan = AttachPlan::new();
    plan.jail(&a).jail(&b).jail(&c);
    let mut attempt = plan.spawn_attempt();
    assert_eq!(attempt.step(SpawnEvent::Duplicated), SpawnAction::Attach(a));
    assert_eq!(attempt.step(attached()), SpawnAction::Attach(b));
    let failed = SpawnEvent::AttachReturned(Err(JailError::JailAttachError(1)));
    assert_eq!(attempt.step(failed), SpawnAction::FailSpawn(1));
    assert_eq!(attempt.step(attached()), SpawnAction::Wait);
    assert_eq!(attempt.state, SpawnState::AttachFailed { errno: 1 });
}

#[test]
fn unexpected_error_aborts_child() {
    let mut plan = AttachPlan::new();
    plan.jail(&RunningJail::from_jid(4));
    let mut attempt = plan.spawn_attempt();
    attempt.step(SpawnEvent::Duplicated);
    let odd = SpawnEvent::AttachReturned(Err(JailError::ParameterTypeError));
    assert_eq!(attempt.step(odd), SpawnAction::Abort);
    assert_eq!(attempt.state, SpawnState::Escalated);
    assert_eq!(attempt.step(attached()), SpawnAction::Wait);
    assert_eq!(attempt.state, SpawnState::Escalated);
}

#[test]
fn empty_plan_execs_at_once() {
    let plan = AttachPlan::new();
    let mut attempt = plan.spawn_attempt();
    assert_eq!(attempt.step(SpawnEvent::Duplicated), SpawnAction::Exec);
    assert_eq!(attempt.state, SpawnState::Attached);
}

#[test]
fn attempt_keeps_plan_jails() {
    let a = RunningJail::from_jid(1);
    let mut plan = AttachPlan::new();
    plan.jail(&a).jail(&a);
    let attempt = plan.spawn_attempt();
    assert_eq!(attempt.jails, vec![a, a]);
    assert_eq!(plan.jails, vec![a, a]);
}
