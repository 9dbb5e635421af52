use gitlink::prp_hub::flow::{FlowAction, FlowEnd, FlowEvent, FlowPhase, PrpFlow};

fn feed(flow: &mut PrpFlow, events: &[FlowEvent]) -> Vec<FlowAction> {
    events.iter().map(|e| flow.step(*e)).collect()
}

#[test]
fn commit_failure_rolls_back_last_first() {
    let (mut flow, first) = PrpFlow::new(3);
    assert_eq!(first, FlowAction::Commit(0));
    let actions = feed(
        &mut flow,
        &[FlowEvent::Committed, FlowEvent::Committed, FlowEvent::CommitFailed, FlowEvent::RolledBack, FlowEvent::RolledBack],
    );
    assert_eq!(
        actions,
        vec![
            FlowAction::Commit(1),
            FlowAction::Commit(2),
            FlowAction::Rollback(1),
            FlowAction::Rollback(0),
            FlowAction::Finish(FlowEnd::RolledBack { after_push: false }),
        ]
    );
    assert_eq!(flow.phase(), FlowPhase::Done(FlowEnd::RolledBack { after_push: false }));
}

#[test]
fn failure_of_the_first_commit_has_nothing_to_roll_back() {
    let (mut flow, _) = PrpFlow::new(2);
    assert_eq!(flow.step(FlowEvent::CommitFailed), FlowAction::Finish(FlowEnd::NothingRolledBack));
}

#[test]
fn nothing_to_commit_anywhere_ends_the_session() {
    let (mut flow, _) = PrpFlow::new(2);
    let actions = feed(&mut flow, &[FlowEvent::NothingToCommit, FlowEvent::NothingToCommit]);
    assert_eq!(actions, vec![FlowAction::Commit(1), FlowAction::Finish(FlowEnd::NothingToCommit)]);
    assert_eq!(flow.committed_count(), 0);
}

#[test]
fn no_repositories_means_nothing_to_commit() {
    let (_, first) = PrpFlow::new(0);
    assert_eq!(first, FlowAction::Finish(FlowEnd::NothingToCommit));
}

#[test]
fn only_committed_repositories_are_pushed_in_order() {
    let (mut flow, _) = PrpFlow::new(3);
    let actions = feed(
        &mut flow,
        &[
            FlowEvent::Committed,
            FlowEvent::NothingToCommit,
            FlowEvent::Committed,
            FlowEvent::PushAnswer(true),
            FlowEvent::Pushed,
            FlowEvent::Pushed,
        ],
    );
    assert_eq!(
        actions,
        vec![
            FlowAction::Commit(1),
            FlowAction::Commit(2),
            FlowAction::AskPush,
            FlowAction::Push(0),
            FlowAction::Push(2),
            FlowAction::Finish(FlowEnd::Pushed),
        ]
    );
    assert_eq!(flow.committed_count(), 2);
}

#[test]
fn push_failure_rolls_back_every_commit() {
    let (mut flow, _) = PrpFlow::new(2);
    let actions = feed(
        &mut flow,
        &[
            FlowEvent::Committed,
            FlowEvent::Committed,
            FlowEvent::PushAnswer(true),
            FlowEvent::Pushed,
            FlowEvent::PushFailed,
            FlowEvent::RemoteReverted,
            FlowEvent::RolledBack,
            FlowEvent::RolledBack,
        ],
    );
    assert_eq!(
        actions,
        vec![
            FlowAction::Commit(1),
            FlowAction::AskPush,
            FlowAction::Push(0),
            FlowAction::Push(1),
            FlowAction::RevertRemote(0),
            FlowAction::Rollback(1),
            FlowAction::Rollback(0),
            FlowAction::Finish(FlowEnd::RolledBack { after_push: true }),
        ]
    );
}

#[test]
fn declining_the_push_keeps_commits_local() {
    let (mut flow, _) = PrpFlow::new(1);
    let actions = feed(&mut flow, &[FlowEvent::Committed, FlowEvent::PushAnswer(false)]);
    assert_eq!(actions, vec![FlowAction::AskPush, FlowAction::Finish(FlowEnd::Local)]);
}

#[test]
fn a_finished_session_ignores_further_reports() {
    let (mut flow, _) = PrpFlow::new(1);
    flow.step(FlowEvent::NothingToCommit);
    let before = flow.phase();
    let actions = feed(&mut flow, &[FlowEvent::Committed, FlowEvent::PushAnswer(true), FlowEvent::RolledBack]);
    assert_eq!(actions, vec![FlowAction::Wait, FlowAction::Wait, FlowAction::Wait]);
    assert_eq!(flow.phase(), before);
}

#[test]
fn events_out_of_phase_are_ignored() {
    let (mut flow, _) = PrpFlow::new(2);
    assert_eq!(flow.step(FlowEvent::Pushed), FlowAction::Wait);
    assert_eq!(flow.phase(), FlowPhase::Committing);
    assert_eq!(flow.step(FlowEvent::Committed), FlowAction::Commit(1));
}

#[test]
fn failure_of_the_first_push_has_no_remote_to_revert() {
    let (mut flow, _) = PrpFlow::new(1);
    let actions = feed(
        &mut flow,
        &[FlowEvent::Committed, FlowEvent::PushAnswer(true), FlowEvent::PushFailed, FlowEvent::RolledBack],
    );
    assert_eq!(
        actions,
        vec![
            FlowAction::AskPush,
            FlowAction::Push(0),
            FlowAction::Rollback(0),
            FlowAction::Finish(FlowEnd::RolledBack { after_push: true }),
        ]
    );
}

#[test]
fn pushed_remotes_are_reverted_last_first() {
    let (mut flow, _) = PrpFlow::new(3);
    let actions = feed(
        &mut flow,
        &[
            FlowEvent::Committed,
            FlowEvent::Committed,
            FlowEvent::Committed,
            FlowEvent::PushAnswer(true),
            FlowEvent::Pushed,
            FlowEvent::Pushed,
            FlowEvent::PushFailed,
            FlowEvent::RolledBack,
            FlowEvent::RemoteReverted,
            FlowEvent::RemoteReverted,
        ],
    );
    assert_eq!(
        actions,
        vec![
            FlowAction::Commit(1),
            FlowAction::Commit(2),
            FlowAction::AskPush,
            FlowAction::Push(0),
            FlowAction::Push(1),
            FlowAction::Push(2),
            FlowAction::RevertRemote(1),
            FlowAction::Wait,
            FlowAction::RevertRemote(0),
            FlowAction::Rollback(2),
        ]
    );
}
