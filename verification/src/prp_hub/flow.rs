use vstd::prelude::*;

verus! {

/// How a commit session ends.
#[derive(Clone, Copy, Debug, PartialEq, Eq, Structural)]
pub enum FlowEnd {
    /// No repository had anything to commit.
    NothingToCommit,
    /// A commit failed before any commit was made, so there was nothing to undo.
    NothingRolledBack,
    /// A commit (`after_push` false) or a push (`after_push` true) failed; the remotes
    /// already pushed were reverted and every commit of the session was undone.
    RolledBack { after_push: bool },
    /// Every committed repository was pushed.
    Pushed,
    /// The user chose not to push; the commits stay local.
    Local,
}

/// Where a commit session stands.
#[derive(Clone, Copy, Debug, PartialEq, Eq, Structural)]
pub enum FlowPhase {
    /// Committing in the repository at index `next`.
    Committing,
    /// Asking whether to push.
    AskingPush,
    /// Pushing the repository of the commit at this position of the session's commits.
    Pushing(usize),
    /// Taking the session's commit off the remote of the commit at position `at` of
    /// the session's commits, after a failed push.
    RevertingRemote { at: usize },
    /// Undoing the commit at position `at` of the session's commits.
    RollingBack { at: usize, after_push: bool },
    /// The session is over.
    Done(FlowEnd),
}

/// What the outside world reports back to the session.
#[derive(Clone, Copy, Debug, PartialEq, Eq, Structural)]
pub enum FlowEvent {
    /// The commit asked for was made.
    Committed,
    /// The repository asked for had nothing to commit.
    NothingToCommit,
    /// The commit asked for failed.
    CommitFailed,
    /// The user's answer to the push question.
    PushAnswer(bool),
    /// The push asked for succeeded.
    Pushed,
    /// The push asked for failed.
    PushFailed,
    /// The remote revert asked for was attempted (whether it succeeded or not).
    RemoteReverted,
    /// The rollback asked for was attempted (whether it succeeded or not).
    RolledBack,
}

/// What the session asks the outside world to do next.
#[derive(Clone, Copy, Debug, PartialEq, Eq, Structural)]
pub enum FlowAction {
    /// Commit in the repository with this index (discovery order).
    Commit(usize),
    /// Ask the user whether to push.
    AskPush,
    /// Push the repository with this index.
    Push(usize),
    /// Put the remote of the repository with this index back to the commit before the
    /// session's commit.
    RevertRemote(usize),
    /// Undo the session's commit in the repository with this index.
    Rollback(usize),
    /// The session is over.
    Finish(FlowEnd),
    /// The event did not fit the phase; nothing to do.
    Wait,
}

/// The session as a mathematical value: its phase, the number of repositories, the
/// index of the repository being committed, and the indices of the repositories
/// committed in so far, in the order of the commits.
pub struct FlowState {
    pub phase: FlowPhase,
    pub n_repos: nat,
    pub next: nat,
    pub committed: Seq<usize>,
}

/// A session state that the steps below can reach: the commits are made in
/// discovery order, each in a repository already visited, and the phase points at a
/// commit that exists.
pub open spec fn flow_wf(s: FlowState) -> bool {
    &&& s.n_repos <= usize::MAX
    &&& s.next <= s.n_repos
    &&& s.committed.len() <= s.next
    &&& forall|i: int, j: int| 0 <= i < j < s.committed.len() ==> s.committed[i] < s.committed[j]
    &&& forall|i: int| 0 <= i < s.committed.len() ==> s.committed[i] < s.next
    &&& match s.phase {
        FlowPhase::Committing => s.next < s.n_repos,
        FlowPhase::AskingPush => s.next == s.n_repos && s.committed.len() > 0,
        FlowPhase::Pushing(pos) => s.next == s.n_repos && pos < s.committed.len(),
        FlowPhase::RevertingRemote { at } => s.next == s.n_repos && at < s.committed.len(),
        FlowPhase::RollingBack { at, after_push: _ } => at < s.committed.len(),
        FlowPhase::Done(_) => true,
    }
}

/// The same session in another phase.
pub open spec fn in_phase(s: FlowState, p: FlowPhase) -> FlowState {
    FlowState { phase: p, n_repos: s.n_repos, next: s.next, committed: s.committed }
}

/// A session over `n` repositories starts by committing in the first; with none there
/// is nothing to commit.
pub open spec fn begin(n: nat) -> (FlowState, FlowAction) {
    if n == 0 {
        (
            FlowState {
                phase: FlowPhase::Done(FlowEnd::NothingToCommit),
                n_repos: 0,
                next: 0,
                committed: Seq::empty(),
            },
            FlowAction::Finish(FlowEnd::NothingToCommit),
        )
    } else {
        (
            FlowState { phase: FlowPhase::Committing, n_repos: n, next: 0, committed: Seq::empty() },
            FlowAction::Commit(0),
        )
    }
}

/// After a failure, the last commit is undone first; with no commit the session ends.
pub open spec fn start_rollback(s: FlowState, after_push: bool) -> (FlowState, FlowAction) {
    if s.committed.len() == 0 {
        (
            in_phase(s, FlowPhase::Done(FlowEnd::NothingRolledBack)),
            FlowAction::Finish(FlowEnd::NothingRolledBack),
        )
    } else {
        let at = (s.committed.len() - 1) as usize;
        (
            in_phase(s, FlowPhase::RollingBack { at, after_push }),
            FlowAction::Rollback(s.committed[at as int]),
        )
    }
}

/// One commit attempt is over (`made` when a commit was made): go on with the next
/// repository, or, after the last, ask to push, or end when nothing was committed.
pub open spec fn after_commit(s: FlowState, made: bool) -> (FlowState, FlowAction) {
    let c = if made { s.committed.push(s.next as usize) } else { s.committed };
    let next = s.next + 1;
    if next < s.n_repos {
        (
            FlowState { phase: FlowPhase::Committing, n_repos: s.n_repos, next: next, committed: c },
            FlowAction::Commit(next as usize),
        )
    } else if c.len() == 0 {
        (
            FlowState {
                phase: FlowPhase::Done(FlowEnd::NothingToCommit),
                n_repos: s.n_repos,
                next: next,
                committed: c,
            },
            FlowAction::Finish(FlowEnd::NothingToCommit),
        )
    } else {
        (
            FlowState { phase: FlowPhase::AskingPush, n_repos: s.n_repos, next: next, committed: c },
            FlowAction::AskPush,
        )
    }
}

/// The session's decision on one event: the next state and what to do.
pub open spec fn transition(s: FlowState, ev: FlowEvent) -> (FlowState, FlowAction) {
    match s.phase {
        FlowPhase::Committing => match ev {
            FlowEvent::Committed => after_commit(s, true),
            FlowEvent::NothingToCommit => after_commit(s, false),
            FlowEvent::CommitFailed => start_rollback(s, false),
            _ => (s, FlowAction::Wait),
        },
        FlowPhase::AskingPush => match ev {
            FlowEvent::PushAnswer(true) => (
                in_phase(s, FlowPhase::Pushing(0)),
                FlowAction::Push(s.committed[0]),
            ),
            FlowEvent::PushAnswer(false) => (
                in_phase(s, FlowPhase::Done(FlowEnd::Local)),
                FlowAction::Finish(FlowEnd::Local),
            ),
            _ => (s, FlowAction::Wait),
        },
        FlowPhase::Pushing(pos) => match ev {
            FlowEvent::Pushed => if pos + 1 < s.committed.len() {
                (
                    in_phase(s, FlowPhase::Pushing((pos + 1) as usize)),
                    FlowAction::Push(s.committed[pos + 1]),
                )
            } else {
                (in_phase(s, FlowPhase::Done(FlowEnd::Pushed)), FlowAction::Finish(FlowEnd::Pushed))
            },
            FlowEvent::PushFailed => if pos > 0 {
                (
                    in_phase(s, FlowPhase::RevertingRemote { at: (pos - 1) as usize }),
                    FlowAction::RevertRemote(s.committed[pos - 1]),
                )
            } else {
                start_rollback(s, true)
            },
            _ => (s, FlowAction::Wait),
        },
        FlowPhase::RevertingRemote { at } => match ev {
            FlowEvent::RemoteReverted => if at > 0 {
                (
                    in_phase(s, FlowPhase::RevertingRemote { at: (at - 1) as usize }),
                    FlowAction::RevertRemote(s.committed[at - 1]),
                )
            } else {
                start_rollback(s, true)
            },
            _ => (s, FlowAction::Wait),
        },
        FlowPhase::RollingBack { at, after_push } => match ev {
            FlowEvent::RolledBack => if at > 0 {
                (
                    in_phase(s, FlowPhase::RollingBack { at: (at - 1) as usize, after_push }),
                    FlowAction::Rollback(s.committed[at - 1]),
                )
            } else {
                (
                    in_phase(s, FlowPhase::Done(FlowEnd::RolledBack { after_push })),
                    FlowAction::Finish(FlowEnd::RolledBack { after_push }),
                )
            },
            _ => (s, FlowAction::Wait),
        },
        FlowPhase::Done(_) => (s, FlowAction::Wait),
    }
}

/// The session fed a sequence of events: the state it ends in and the actions it asked for.
pub open spec fn run(s: FlowState, evs: Seq<FlowEvent>) -> (FlowState, Seq<FlowAction>)
    decreases evs.len(),
{
    if evs.len() == 0 {
        (s, Seq::empty())
    } else {
        let (s1, a) = transition(s, evs[0]);
        let (s2, acts) = run(s1, evs.drop_first());
        (s2, seq![a] + acts)
    }
}

/// The rollbacks of the given commits, last first.
pub open spec fn undo_order(c: Seq<usize>) -> Seq<FlowAction> {
    Seq::new(c.len(), |j: int| FlowAction::Rollback(c[c.len() - 1 - j]))
}

/// `n` reports that a rollback was attempted.
pub open spec fn rollback_reports(n: nat) -> Seq<FlowEvent> {
    Seq::new(n, |_j: int| FlowEvent::RolledBack)
}

/// A poly-repo commit session: which repository to commit, push or roll back next.
pub struct PrpFlow {
    phase: FlowPhase,
    n_repos: usize,
    next: usize,
    committed: Vec<usize>,
}

impl PrpFlow {
    /// The session as a mathematical value.
    pub closed spec fn state(&self) -> FlowState {
        FlowState {
            phase: self.phase,
            n_repos: self.n_repos as nat,
            next: self.next as nat,
            committed: self.committed@,
        }
    }

    /// A session over `n_repos` repositories, and its first action (see `begin`).
    pub fn new(n_repos: usize) -> (r: (PrpFlow, FlowAction))
        ensures
            (r.0.state(), r.1) == begin(n_repos as nat),
            flow_wf(r.0.state()),
    {
        if n_repos == 0 {
            (
                PrpFlow {
                    phase: FlowPhase::Done(FlowEnd::NothingToCommit),
                    n_repos: 0,
                    next: 0,
                    committed: Vec::new(),
                },
                FlowAction::Finish(FlowEnd::NothingToCommit),
            )
        } else {
            let f = PrpFlow { phase: FlowPhase::Committing, n_repos, next: 0, committed: Vec::new() };
            assert(f.committed@ =~= Seq::<usize>::empty());
            (f, FlowAction::Commit(0))
        }
    }

    /// The phase the session is in.
    pub fn phase(&self) -> (p: FlowPhase)
        ensures
            p == self.state().phase,
    {
        self.phase
    }

    /// How many commits the session has made.
    pub fn committed_count(&self) -> (n: usize)
        ensures
            n == self.state().committed.len(),
    {
        self.committed.len()
    }

    fn begin_rollback(&mut self, after_push: bool) -> (a: FlowAction)
        requires
            flow_wf(old(self).state()),
        ensures
            (final(self).state(), a) == start_rollback(old(self).state(), after_push),
    {
        let n = self.committed.len();
        if n == 0 {
            self.phase = FlowPhase::Done(FlowEnd::NothingRolledBack);
            FlowAction::Finish(FlowEnd::NothingRolledBack)
        } else {
            let at = n - 1;
            self.phase = FlowPhase::RollingBack { at, after_push };
            FlowAction::Rollback(self.committed[at])
        }
    }

    fn finish_commit(&mut self, made: bool) -> (a: FlowAction)
        requires
            flow_wf(old(self).state()),
            old(self).state().phase is Committing,
        ensures
            (final(self).state(), a) == after_commit(old(self).state(), made),
    {
        if made {
            let i = self.next;
            self.committed.push(i);
        }
        self.next = self.next + 1;
        if self.next < self.n_repos {
            FlowAction::Commit(self.next)
        } else if self.committed.len() == 0 {
            self.phase = FlowPhase::Done(FlowEnd::NothingToCommit);
            FlowAction::Finish(FlowEnd::NothingToCommit)
        } else {
            self.phase = FlowPhase::AskingPush;
            FlowAction::AskPush
        }
    }

    /// The session's decision on one event (see `transition`).
    pub fn step(&mut self, ev: FlowEvent) -> (a: FlowAction)
        requires
            flow_wf(old(self).state()),
        ensures
            (final(self).state(), a) == transition(old(self).state(), ev),
            flow_wf(final(self).state()),
    {
        proof {
            lemma_transition_keeps_wf(self.state(), ev);
        }
        match self.phase {
            FlowPhase::Committing => match ev {
                FlowEvent::Committed => self.finish_commit(true),
                FlowEvent::NothingToCommit => self.finish_commit(false),
                FlowEvent::CommitFailed => self.begin_rollback(false),
                _ => FlowAction::Wait,
            },
            FlowPhase::AskingPush => match ev {
                FlowEvent::PushAnswer(yes) => {
                    if yes {
                        self.phase = FlowPhase::Pushing(0);
                        FlowAction::Push(self.committed[0])
                    } else {
                        self.phase = FlowPhase::Done(FlowEnd::Local);
                        FlowAction::Finish(FlowEnd::Local)
                    }
                },
                _ => FlowAction::Wait,
            },
            FlowPhase::Pushing(pos) => match ev {
                FlowEvent::Pushed => {
                    if pos + 1 < self.committed.len() {
                        self.phase = FlowPhase::Pushing(pos + 1);
                        FlowAction::Push(self.committed[pos + 1])
                    } else {
                        self.phase = FlowPhase::Done(FlowEnd::Pushed);
                        FlowAction::Finish(FlowEnd::Pushed)
                    }
                },
                FlowEvent::PushFailed => {
                    if pos > 0 {
                        self.phase = FlowPhase::RevertingRemote { at: pos - 1 };
                        FlowAction::RevertRemote(self.committed[pos - 1])
                    } else {
                        self.begin_rollback(true)
                    }
                },
                _ => FlowAction::Wait,
            },
            FlowPhase::RevertingRemote { at } => match ev {
                FlowEvent::RemoteReverted => {
                    if at > 0 {
                        self.phase = FlowPhase::RevertingRemote { at: at - 1 };
                        FlowAction::RevertRemote(self.committed[at - 1])
                    } else {
                        self.begin_rollback(true)
                    }
                },
                _ => FlowAction::Wait,
            },
            FlowPhase::RollingBack { at, after_push } => match ev {
                FlowEvent::RolledBack => {
                    if at > 0 {
                        self.phase = FlowPhase::RollingBack { at: at - 1, after_push };
                        FlowAction::Rollback(self.committed[at - 1])
                    } else {
                        self.phase = FlowPhase::Done(FlowEnd::RolledBack { after_push });
                        FlowAction::Finish(FlowEnd::RolledBack { after_push })
                    }
                },
                _ => FlowAction::Wait,
            },
            FlowPhase::Done(_) => FlowAction::Wait,
        }
    }
}

/// Every step keeps a reachable session reachable.
pub proof fn lemma_transition_keeps_wf(s: FlowState, ev: FlowEvent)
    requires
        flow_wf(s),
    ensures
        flow_wf(transition(s, ev).0),
{
    let t = transition(s, ev).0;
    if s.phase is Committing && (ev is Committed || ev is NothingToCommit) {
        let c = t.committed;
        assert forall|i: int, j: int| 0 <= i < j < c.len() implies c[i] < c[j] by {
            if ev is Committed && j == c.len() - 1 {
                assert(c[j] == s.next);
            }
        }
    }
}

/// Feeding reports to a session that is rolling back undoes the commits before the
/// current one, last first, and then ends it.
proof fn lemma_rollback_rest(s: FlowState, at: usize, after_push: bool)
    requires
        flow_wf(s),
        s.phase == (FlowPhase::RollingBack { at, after_push }),
    ensures
        run(s, rollback_reports((at + 1) as nat)) == (
            in_phase(s, FlowPhase::Done(FlowEnd::RolledBack { after_push })),
            Seq::new(at as nat, |j: int| FlowAction::Rollback(s.committed[at - 1 - j])).push(
                FlowAction::Finish(FlowEnd::RolledBack { after_push }),
            ),
        ),
    decreases at,
{
    let evs = rollback_reports((at + 1) as nat);
    assert(evs.drop_first() =~= rollback_reports(at as nat));
    let s1 = transition(s, evs[0]).0;
    let a = transition(s, evs[0]).1;
    assert(run(s, evs).0 == run(s1, rollback_reports(at as nat)).0);
    assert(run(s, evs).1 == seq![a] + run(s1, rollback_reports(at as nat)).1);
    if at > 0 {
        lemma_rollback_rest(s1, (at - 1) as usize, after_push);
        assert(in_phase(s1, FlowPhase::Done(FlowEnd::RolledBack { after_push })) == in_phase(
            s,
            FlowPhase::Done(FlowEnd::RolledBack { after_push }),
        ));
        assert(seq![FlowAction::Rollback(s.committed[at - 1])] + Seq::new(
            (at - 1) as nat,
            |j: int| FlowAction::Rollback(s1.committed[(at - 1) - 1 - j]),
        ).push(FlowAction::Finish(FlowEnd::RolledBack { after_push })) =~= Seq::new(
            at as nat,
            |j: int| FlowAction::Rollback(s.committed[at - 1 - j]),
        ).push(FlowAction::Finish(FlowEnd::RolledBack { after_push })));
    } else {
        assert(rollback_reports(0) =~= Seq::<FlowEvent>::empty());
        assert(seq![FlowAction::Finish(FlowEnd::RolledBack { after_push })] =~= Seq::new(
            0,
            |j: int| FlowAction::Rollback(s.committed[at - 1 - j]),
        ).push(FlowAction::Finish(FlowEnd::RolledBack { after_push })));
    }
}

/// Starting the local rollback of a session with commits, and feeding it a report per
/// commit, undoes them all, last first, and ends the session.
proof fn lemma_local_rollback(s: FlowState, after_push: bool)
    requires
        flow_wf(s),
        s.committed.len() > 0,
    ensures
        ({
            let (s1, a) = start_rollback(s, after_push);
            seq![a] + run(s1, rollback_reports(s.committed.len())).1 == undo_order(s.committed).push(
                FlowAction::Finish(FlowEnd::RolledBack { after_push }),
            )
            && run(s1, rollback_reports(s.committed.len())).0 == in_phase(
                s,
                FlowPhase::Done(FlowEnd::RolledBack { after_push }),
            )
        }),
{
    let n = s.committed.len();
    let at = (n - 1) as usize;
    let s1 = start_rollback(s, after_push).0;
    assert(s1 == in_phase(s, FlowPhase::RollingBack { at, after_push }));
    lemma_rollback_rest(s1, at, after_push);
    assert(in_phase(s1, FlowPhase::Done(FlowEnd::RolledBack { after_push })) == in_phase(
        s,
        FlowPhase::Done(FlowEnd::RolledBack { after_push }),
    ));
    assert(seq![FlowAction::Rollback(s.committed[at as int])] + Seq::new(
        at as nat,
        |j: int| FlowAction::Rollback(s1.committed[at - 1 - j]),
    ).push(FlowAction::Finish(FlowEnd::RolledBack { after_push })) =~= undo_order(s.committed).push(
        FlowAction::Finish(FlowEnd::RolledBack { after_push }),
    ));
}

/// When a commit fails, the session undoes every commit it made, each once and last
/// first, and then ends; it asks for nothing else on the way.
pub proof fn law_commit_failure_undoes_every_commit_last_first(s: FlowState)
    requires
        flow_wf(s),
        s.phase is Committing,
        s.committed.len() > 0,
    ensures
        run(s, seq![FlowEvent::CommitFailed] + rollback_reports(s.committed.len())) == (
            in_phase(s, FlowPhase::Done(FlowEnd::RolledBack { after_push: false })),
            undo_order(s.committed).push(FlowAction::Finish(FlowEnd::RolledBack { after_push: false })),
        ),
{
    let n = s.committed.len();
    let evs = seq![FlowEvent::CommitFailed] + rollback_reports(n);
    assert(evs[0] == FlowEvent::CommitFailed);
    assert(evs.drop_first() =~= rollback_reports(n));
    lemma_local_rollback(s, false);
}

/// The remote reverts of the given pushed commits, last first.
pub open spec fn remote_order(c: Seq<usize>) -> Seq<FlowAction> {
    Seq::new(c.len(), |j: int| FlowAction::RevertRemote(c[c.len() - 1 - j]))
}

/// `n` reports that a remote revert was attempted.
pub open spec fn remote_reports(n: nat) -> Seq<FlowEvent> {
    Seq::new(n, |_j: int| FlowEvent::RemoteReverted)
}

proof fn lemma_revert_rest(s: FlowState, at: usize)
    requires
        flow_wf(s),
        s.phase == (FlowPhase::RevertingRemote { at }),
    ensures
        run(s, remote_reports((at + 1) as nat) + rollback_reports(s.committed.len())) == (
            in_phase(s, FlowPhase::Done(FlowEnd::RolledBack { after_push: true })),
            Seq::new(at as nat, |j: int| FlowAction::RevertRemote(s.committed[at - 1 - j])) + undo_order(
                s.committed,
            ).push(FlowAction::Finish(FlowEnd::RolledBack { after_push: true })),
        ),
    decreases at,
{
    let n = s.committed.len();
    let tail = rollback_reports(n);
    let evs = remote_reports((at + 1) as nat) + tail;
    assert(evs[0] == FlowEvent::RemoteReverted);
    let s1 = transition(s, evs[0]).0;
    let a = transition(s, evs[0]).1;
    if at > 0 {
        assert(evs.drop_first() =~= remote_reports(at as nat) + tail);
        assert(run(s, evs).0 == run(s1, remote_reports(at as nat) + tail).0);
        assert(run(s, evs).1 == seq![a] + run(s1, remote_reports(at as nat) + tail).1);
        lemma_revert_rest(s1, (at - 1) as usize);
        assert(in_phase(s1, FlowPhase::Done(FlowEnd::RolledBack { after_push: true })) == in_phase(
            s,
            FlowPhase::Done(FlowEnd::RolledBack { after_push: true }),
        ));
        assert(seq![FlowAction::RevertRemote(s.committed[at - 1])] + (Seq::new(
            (at - 1) as nat,
            |j: int| FlowAction::RevertRemote(s1.committed[(at - 1) - 1 - j]),
        ) + undo_order(s.committed).push(FlowAction::Finish(FlowEnd::RolledBack { after_push: true })))
            =~= Seq::new(at as nat, |j: int| FlowAction::RevertRemote(s.committed[at - 1 - j])) + undo_order(
            s.committed,
        ).push(FlowAction::Finish(FlowEnd::RolledBack { after_push: true })));
    } else {
        assert(evs.drop_first() =~= tail);
        assert(run(s, evs).0 == run(s1, tail).0);
        assert(run(s, evs).1 == seq![a] + run(s1, tail).1);
        lemma_local_rollback(s, true);
        assert(Seq::new(0, |j: int| FlowAction::RevertRemote(s.committed[at - 1 - j])) + undo_order(
            s.committed,
        ).push(FlowAction::Finish(FlowEnd::RolledBack { after_push: true })) =~= undo_order(s.committed).push(
            FlowAction::Finish(FlowEnd::RolledBack { after_push: true }),
        ));
    }
}

/// When a push fails after `pos` repositories were pushed (the first `pos` commits, in
/// the order of the commits), the session first takes the session's commit off each of
/// those remotes, last first, then undoes every local commit, last first, and ends: no
/// repository keeps the session's commit, locally or on its remote, as far as each revert
/// and rollback succeeds. It asks for nothing else on the way.
pub proof fn law_push_failure_reverts_remotes_then_commits(s: FlowState, pos: usize)
    requires
        flow_wf(s),
        s.phase == FlowPhase::Pushing(pos),
    ensures
        run(
            s,
            seq![FlowEvent::PushFailed] + remote_reports(pos as nat) + rollback_reports(s.committed.len()),
        ) == (
            in_phase(s, FlowPhase::Done(FlowEnd::RolledBack { after_push: true })),
            remote_order(s.committed.take(pos as int)) + undo_order(s.committed).push(
                FlowAction::Finish(FlowEnd::RolledBack { after_push: true }),
            ),
        ),
{
    let n = s.committed.len();
    let tail = rollback_reports(n);
    let evs = seq![FlowEvent::PushFailed] + remote_reports(pos as nat) + tail;
    assert(evs[0] == FlowEvent::PushFailed);
    assert(evs.drop_first() =~= remote_reports(pos as nat) + tail);
    let s1 = transition(s, evs[0]).0;
    let a = transition(s, evs[0]).1;
    assert(run(s, evs).0 == run(s1, remote_reports(pos as nat) + tail).0);
    assert(run(s, evs).1 == seq![a] + run(s1, remote_reports(pos as nat) + tail).1);
    if pos > 0 {
        lemma_revert_rest(s1, (pos - 1) as usize);
        assert(in_phase(s1, FlowPhase::Done(FlowEnd::RolledBack { after_push: true })) == in_phase(
            s,
            FlowPhase::Done(FlowEnd::RolledBack { after_push: true }),
        ));
        assert(seq![FlowAction::RevertRemote(s.committed[pos - 1])] + (Seq::new(
            (pos - 1) as nat,
            |j: int| FlowAction::RevertRemote(s1.committed[(pos - 1) - 1 - j]),
        ) + undo_order(s.committed).push(FlowAction::Finish(FlowEnd::RolledBack { after_push: true })))
            =~= remote_order(s.committed.take(pos as int)) + undo_order(s.committed).push(
            FlowAction::Finish(FlowEnd::RolledBack { after_push: true }),
        ));
    } else {
        assert(remote_reports(0) + tail =~= tail);
        lemma_local_rollback(s, true);
        assert(remote_order(s.committed.take(0)) + undo_order(s.committed).push(
            FlowAction::Finish(FlowEnd::RolledBack { after_push: true }),
        ) =~= undo_order(s.committed).push(FlowAction::Finish(FlowEnd::RolledBack { after_push: true })));
    }
}

/// `n` reports of a successful push.
pub open spec fn push_reports(n: nat) -> Seq<FlowEvent> {
    Seq::new(n, |_j: int| FlowEvent::Pushed)
}

proof fn lemma_push_rest(s: FlowState, pos: usize)
    requires
        flow_wf(s),
        s.phase == FlowPhase::Pushing(pos),
    ensures
        run(s, push_reports((s.committed.len() - pos) as nat)) == (
            in_phase(s, FlowPhase::Done(FlowEnd::Pushed)),
            Seq::new((s.committed.len() - pos - 1) as nat, |j: int| FlowAction::Push(s.committed[pos + 1 + j])).push(
                FlowAction::Finish(FlowEnd::Pushed),
            ),
        ),
    decreases s.committed.len() - pos,
{
    let k = (s.committed.len() - pos) as nat;
    let evs = push_reports(k);
    assert(evs.drop_first() =~= push_reports((k - 1) as nat));
    let s1 = transition(s, evs[0]).0;
    let a = transition(s, evs[0]).1;
    assert(run(s, evs).0 == run(s1, push_reports((k - 1) as nat)).0);
    assert(run(s, evs).1 == seq![a] + run(s1, push_reports((k - 1) as nat)).1);
    if pos + 1 < s.committed.len() {
        lemma_push_rest(s1, (pos + 1) as usize);
        assert(in_phase(s1, FlowPhase::Done(FlowEnd::Pushed)) == in_phase(s, FlowPhase::Done(FlowEnd::Pushed)));
        assert(seq![FlowAction::Push(s.committed[pos + 1])] + Seq::new(
            (s.committed.len() - (pos + 1) - 1) as nat,
            |j: int| FlowAction::Push(s1.committed[(pos + 1) + 1 + j]),
        ).push(FlowAction::Finish(FlowEnd::Pushed)) =~= Seq::new(
            (s.committed.len() - pos - 1) as nat,
            |j: int| FlowAction::Push(s.committed[pos + 1 + j]),
        ).push(FlowAction::Finish(FlowEnd::Pushed)));
    } else {
        assert(push_reports(0) =~= Seq::<FlowEvent>::empty());
        assert(seq![FlowAction::Finish(FlowEnd::Pushed)] =~= Seq::new(
            0,
            |j: int| FlowAction::Push(s.committed[pos + 1 + j]),
        ).push(FlowAction::Finish(FlowEnd::Pushed)));
    }
}

/// When the user agrees to push and every push succeeds, the session pushes each
/// committed repository once, in the order of the commits (which is discovery order),
/// and then ends.
pub proof fn law_push_follows_commits(s: FlowState)
    requires
        flow_wf(s),
        s.phase is AskingPush,
    ensures
        run(s, seq![FlowEvent::PushAnswer(true)] + push_reports(s.committed.len())) == (
            in_phase(s, FlowPhase::Done(FlowEnd::Pushed)),
            Seq::new(s.committed.len(), |j: int| FlowAction::Push(s.committed[j])).push(
                FlowAction::Finish(FlowEnd::Pushed),
            ),
        ),
        forall|i: int, j: int| 0 <= i < j < s.committed.len() ==> s.committed[i] < s.committed[j],
{
    let n = s.committed.len();
    let evs = seq![FlowEvent::PushAnswer(true)] + push_reports(n);
    assert(evs[0] == FlowEvent::PushAnswer(true));
    assert(evs.drop_first() =~= push_reports(n));
    let s1 = transition(s, evs[0]).0;
    lemma_push_rest(s1, 0);
    assert(in_phase(s1, FlowPhase::Done(FlowEnd::Pushed)) == in_phase(s, FlowPhase::Done(FlowEnd::Pushed)));
    assert(seq![FlowAction::Push(s.committed[0])] + Seq::new(
        (n - 0 - 1) as nat,
        |j: int| FlowAction::Push(s1.committed[0 + 1 + j]),
    ).push(FlowAction::Finish(FlowEnd::Pushed)) =~= Seq::new(n, |j: int| FlowAction::Push(s.committed[j])).push(
        FlowAction::Finish(FlowEnd::Pushed),
    ));
}

/// A finished session stays as it is, whatever is reported to it.
pub proof fn law_done_is_final(s: FlowState, evs: Seq<FlowEvent>)
    requires
        s.phase is Done,
    ensures
        run(s, evs) == (s, Seq::new(evs.len(), |_j: int| FlowAction::Wait)),
    decreases evs.len(),
{
    if evs.len() > 0 {
        law_done_is_final(s, evs.drop_first());
        assert(seq![FlowAction::Wait] + Seq::new(evs.drop_first().len(), |_j: int| FlowAction::Wait) =~= Seq::new(
            evs.len(),
            |_j: int| FlowAction::Wait,
        ));
    } else {
        assert(Seq::<FlowAction>::empty() =~= Seq::new(evs.len(), |_j: int| FlowAction::Wait));
    }
}

/// Once a session has started undoing a failure (reverting remotes or rolling back) or
/// has ended, it never again asks for a commit or a push, whatever is reported to it.
pub proof fn law_no_commit_or_push_after_failure(s: FlowState, evs: Seq<FlowEvent>)
    requires
        flow_wf(s),
        s.phase is RevertingRemote || s.phase is RollingBack || s.phase is Done,
    ensures
        forall|i: int|
            0 <= i < run(s, evs).1.len() ==> !(#[trigger] run(s, evs).1[i] is Commit) && !(run(s, evs).1[i] is Push),
        run(s, evs).0.phase is RevertingRemote || run(s, evs).0.phase is RollingBack || run(s, evs).0.phase is Done,
    decreases evs.len(),
{
    if evs.len() > 0 {
        let s1 = transition(s, evs[0]).0;
        lemma_transition_keeps_wf(s, evs[0]);
        law_no_commit_or_push_after_failure(s1, evs.drop_first());
        let acts = run(s, evs).1;
        let rest = run(s1, evs.drop_first()).1;
        assert forall|i: int| 0 <= i < acts.len() implies !(#[trigger] acts[i] is Commit) && !(acts[i] is Push) by {
            if i > 0 {
                assert(acts[i] == rest[i - 1]);
            }
        }
    }
}

/// The reports of commit attempts, one per repository: `true` where a commit was made,
/// `false` where there was nothing to commit.
pub open spec fn commit_reports(made: Seq<bool>) -> Seq<FlowEvent> {
    Seq::new(made.len(), |i: int| if made[i] { FlowEvent::Committed } else { FlowEvent::NothingToCommit })
}

/// The indices, counted from `first`, of the attempts that made a commit.
pub open spec fn made_from(first: nat, made: Seq<bool>) -> Seq<usize>
    decreases made.len(),
{
    if made.len() == 0 {
        Seq::empty()
    } else {
        (if made[0] { seq![first as usize] } else { Seq::empty() }) + made_from(first + 1, made.drop_first())
    }
}

/// What ends the commit phase: the push question, or the end when nothing was committed.
pub open spec fn commit_phase_end(committed: Seq<usize>) -> (FlowPhase, FlowAction) {
    if committed.len() == 0 {
        (FlowPhase::Done(FlowEnd::NothingToCommit), FlowAction::Finish(FlowEnd::NothingToCommit))
    } else {
        (FlowPhase::AskingPush, FlowAction::AskPush)
    }
}

proof fn lemma_commit_rest(s: FlowState, made: Seq<bool>)
    requires
        flow_wf(s),
        s.phase is Committing,
        made.len() == s.n_repos - s.next,
    ensures
        ({
            let c = s.committed + made_from(s.next, made);
            run(s, commit_reports(made)) == (
                FlowState { phase: commit_phase_end(c).0, n_repos: s.n_repos, next: s.n_repos, committed: c },
                Seq::new((made.len() - 1) as nat, |i: int| FlowAction::Commit((s.next + 1 + i) as usize)).push(
                    commit_phase_end(c).1,
                ),
            )
        }),
    decreases made.len(),
{
    let evs = commit_reports(made);
    let rest = made.drop_first();
    assert(evs.drop_first() =~= commit_reports(rest));
    let s1 = transition(s, evs[0]).0;
    let a = transition(s, evs[0]).1;
    assert(run(s, evs).0 == run(s1, commit_reports(rest)).0);
    assert(run(s, evs).1 == seq![a] + run(s1, commit_reports(rest)).1);
    let c1 = if made[0] { s.committed.push(s.next as usize) } else { s.committed };
    assert(s1.committed == c1);
    let c = s.committed + made_from(s.next, made);
    assert(c =~= c1 + made_from(s.next + 1, rest));
    if s.next + 1 < s.n_repos {
        lemma_transition_keeps_wf(s, evs[0]);
        lemma_commit_rest(s1, rest);
        assert(seq![FlowAction::Commit((s.next + 1) as usize)] + Seq::new(
            (rest.len() - 1) as nat,
            |i: int| FlowAction::Commit((s1.next + 1 + i) as usize),
        ).push(commit_phase_end(c).1) =~= Seq::new(
            (made.len() - 1) as nat,
            |i: int| FlowAction::Commit((s.next + 1 + i) as usize),
        ).push(commit_phase_end(c).1));
    } else {
        assert(rest.len() == 0);
        assert(commit_reports(rest) =~= Seq::<FlowEvent>::empty());
        assert(made_from(s.next + 1, rest) =~= Seq::<usize>::empty());
        assert(c =~= c1);
        assert(seq![a] =~= Seq::new(
            (made.len() - 1) as nat,
            |i: int| FlowAction::Commit((s.next + 1 + i) as usize),
        ).push(commit_phase_end(c).1));
    }
}

/// A session over `n` repositories asks for a commit in each of them once, in
/// discovery order; it records exactly those that made a commit, in that order; and
/// then it asks whether to push, or ends when nothing was committed.
pub proof fn law_commits_in_discovery_order(made: Seq<bool>)
    requires
        0 < made.len() <= usize::MAX,
    ensures
        ({
            let (s0, a0) = begin(made.len());
            let c = made_from(0, made);
            &&& a0 == FlowAction::Commit(0)
            &&& run(s0, commit_reports(made)) == (
                FlowState { phase: commit_phase_end(c).0, n_repos: made.len(), next: made.len(), committed: c },
                Seq::new((made.len() - 1) as nat, |i: int| FlowAction::Commit((1 + i) as usize)).push(
                    commit_phase_end(c).1,
                ),
            )
        }),
{
    let s0 = begin(made.len()).0;
    lemma_commit_rest(s0, made);
    assert(s0.committed + made_from(0, made) =~= made_from(0, made));
    assert(Seq::new((made.len() - 1) as nat, |i: int| FlowAction::Commit((s0.next + 1 + i) as usize)) =~= Seq::new(
        (made.len() - 1) as nat,
        |i: int| FlowAction::Commit((1 + i) as usize),
    ));
}

} // verus!
