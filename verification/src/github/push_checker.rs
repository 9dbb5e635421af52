use vstd::prelude::*;

use crate::text::{str_eq, string_from};

verus! {

/// The commits that a push would send, oldest first, with their totals.
#[derive(Debug)]
pub struct PushPreview {
    pub branch: String,
    pub commits: Vec<PreviewCommit>,
    pub total_files: usize,
    pub total_insertions: usize,
    pub total_deletions: usize,
}

/// One commit that a push would send.
#[derive(Debug)]
pub struct PreviewCommit {
    pub short_id: String,
    pub message: String,
    pub files_changed: usize,
    pub insertions: usize,
    pub deletions: usize,
}

/// Whether the current branch can be pushed, and why.
#[derive(Debug)]
pub struct PushStatus {
    pub can_push: bool,
    pub is_synced: bool,
    pub has_uncommitted_changes: bool,
    pub has_unpushed_commits: bool,
    pub has_conflicts: bool,
    pub remote_ahead: bool,
    pub local_commit: String,
    pub remote_commit: String,
    pub message: String,
}

impl PushStatus {
    /// A status with every flag off and every text empty.
    pub fn new() -> (s: PushStatus)
        ensures
            !s.can_push && !s.is_synced && !s.has_uncommitted_changes && !s.has_unpushed_commits
                && !s.has_conflicts && !s.remote_ahead,
            s.local_commit@ == Seq::<char>::empty(),
            s.remote_commit@ == Seq::<char>::empty(),
            s.message@ == Seq::<char>::empty(),
    {
        PushStatus {
            can_push: false,
            is_synced: false,
            has_uncommitted_changes: false,
            has_unpushed_commits: false,
            has_conflicts: false,
            remote_ahead: false,
            local_commit: String::new(),
            remote_commit: String::new(),
            message: String::new(),
        }
    }
}

/// Where the local branch stands against its remote-tracking branch, judged from the commit
/// ids and their merge base.
pub enum Relation {
    NoRemote,
    Same,
    LocalAhead,
    RemoteAhead,
    Diverged,
}

pub open spec fn relation(local: Seq<char>, remote: Option<Seq<char>>, base: Option<Seq<char>>) -> Relation {
    match remote {
        None => Relation::NoRemote,
        Some(r) => if local == r {
            Relation::Same
        } else if base == Some(r) {
            Relation::LocalAhead
        } else if base == Some(local) {
            Relation::RemoteAhead
        } else {
            Relation::Diverged
        },
    }
}

/// The push status that the facts give; see `push_status_from`.
pub open spec fn push_status_spec(
    s: PushStatus,
    has_uncommitted: bool,
    local: Seq<char>,
    remote: Option<Seq<char>>,
    base: Option<Seq<char>>,
) -> bool {
    &&& s.has_uncommitted_changes == has_uncommitted
    &&& s.local_commit@ == local
    &&& s.remote_commit@ == (match remote {
        Some(r) => r,
        None => Seq::empty(),
    })
    &&& match relation(local, remote, base) {
        Relation::NoRemote => !s.can_push && !s.is_synced && !s.has_unpushed_commits
            && !s.remote_ahead && !s.has_conflicts && s.message@
            == "Remote tracking branch not found"@,
        Relation::Same => s.can_push && s.is_synced && !s.has_unpushed_commits && !s.remote_ahead
            && !s.has_conflicts && s.message@ == "Branch is in sync with remote"@,
        Relation::LocalAhead => s.can_push && !s.is_synced && s.has_unpushed_commits
            && !s.remote_ahead && !s.has_conflicts && s.message@
            == "Local branch is ahead of remote"@,
        Relation::RemoteAhead => !s.can_push && !s.is_synced && !s.has_unpushed_commits
            && s.remote_ahead && !s.has_conflicts && s.message@
            == "Remote branch is ahead — pull required"@,
        Relation::Diverged => !s.can_push && !s.is_synced && !s.has_unpushed_commits
            && !s.remote_ahead && s.has_conflicts && s.message@
            == "Branch has diverged — merge/rebase required"@,
    }
}

/// Judges whether the current branch can be pushed from what git reports: uncommitted
/// changes, the local HEAD commit id, the remote-tracking commit id if the tracking branch
/// exists, and, when the two commits differ, their merge base.
pub fn push_status_from(
    has_uncommitted: bool,
    local: &str,
    remote: Option<&str>,
    merge_base: Option<&str>,
) -> (s: PushStatus)
    requires
        remote matches Some(r) && r@ != local@ ==> merge_base is Some,
    ensures
        push_status_spec(
            s,
            has_uncommitted,
            local@,
            match remote {
                Some(r) => Some(r@),
                None => None,
            },
            match merge_base {
                Some(b) => Some(b@),
                None => None,
            },
        ),
{
    let mut status = PushStatus::new();
    if has_uncommitted {
        status.has_uncommitted_changes = true;
        status.can_push = false;
        status.message = string_from("Uncommitted changes present");
    }
    status.local_commit = string_from(local);
    let remote = match remote {
        None => {
            status.message = string_from("Remote tracking branch not found");
            return status;
        },
        Some(r) => r,
    };
    status.remote_commit = string_from(remote);
    if str_eq(local, remote) {
        status.is_synced = true;
        status.can_push = true;
        status.message = string_from("Branch is in sync with remote");
    } else {
        let base = merge_base.unwrap();
        if str_eq(base, remote) {
            status.has_unpushed_commits = true;
            status.can_push = true;
            status.is_synced = false;
            status.message = string_from("Local branch is ahead of remote");
        } else if str_eq(base, local) {
            status.remote_ahead = true;
            status.can_push = false;
            status.is_synced = false;
            status.message = string_from("Remote branch is ahead — pull required");
        } else {
            status.has_conflicts = true;
            status.can_push = false;
            status.is_synced = false;
            status.message = string_from("Branch has diverged — merge/rebase required");
        }
    }
    status
}

/// Sum of a field over the preview commits.
pub open spec fn sum_files(s: Seq<PreviewCommit>) -> nat
    decreases s.len(),
{
    if s.len() == 0 {
        0
    } else {
        sum_files(s.drop_last()) + s.last().files_changed as nat
    }
}

pub open spec fn sum_insertions(s: Seq<PreviewCommit>) -> nat
    decreases s.len(),
{
    if s.len() == 0 {
        0
    } else {
        sum_insertions(s.drop_last()) + s.last().insertions as nat
    }
}

pub open spec fn sum_deletions(s: Seq<PreviewCommit>) -> nat
    decreases s.len(),
{
    if s.len() == 0 {
        0
    } else {
        sum_deletions(s.drop_last()) + s.last().deletions as nat
    }
}

proof fn lemma_sums_reverse(s: Seq<PreviewCommit>)
    ensures
        sum_files(s.reverse()) == sum_files(s),
        sum_insertions(s.reverse()) == sum_insertions(s),
        sum_deletions(s.reverse()) == sum_deletions(s),
    decreases s.len(),
{
    if s.len() > 0 {
        lemma_sums_reverse(s.drop_first());
        lemma_sums_front(s.reverse());
        assert(s.reverse().drop_last() =~= s.drop_first().reverse());
        lemma_sums_front(s);
    }
}

proof fn lemma_sums_front(s: Seq<PreviewCommit>)
    requires
        s.len() > 0,
    ensures
        sum_files(s) == s[0].files_changed + sum_files(s.drop_first()),
        sum_insertions(s) == s[0].insertions + sum_insertions(s.drop_first()),
        sum_deletions(s) == s[0].deletions + sum_deletions(s.drop_first()),
    decreases s.len(),
{
    if s.len() > 1 {
        lemma_sums_front(s.drop_last());
        assert(s.drop_last().drop_first() =~= s.drop_first().drop_last());
    } else {
        assert(s.drop_first() =~= Seq::<PreviewCommit>::empty());
        assert(s.drop_last() =~= Seq::<PreviewCommit>::empty());
    }
}

/// The statistics of the commits add up within `usize`.
pub open spec fn totals_fit(s: Seq<PreviewCommit>) -> bool {
    sum_files(s) <= usize::MAX && sum_insertions(s) <= usize::MAX && sum_deletions(s) <= usize::MAX
}

/// Whether the statistics of the commits add up within `usize` (see `totals_fit`).
pub fn push_totals_fit(cs: &Vec<PreviewCommit>) -> (b: bool)
    ensures
        b == totals_fit(cs@),
{
    let mut files: usize = 0;
    let mut ins: usize = 0;
    let mut del: usize = 0;
    let mut ok_f = true;
    let mut ok_i = true;
    let mut ok_d = true;
    let mut i: usize = 0;
    assert(cs@.take(0) =~= Seq::<PreviewCommit>::empty());
    while i < cs.len()
        invariant
            i <= cs.len(),
            ok_f ==> files == sum_files(cs@.take(i as int)),
            !ok_f ==> sum_files(cs@.take(i as int)) > usize::MAX,
            ok_i ==> ins == sum_insertions(cs@.take(i as int)),
            !ok_i ==> sum_insertions(cs@.take(i as int)) > usize::MAX,
            ok_d ==> del == sum_deletions(cs@.take(i as int)),
            !ok_d ==> sum_deletions(cs@.take(i as int)) > usize::MAX,
        decreases cs.len() - i,
    {
        assert(cs@.take(i + 1).drop_last() =~= cs@.take(i as int));
        assert(cs@.take(i + 1).last() == cs@[i as int]);
        let c = &cs[i];
        if ok_f {
            if c.files_changed > usize::MAX - files {
                ok_f = false;
            } else {
                files = files + c.files_changed;
            }
        }
        if ok_i {
            if c.insertions > usize::MAX - ins {
                ok_i = false;
            } else {
                ins = ins + c.insertions;
            }
        }
        if ok_d {
            if c.deletions > usize::MAX - del {
                ok_d = false;
            } else {
                del = del + c.deletions;
            }
        }
        i += 1;
    }
    assert(cs@.take(cs.len() as int) =~= cs@);
    ok_f && ok_i && ok_d
}

/// The preview of a push (see `build_push_preview`), or `None` when the commits'
/// statistics do not add up within `usize`.
pub fn push_preview_if_fits(branch: &str, newest_first: Vec<PreviewCommit>) -> (r: Option<PushPreview>)
    ensures
        r is Some == totals_fit(newest_first@),
        r matches Some(p) ==> {
            &&& p.branch@ == branch@
            &&& p.commits@ == newest_first@.reverse()
            &&& p.total_files == sum_files(newest_first@)
            &&& p.total_insertions == sum_insertions(newest_first@)
            &&& p.total_deletions == sum_deletions(newest_first@)
        },
{
    if push_totals_fit(&newest_first) {
        Some(build_push_preview(branch, newest_first))
    } else {
        None
    }
}

/// Builds the preview of a push from the unpushed commits as a revision walk yields them,
/// newest first: the preview lists them oldest first and adds up their statistics.
pub fn build_push_preview(branch: &str, newest_first: Vec<PreviewCommit>) -> (p: PushPreview)
    requires
        sum_files(newest_first@) <= usize::MAX,
        sum_insertions(newest_first@) <= usize::MAX,
        sum_deletions(newest_first@) <= usize::MAX,
    ensures
        p.branch@ == branch@,
        p.commits@ == newest_first@.reverse(),
        p.total_files == sum_files(newest_first@),
        p.total_insertions == sum_insertions(newest_first@),
        p.total_deletions == sum_deletions(newest_first@),
{
    let ghost orig = newest_first@;
    let mut rest = newest_first;
    let mut commits: Vec<PreviewCommit> = Vec::new();
    let mut files: usize = 0;
    let mut ins: usize = 0;
    let mut del: usize = 0;
    proof {
        lemma_sums_reverse(orig);
    }
    while rest.len() > 0
        invariant
            rest@ + commits@.reverse() == orig,
            files + sum_files(rest@) == sum_files(orig),
            ins + sum_insertions(rest@) == sum_insertions(orig),
            del + sum_deletions(rest@) == sum_deletions(orig),
            sum_files(orig) <= usize::MAX,
            sum_insertions(orig) <= usize::MAX,
            sum_deletions(orig) <= usize::MAX,
        decreases rest.len(),
    {
        let ghost before_rest = rest@;
        let ghost before_commits = commits@;
        let c = rest.pop().unwrap();
        files = files + c.files_changed;
        ins = ins + c.insertions;
        del = del + c.deletions;
        commits.push(c);
        assert(before_rest == rest@.push(c));
        assert(commits@.reverse() =~= seq![c] + before_commits.reverse());
        assert(rest@ + commits@.reverse() =~= before_rest + before_commits.reverse());
    }
    assert(commits@.reverse() =~= orig);
    assert(commits@ =~= orig.reverse()) by {
        assert(commits@.reverse().reverse() =~= commits@);
    }
    PushPreview {
        branch: string_from(branch),
        commits,
        total_files: files,
        total_insertions: ins,
        total_deletions: del,
    }
}

/// How the merge base decides a push, when the local and remote commits differ: a base
/// equal to the remote commit means the local branch has commits on top of the remote,
/// so it can be pushed, has unpushed commits and the remote is not ahead; a base equal
/// to the local commit means the remote is ahead, so it cannot be pushed; any other base
/// means the branches diverged. Equal commits are in sync and can be pushed.
pub proof fn law_merge_base_decides_the_push(
    s: PushStatus,
    has_uncommitted: bool,
    local: Seq<char>,
    remote: Seq<char>,
    base: Seq<char>,
)
    requires
        push_status_spec(s, has_uncommitted, local, Some(remote), Some(base)),
    ensures
        local != remote && base == remote ==> s.can_push && s.has_unpushed_commits && !s.remote_ahead
            && !s.is_synced && s.message@ == "Local branch is ahead of remote"@,
        local != remote && base == local ==> !s.can_push && s.remote_ahead && !s.has_unpushed_commits
            && s.message@ == "Remote branch is ahead — pull required"@,
        local != remote && base != remote && base != local ==> !s.can_push && s.has_conflicts
            && !s.remote_ahead && !s.has_unpushed_commits,
        local == remote ==> s.can_push && s.is_synced && !s.has_unpushed_commits && !s.remote_ahead
            && s.message@ == "Branch is in sync with remote"@,
        s.has_uncommitted_changes == has_uncommitted,
        s.local_commit@ == local,
        s.remote_commit@ == remote,
{
}

/// Without a remote-tracking branch nothing can be pushed, whatever else holds.
pub proof fn law_no_remote_no_push(s: PushStatus, has_uncommitted: bool, local: Seq<char>, base: Option<Seq<char>>)
    requires
        push_status_spec(s, has_uncommitted, local, None, base),
    ensures
        !s.can_push && !s.is_synced && !s.has_unpushed_commits && !s.remote_ahead,
        s.message@ == "Remote tracking branch not found"@,
        s.remote_commit@.len() == 0,
{
}

} // verus!
