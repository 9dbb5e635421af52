use vstd::prelude::*;

use crate::github::graphql::RepositoryInfo;
use crate::text::{contains_seq, i32_text, int_text, push_str, str_contains, str_eq, string_from};

verus! {

/// How a local clone relates to its GitHub repository.
#[derive(Debug)]
pub enum SyncStatus {
    InSync,
    LocalAhead { commits: i32 },
    RemoteAhead { commits: i32 },
    Diverged { local_ahead: i32, remote_ahead: i32 },
    NoLocalRepo,
    BranchMismatch { local_branch: String, remote_branch: String },
}

/// The icon of a status.
pub open spec fn emoji_text(s: SyncStatus) -> Seq<char> {
    match s {
        SyncStatus::InSync => "✅"@,
        SyncStatus::LocalAhead { .. } => "⬆️"@,
        SyncStatus::RemoteAhead { .. } => "⬇️"@,
        SyncStatus::Diverged { .. } => "🔀"@,
        SyncStatus::NoLocalRepo => "❌"@,
        SyncStatus::BranchMismatch { .. } => "🔄"@,
    }
}

/// The one-line description of a status.
pub open spec fn description_text(s: SyncStatus) -> Seq<char> {
    match s {
        SyncStatus::InSync => "In sync with remote"@,
        SyncStatus::LocalAhead { commits } => "Local is "@ + int_text(commits as int)
            + " commit(s) ahead"@,
        SyncStatus::RemoteAhead { commits } => "Remote is "@ + int_text(commits as int)
            + " commit(s) ahead"@,
        SyncStatus::Diverged { local_ahead, remote_ahead } => "Diverged: "@ + int_text(
            local_ahead as int,
        ) + " ahead, "@ + int_text(remote_ahead as int) + " behind"@,
        SyncStatus::NoLocalRepo => "Not cloned locally"@,
        SyncStatus::BranchMismatch { local_branch, remote_branch } => "Branch mismatch: local="@
            + local_branch@ + ", remote="@ + remote_branch@,
    }
}

impl SyncStatus {
    /// The icon of this status.
    pub fn emoji(&self) -> (r: &'static str)
        ensures
            r@ == emoji_text(*self),
    {
        match self {
            SyncStatus::InSync => "✅",
            SyncStatus::LocalAhead { .. } => "⬆️",
            SyncStatus::RemoteAhead { .. } => "⬇️",
            SyncStatus::Diverged { .. } => "🔀",
            SyncStatus::NoLocalRepo => "❌",
            SyncStatus::BranchMismatch { .. } => "🔄",
        }
    }

    /// The one-line description of this status.
    pub fn description(&self) -> (r: String)
        ensures
            r@ == description_text(*self),
    {
        match self {
            SyncStatus::InSync => string_from("In sync with remote"),
            SyncStatus::LocalAhead { commits } => {
                let mut r = string_from("Local is ");
                push_str(&mut r, i32_text(*commits).as_str());
                push_str(&mut r, " commit(s) ahead");
                r
            },
            SyncStatus::RemoteAhead { commits } => {
                let mut r = string_from("Remote is ");
                push_str(&mut r, i32_text(*commits).as_str());
                push_str(&mut r, " commit(s) ahead");
                r
            },
            SyncStatus::Diverged { local_ahead, remote_ahead } => {
                let mut r = string_from("Diverged: ");
                push_str(&mut r, i32_text(*local_ahead).as_str());
                push_str(&mut r, " ahead, ");
                push_str(&mut r, i32_text(*remote_ahead).as_str());
                push_str(&mut r, " behind");
                r
            },
            SyncStatus::NoLocalRepo => string_from("Not cloned locally"),
            SyncStatus::BranchMismatch { local_branch, remote_branch } => {
                let mut r = string_from("Branch mismatch: local=");
                push_str(&mut r, local_branch.as_str());
                push_str(&mut r, ", remote=");
                push_str(&mut r, remote_branch.as_str());
                r
            },
        }
    }
}

/// The status that commit counts give: how many local commits the remote lacks and how many
/// remote commits the local branch lacks.
pub open spec fn status_from_counts(local_ahead: i32, remote_ahead: i32) -> SyncStatus {
    if local_ahead == 0 && remote_ahead == 0 {
        SyncStatus::InSync
    } else if local_ahead > 0 && remote_ahead == 0 {
        SyncStatus::LocalAhead { commits: local_ahead }
    } else if local_ahead == 0 && remote_ahead > 0 {
        SyncStatus::RemoteAhead { commits: remote_ahead }
    } else {
        SyncStatus::Diverged { local_ahead, remote_ahead }
    }
}

/// Classifies a branch by its commit counts ahead of and behind its remote counterpart.
pub fn sync_status_from_counts(local_ahead: i32, remote_ahead: i32) -> (s: SyncStatus)
    ensures
        s == status_from_counts(local_ahead, remote_ahead),
{
    if local_ahead == 0 && remote_ahead == 0 {
        SyncStatus::InSync
    } else if local_ahead > 0 && remote_ahead == 0 {
        SyncStatus::LocalAhead { commits: local_ahead }
    } else if local_ahead == 0 && remote_ahead > 0 {
        SyncStatus::RemoteAhead { commits: remote_ahead }
    } else {
        SyncStatus::Diverged { local_ahead, remote_ahead }
    }
}

/// `BranchMismatch` when the current local branch is not the remote's default branch.
pub fn branch_mismatch(local_branch: &str, remote_branch: &str) -> (s: Option<SyncStatus>)
    ensures
        local_branch@ == remote_branch@ <==> s is None,
        s matches Some(SyncStatus::BranchMismatch { local_branch: l, remote_branch: r })
            ==> l@ == local_branch@ && r@ == remote_branch@,
        s is Some ==> s->0 is BranchMismatch,
{
    if str_eq(local_branch, remote_branch) {
        None
    } else {
        Some(
            SyncStatus::BranchMismatch {
                local_branch: string_from(local_branch),
                remote_branch: string_from(remote_branch),
            },
        )
    }
}

/// What is known of a local clone.
#[derive(Debug)]
pub struct LocalRepoInfo {
    pub path: String,
    pub current_branch: String,
    pub latest_commit: String,
    pub uncommitted_changes: bool,
}

/// The places where a clone of `repo_name` is looked for, in order: the current directory,
/// `../<name>`, `../../<name>`, then `projects`, `dev` and `code` under the home directory.
pub open spec fn candidate_paths(repo_name: Seq<char>, home: Seq<char>) -> Seq<Seq<char>> {
    seq![
        "."@,
        "../"@ + repo_name,
        "../../"@ + repo_name,
        home + "/projects/"@ + repo_name,
        home + "/dev/"@ + repo_name,
        home + "/code/"@ + repo_name,
    ]
}

/// The places where a clone of `repo_name` is looked for.
pub fn local_repo_candidates(repo_name: &str, home: &str) -> (r: Vec<String>)
    ensures
        r.deep_view() == candidate_paths(repo_name@, home@),
{
    let mut r: Vec<String> = Vec::new();
    r.push(string_from("."));
    let mut p = string_from("../");
    push_str(&mut p, repo_name);
    r.push(p);
    let mut p = string_from("../../");
    push_str(&mut p, repo_name);
    r.push(p);
    let mut p = string_from(home);
    push_str(&mut p, "/projects/");
    push_str(&mut p, repo_name);
    r.push(p);
    let mut p = string_from(home);
    push_str(&mut p, "/dev/");
    push_str(&mut p, repo_name);
    r.push(p);
    let mut p = string_from(home);
    push_str(&mut p, "/code/");
    push_str(&mut p, repo_name);
    r.push(p);
    assert(r.deep_view() =~= candidate_paths(repo_name@, home@));
    r
}

/// The repository on GitHub that a local clone named `name` is: its name is `name`, or its
/// `owner/name` contains `name`.
pub open spec fn names_repo(r: RepositoryInfo, name: Seq<char>) -> bool {
    r.name@ == name || contains_seq(r.name_with_owner@, name)
}

/// The first repository of the list that a clone named `name` is (see `names_repo`);
/// `None` when there is none.
pub fn matching_repo(repos: &Vec<RepositoryInfo>, name: &str) -> (r: Option<usize>)
    ensures
        match r {
            Some(i) => i < repos.len() && names_repo(repos@[i as int], name@) && forall|j: int|
                0 <= j < i ==> !names_repo(#[trigger] repos@[j], name@),
            None => forall|j: int| 0 <= j < repos.len() ==> !names_repo(#[trigger] repos@[j], name@),
        },
{
    let mut i: usize = 0;
    while i < repos.len()
        invariant
            i <= repos.len(),
            forall|j: int| 0 <= j < i ==> !names_repo(#[trigger] repos@[j], name@),
        decreases repos.len() - i,
    {
        if str_eq(repos[i].name.as_str(), name) || str_contains(repos[i].name_with_owner.as_str(), name) {
            return Some(i);
        }
        i += 1;
    }
    None
}

/// The status names the side that has the extra commits: commits only on the local
/// branch make it `LocalAhead` by that many, commits only on the remote make it
/// `RemoteAhead` by that many, none on either side is `InSync`, and any other pair
/// (commits on both sides) makes it `Diverged` with both counts.
pub proof fn law_status_names_the_side_ahead(local_ahead: i32, remote_ahead: i32)
    ensures
        local_ahead > 0 && remote_ahead == 0 ==> status_from_counts(local_ahead, remote_ahead)
            == (SyncStatus::LocalAhead { commits: local_ahead }),
        local_ahead == 0 && remote_ahead > 0 ==> status_from_counts(local_ahead, remote_ahead)
            == (SyncStatus::RemoteAhead { commits: remote_ahead }),
        local_ahead == 0 && remote_ahead == 0 ==> status_from_counts(local_ahead, remote_ahead) == SyncStatus::InSync,
        !(local_ahead == 0 && remote_ahead == 0) && !(local_ahead > 0 && remote_ahead == 0) && !(local_ahead == 0
            && remote_ahead > 0) ==> status_from_counts(local_ahead, remote_ahead) == (SyncStatus::Diverged {
            local_ahead,
            remote_ahead,
        }),
{
}

} // verus!
