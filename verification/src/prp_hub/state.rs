use vstd::prelude::*;

use crate::prp_hub::errors::PrpError;
use crate::text::{push_str, string_from};

verus! {

/// The state git reports for a repository.
#[derive(Debug, Clone)]
pub enum RepoStateKind {
    Clean,
    Merge,
    Rebase,
    RebaseInteractive,
    RebaseMerge,
    CherryPick,
    CherryPickSequence,
    /// Any other state, with the name git2 gives it.
    Other(String),
}

/// What the checks before a commit found out about one repository, in the order they are made.
/// A check after one that failed is not consulted.
#[derive(Debug, Clone)]
pub struct RepoFacts {
    /// Why the repository could not be opened, if it could not.
    pub open_error: Option<String>,
    /// Whether HEAD is detached; `None` when that could not be read.
    pub head_detached: Option<bool>,
    pub state: RepoStateKind,
    /// Why the status could not be read, if it could not.
    pub status_error: Option<String>,
    /// Some path is in conflict.
    pub has_conflicts: bool,
    /// Why HEAD could not be read, if it could not.
    pub head_error: Option<String>,
    /// Short name of the current branch ("" when it has none).
    pub branch_name: String,
    /// `refs/remotes/origin/<branch>` exists.
    pub upstream_exists: bool,
}

/// The name of the remote-tracking reference of a branch.
pub open spec fn remote_ref_text(branch: Seq<char>) -> Seq<char> {
    "refs/remotes/origin/"@ + branch
}

/// `refs/remotes/origin/<branch>`.
pub fn remote_ref_name(branch: &str) -> (r: String)
    ensures
        r@ == remote_ref_text(branch@),
{
    let mut r = string_from("refs/remotes/origin/");
    push_str(&mut r, branch);
    r
}

/// The error for an invalid state, as the fields of `PrpError::InvalidState`.
pub open spec fn invalid(repo: Seq<char>, reason: Seq<char>, fix: Seq<char>, e: PrpError) -> bool {
    e matches PrpError::InvalidState { repo: r, reason: re, fix: f } && r@ == repo && re@ == reason
        && f@ == fix
}

/// The outcome of validating a repository with the given name and facts.
pub open spec fn validation_outcome(name: Seq<char>, f: RepoFacts, r: Result<(), PrpError>) -> bool {
    if f.open_error is Some {
        r is Err && invalid(
            name,
            "Cannot open repository: "@ + f.open_error->0@,
            "Ensure the path is a valid git repository"@,
            r->Err_0,
        )
    } else if f.head_detached != Some(false) {
        r matches Err(PrpError::DetachedHead(n)) && n@ == name
    } else if !(f.state is Clean) {
        match f.state {
            RepoStateKind::Merge => r matches Err(PrpError::MergeConflict(n)) && n@ == name,
            RepoStateKind::Rebase | RepoStateKind::RebaseInteractive | RepoStateKind::RebaseMerge => r
                is Err && invalid(
                name,
                "Rebase in progress"@,
                "Complete or abort with `git rebase --abort`"@,
                r->Err_0,
            ),
            RepoStateKind::CherryPick | RepoStateKind::CherryPickSequence => r is Err && invalid(
                name,
                "Cherry-pick in progress"@,
                "Complete or abort with `git cherry-pick --abort`"@,
                r->Err_0,
            ),
            RepoStateKind::Other(s) => r is Err && invalid(
                name,
                "Repository in unexpected state: "@ + s@,
                "Run `git status` to inspect the repository"@,
                r->Err_0,
            ),
            RepoStateKind::Clean => false,
        }
    } else if f.status_error is Some {
        r is Err && invalid(
            name,
            "Cannot read status: "@ + f.status_error->0@,
            "Run `git status` to inspect"@,
            r->Err_0,
        )
    } else if f.has_conflicts {
        r matches Err(PrpError::UnmergedPaths(n)) && n@ == name
    } else if f.head_error is Some {
        r is Err && invalid(
            name,
            "Cannot read HEAD: "@ + f.head_error->0@,
            "Ensure you are on a branch"@,
            r->Err_0,
        )
    } else if !f.upstream_exists {
        r is Err && invalid(
            name,
            "No upstream tracking branch found for '"@ + f.branch_name@ + "'"@,
            "Run `git push --set-upstream origin "@ + f.branch_name@ + "` first"@,
            r->Err_0,
        )
    } else {
        r is Ok
    }
}

fn invalid_state(repo: &str, reason: String, fix: String) -> (e: PrpError)
    ensures
        invalid(repo@, reason@, fix@, e),
{
    PrpError::InvalidState { repo: string_from(repo), reason, fix }
}

fn prefixed(prefix: &str, rest: &str) -> (r: String)
    ensures
        r@ == prefix@ + rest@,
{
    let mut r = string_from(prefix);
    push_str(&mut r, rest);
    r
}

/// Decides whether a repository is ready for a commit: HEAD attached, no merge, rebase or
/// cherry-pick in progress, no conflicts, and an upstream branch on origin.
pub fn validate_repo_facts(name: &str, f: &RepoFacts) -> (r: Result<(), PrpError>)
    ensures
        validation_outcome(name@, *f, r),
{
    if let Some(e) = &f.open_error {
        return Err(
            invalid_state(
                name,
                prefixed("Cannot open repository: ", e.as_str()),
                string_from("Ensure the path is a valid git repository"),
            ),
        );
    }
    match f.head_detached {
        Some(false) => {},
        _ => {
            return Err(PrpError::DetachedHead(string_from(name)));
        },
    }
    match &f.state {
        RepoStateKind::Clean => {},
        RepoStateKind::Merge => {
            return Err(PrpError::MergeConflict(string_from(name)));
        },
        RepoStateKind::Rebase | RepoStateKind::RebaseInteractive | RepoStateKind::RebaseMerge => {
            return Err(
                invalid_state(
                    name,
                    string_from("Rebase in progress"),
                    string_from("Complete or abort with `git rebase --abort`"),
                ),
            );
        },
        RepoStateKind::CherryPick | RepoStateKind::CherryPickSequence => {
            return Err(
                invalid_state(
                    name,
                    string_from("Cherry-pick in progress"),
                    string_from("Complete or abort with `git cherry-pick --abort`"),
                ),
            );
        },
        RepoStateKind::Other(s) => {
            return Err(
                invalid_state(
                    name,
                    prefixed("Repository in unexpected state: ", s.as_str()),
                    string_from("Run `git status` to inspect the repository"),
                ),
            );
        },
    }
    if let Some(e) = &f.status_error {
        return Err(
            invalid_state(
                name,
                prefixed("Cannot read status: ", e.as_str()),
                string_from("Run `git status` to inspect"),
            ),
        );
    }
    if f.has_conflicts {
        return Err(PrpError::UnmergedPaths(string_from(name)));
    }
    if let Some(e) = &f.head_error {
        return Err(
            invalid_state(
                name,
                prefixed("Cannot read HEAD: ", e.as_str()),
                string_from("Ensure you are on a branch"),
            ),
        );
    }
    if !f.upstream_exists {
        let mut reason = string_from("No upstream tracking branch found for '");
        push_str(&mut reason, f.branch_name.as_str());
        push_str(&mut reason, "'");
        let mut fix = string_from("Run `git push --set-upstream origin ");
        push_str(&mut fix, f.branch_name.as_str());
        push_str(&mut fix, "` first");
        return Err(invalid_state(name, reason, fix));
    }
    Ok(())
}

} // verus!
