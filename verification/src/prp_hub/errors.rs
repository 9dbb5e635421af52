use vstd::prelude::*;

use crate::text::{push_str, string_from};

verus! {

/// What can go wrong in a poly-repo commit session.
#[derive(Debug)]
pub enum PrpError {
    DiscoveryError(String),
    InvalidState { repo: String, reason: String, fix: String },
    DetachedHead(String),
    MergeConflict(String),
    UnmergedPaths(String),
    CommitFailed { repo: String, reason: String },
    PushFailed { repo: String, stderr: String },
    RollbackFailed { repo: String, reason: String },
    NoRepositoriesFound,
}

/// The message shown for an error.
pub open spec fn error_text(e: PrpError) -> Seq<char> {
    match e {
        PrpError::DiscoveryError(msg) => "Discovery error: "@ + msg@,
        PrpError::InvalidState { repo, reason, fix } => "\n❌ Repository: "@ + repo@
            + "\n   Error: "@ + reason@ + "\n   Suggested Fix: "@ + fix@,
        PrpError::DetachedHead(repo) => "\n❌ Repository: "@ + repo@
            + "\n   Error: HEAD is detached\n   Suggested Fix: Run `git checkout <branch>`"@,
        PrpError::MergeConflict(repo) => "\n❌ Repository: "@ + repo@
            + "\n   Error: Merge in progress\n   Suggested Fix: Resolve conflicts and commit, or run `git merge --abort`"@,
        PrpError::UnmergedPaths(repo) => "\n❌ Repository: "@ + repo@
            + "\n   Error: Unresolved merge conflicts\n   Suggested Fix: Resolve all conflicts then `git add`"@,
        PrpError::CommitFailed { repo, reason } => "\n❌ Repository: "@ + repo@
            + "\n   Error: Commit failed — "@ + reason@
            + "\n   Suggested Fix: Check repository state with `git status`"@,
        PrpError::PushFailed { repo, stderr } => "\n❌ Repository: "@ + repo@
            + "\n   Error: Push failed\n   Output: "@ + stderr@
            + "\n   Suggested Fix: Check remote connection or run `git pull` first"@,
        PrpError::RollbackFailed { repo, reason } => "\n❌ Repository: "@ + repo@
            + " — Rollback failed: "@ + reason@,
        PrpError::NoRepositoriesFound => "❌ No git repositories found in the current directory."@,
    }
}

impl PrpError {
    /// The message shown for this error.
    pub fn to_string(&self) -> (r: String)
        ensures
            r@ == error_text(*self),
    {
        match self {
            PrpError::DiscoveryError(msg) => {
                let mut out = string_from("Discovery error: ");
                push_str(&mut out, msg.as_str());
                out
            },
            PrpError::InvalidState { repo, reason, fix } => {
                let mut out = string_from("\n❌ Repository: ");
                push_str(&mut out, repo.as_str());
                push_str(&mut out, "\n   Error: ");
                push_str(&mut out, reason.as_str());
                push_str(&mut out, "\n   Suggested Fix: ");
                push_str(&mut out, fix.as_str());
                out
            },
            PrpError::DetachedHead(repo) => {
                let mut out = string_from("\n❌ Repository: ");
                push_str(&mut out, repo.as_str());
                push_str(
                    &mut out,
                    "\n   Error: HEAD is detached\n   Suggested Fix: Run `git checkout <branch>`",
                );
                out
            },
            PrpError::MergeConflict(repo) => {
                let mut out = string_from("\n❌ Repository: ");
                push_str(&mut out, repo.as_str());
                push_str(
                    &mut out,
                    "\n   Error: Merge in progress\n   Suggested Fix: Resolve conflicts and commit, or run `git merge --abort`",
                );
                out
            },
            PrpError::UnmergedPaths(repo) => {
                let mut out = string_from("\n❌ Repository: ");
                push_str(&mut out, repo.as_str());
                push_str(
                    &mut out,
                    "\n   Error: Unresolved merge conflicts\n   Suggested Fix: Resolve all conflicts then `git add`",
                );
                out
            },
            PrpError::CommitFailed { repo, reason } => {
                let mut out = string_from("\n❌ Repository: ");
                push_str(&mut out, repo.as_str());
                push_str(&mut out, "\n   Error: Commit failed — ");
                push_str(&mut out, reason.as_str());
                push_str(&mut out, "\n   Suggested Fix: Check repository state with `git status`");
                out
            },
            PrpError::PushFailed { repo, stderr } => {
                let mut out = string_from("\n❌ Repository: ");
                push_str(&mut out, repo.as_str());
                push_str(&mut out, "\n   Error: Push failed\n   Output: ");
                push_str(&mut out, stderr.as_str());
                push_str(
                    &mut out,
                    "\n   Suggested Fix: Check remote connection or run `git pull` first",
                );
                out
            },
            PrpError::RollbackFailed { repo, reason } => {
                let mut out = string_from("\n❌ Repository: ");
                push_str(&mut out, repo.as_str());
                push_str(&mut out, " — Rollback failed: ");
                push_str(&mut out, reason.as_str());
                out
            },
            PrpError::NoRepositoriesFound => string_from(
                "❌ No git repositories found in the current directory.",
            ),
        }
    }
}

} // verus!
