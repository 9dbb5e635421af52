use vstd::prelude::*;

use crate::router::{rule, rule_text, show_date, shown_date};
use crate::text::{byte_prefix, contains_seq, cut_ok, i32_text, int_text, prefix_bytes, push_str, str_contains, str_eq, string_from};

verus! {

// ─── Finding the local repository on GitHub ─────────────────────────────────

/// A repository of the viewer, as GitHub lists it.
pub struct RemoteRepo {
    pub name: String,
    pub owner_login: String,
    pub name_with_owner: String,
}

/// Whether a listed repository is the local one: same name, or its "owner/name"
/// contains the local name.
pub open spec fn names_local(r: RemoteRepo, local: Seq<char>) -> bool {
    r.name@ == local || contains_seq(r.name_with_owner@, local)
}

/// The refusal when no listed repository is the local one.
pub open spec fn repo_not_found(local: Seq<char>) -> Seq<char> {
    "Repository '"@ + local + "' not found on GitHub."@
}

/// The first listed repository that is the local one (see `names_local`), by index;
/// or the refusal when there is none.
pub fn find_remote_repo(repos: &Vec<RemoteRepo>, local: &str) -> (r: Result<usize, String>)
    ensures
        match r {
            Ok(i) => i < repos.len() && names_local(repos@[i as int], local@) && forall|j: int|
                0 <= j < i ==> !names_local(#[trigger] repos@[j], local@),
            Err(e) => e@ == repo_not_found(local@) && forall|j: int|
                0 <= j < repos.len() ==> !names_local(#[trigger] repos@[j], local@),
        },
{
    let mut i: usize = 0;
    while i < repos.len()
        invariant
            i <= repos.len(),
            forall|j: int| 0 <= j < i ==> !names_local(#[trigger] repos@[j], local@),
        decreases repos.len() - i,
    {
        if str_eq(repos[i].name.as_str(), local) || str_contains(repos[i].name_with_owner.as_str(), local) {
            return Ok(i);
        }
        i += 1;
    }
    let mut e = string_from("Repository '");
    push_str(&mut e, local);
    push_str(&mut e, "' not found on GitHub.");
    Err(e)
}

// ─── Branches page ───────────────────────────────────────────────────────────

/// A branch and its last commit.
pub struct BranchNode {
    pub name: String,
    /// The id of the last commit.
    pub oid: String,
    /// When the last commit was made (RFC 3339), if known.
    pub committed_date: Option<String>,
    /// The name of its author, if known.
    pub author: Option<String>,
}

/// The branches of a repository.
pub struct BranchesPage {
    pub name_with_owner: String,
    pub total_count: i32,
    pub branches: Vec<BranchNode>,
}

/// The lines for one branch.
pub open spec fn branch_entry(b: BranchNode) -> Seq<char> {
    let date = match b.committed_date {
        Some(d) => shown_date(d@, "%Y-%m-%d %H:%M:%S"@, "N/A"@),
        None => "N/A"@,
    };
    let author = match b.author {
        Some(a) => a@,
        None => "unknown"@,
    };
    "\n🌿 "@ + b.name@ + "\n   Commit: "@ + byte_prefix(b.oid@, 8) + "  Last commit: "@ + date
        + "\n   Author: "@ + author + "\n"@ + rule(60) + "\n"@
}

/// The entries for the branches, in order.
pub open spec fn branch_entries(bs: Seq<BranchNode>) -> Seq<char>
    decreases bs.len(),
{
    if bs.len() == 0 {
        Seq::empty()
    } else {
        branch_entries(bs.drop_last()) + branch_entry(bs.last())
    }
}

/// The page for `/branches`.
pub open spec fn branches_page(p: BranchesPage) -> Seq<char> {
    "Branches — "@ + p.name_with_owner@ + " (Total: "@ + int_text(p.total_count as int) + ")\n"@ + rule(60)
        + "\n"@ + branch_entries(p.branches@)
}

/// Every branch's commit id can be cut to its first eight bytes (hex ids always can).
pub open spec fn branch_ids_ok(p: BranchesPage) -> bool {
    forall|i: int| 0 <= i < p.branches@.len() ==> cut_ok(#[trigger] p.branches@[i].oid@, 8)
}

/// The lines for one branch (see `branch_entry`).
fn branch_text(b: &BranchNode) -> (r: String)
    requires
        cut_ok(b.oid@, 8),
    ensures
        r@ == branch_entry(*b),
{
    let date = match &b.committed_date {
        Some(d) => show_date(d.as_str(), "%Y-%m-%d %H:%M:%S", "N/A"),
        None => string_from("N/A"),
    };
    let mut out = string_from("\n🌿 ");
    push_str(&mut out, b.name.as_str());
    push_str(&mut out, "\n   Commit: ");
    push_str(&mut out, prefix_bytes(b.oid.as_str(), 8).as_str());
    push_str(&mut out, "  Last commit: ");
    push_str(&mut out, date.as_str());
    push_str(&mut out, "\n   Author: ");
    match &b.author {
        Some(a) => push_str(&mut out, a.as_str()),
        None => push_str(&mut out, "unknown"),
    }
    push_str(&mut out, "\n");
    push_str(&mut out, rule_text(60).as_str());
    push_str(&mut out, "\n");
    out
}

/// The page for `/branches` (see `branches_page`).
pub fn branches_text(p: &BranchesPage) -> (out: String)
    requires
        branch_ids_ok(*p),
    ensures
        out@ == branches_page(*p),
{
    let mut out = string_from("Branches — ");
    push_str(&mut out, p.name_with_owner.as_str());
    push_str(&mut out, " (Total: ");
    push_str(&mut out, i32_text(p.total_count).as_str());
    push_str(&mut out, ")\n");
    push_str(&mut out, rule_text(60).as_str());
    push_str(&mut out, "\n");
    let ghost head = out@;
    let bs = &p.branches;
    assert(bs@.take(0) =~= Seq::<BranchNode>::empty());
    assert(head + Seq::<char>::empty() =~= head);
    let mut i: usize = 0;
    while i < bs.len()
        invariant
            i <= bs.len(),
            bs@ == p.branches@,
            branch_ids_ok(*p),
            out@ == head + branch_entries(bs@.take(i as int)),
        decreases bs.len() - i,
    {
        assert(bs@.take(i + 1).drop_last() =~= bs@.take(i as int));
        let ghost before = out@;
        let frag = branch_text(&bs[i]);
        push_str(&mut out, frag.as_str());
        assert(head + branch_entries(bs@.take(i + 1)) =~= before + frag@);
        i += 1;
    }
    assert(bs@.take(bs.len() as int) =~= bs@);
    out
}

// ─── Issues page ─────────────────────────────────────────────────────────────

/// An open issue of the viewer.
pub struct IssueNode {
    pub number: i32,
    pub title: String,
    pub state: String,
    /// When it was opened (RFC 3339).
    pub created_at: String,
    /// The login of its author, if known.
    pub author: Option<String>,
    pub url: String,
}

/// The viewer's open issues.
pub struct IssuesPage {
    pub total_count: i32,
    pub issues: Vec<IssueNode>,
}

/// The lines for one issue; a date that does not parse is shown as it is.
pub open spec fn issue_entry(i: IssueNode) -> Seq<char> {
    let author = match i.author {
        Some(a) => a@,
        None => "unknown"@,
    };
    "\n📝 #"@ + int_text(i.number as int) + " — "@ + i.title@ + "\n   State: "@ + i.state@ + "  Created: "@
        + shown_date(i.created_at@, "%Y-%m-%d"@, i.created_at@) + "  Author: "@ + author + "\n   🔗 "@ + i.url@
        + "\n"@ + rule(60) + "\n"@
}

/// The entries for the issues, in order.
pub open spec fn issue_entries(is: Seq<IssueNode>) -> Seq<char>
    decreases is.len(),
{
    if is.len() == 0 {
        Seq::empty()
    } else {
        issue_entries(is.drop_last()) + issue_entry(is.last())
    }
}

/// The page for `/issues`.
pub open spec fn issues_page(p: IssuesPage) -> Seq<char> {
    let head = "Open Issues — Total: "@ + int_text(p.total_count as int) + "\n"@ + rule(60) + "\n"@;
    if p.issues@.len() == 0 {
        head + "\nNo open issues found.\n"@
    } else {
        head + issue_entries(p.issues@)
    }
}

/// The lines for one issue (see `issue_entry`).
fn issue_text(i: &IssueNode) -> (r: String)
    ensures
        r@ == issue_entry(*i),
{
    let mut out = string_from("\n📝 #");
    push_str(&mut out, i32_text(i.number).as_str());
    push_str(&mut out, " — ");
    push_str(&mut out, i.title.as_str());
    push_str(&mut out, "\n   State: ");
    push_str(&mut out, i.state.as_str());
    push_str(&mut out, "  Created: ");
    push_str(&mut out, show_date(i.created_at.as_str(), "%Y-%m-%d", i.created_at.as_str()).as_str());
    push_str(&mut out, "  Author: ");
    match &i.author {
        Some(a) => push_str(&mut out, a.as_str()),
        None => push_str(&mut out, "unknown"),
    }
    push_str(&mut out, "\n   🔗 ");
    push_str(&mut out, i.url.as_str());
    push_str(&mut out, "\n");
    push_str(&mut out, rule_text(60).as_str());
    push_str(&mut out, "\n");
    out
}

/// The page for `/issues` (see `issues_page`).
pub fn issues_text(p: &IssuesPage) -> (out: String)
    ensures
        out@ == issues_page(*p),
{
    let mut out = string_from("Open Issues — Total: ");
    push_str(&mut out, i32_text(p.total_count).as_str());
    push_str(&mut out, "\n");
    push_str(&mut out, rule_text(60).as_str());
    push_str(&mut out, "\n");
    let is = &p.issues;
    if is.len() == 0 {
        push_str(&mut out, "\nNo open issues found.\n");
        return out;
    }
    let ghost head = out@;
    assert(is@.take(0) =~= Seq::<IssueNode>::empty());
    assert(head + Seq::<char>::empty() =~= head);
    let mut k: usize = 0;
    while k < is.len()
        invariant
            k <= is.len(),
            is@ == p.issues@,
            out@ == head + issue_entries(is@.take(k as int)),
        decreases is.len() - k,
    {
        assert(is@.take(k + 1).drop_last() =~= is@.take(k as int));
        let ghost before = out@;
        let frag = issue_text(&is[k]);
        push_str(&mut out, frag.as_str());
        assert(head + issue_entries(is@.take(k + 1)) =~= before + frag@);
        k += 1;
    }
    assert(is@.take(is.len() as int) =~= is@);
    out
}

} // verus!
