use vstd::prelude::*;

use crate::router::{format_rfc3339, rfc3339_formatted, rule, rule_text};
use crate::text::{
    chars_lt, chars_of, decimal, lemma_text_lt_irreflexive, lemma_text_lt_total,
    lemma_text_lt_transitive, push_str, str_eq, string_from, text_lt, usize_text,
};

verus! {

/// The repository a workflow run belongs to.
pub struct RunRepository {
    pub full_name: String,
}

/// One run of a GitHub Actions workflow.
pub struct WorkflowRun {
    pub id: u64,
    pub name: String,
    pub head_branch: String,
    pub head_sha: String,
    pub status: String,
    pub conclusion: Option<String>,
    pub created_at: String,
    pub updated_at: String,
    pub html_url: String,
    pub repository: RunRepository,
}

/// A page of workflow runs as the REST API returns it.
pub struct WorkflowRunsResponse {
    pub total_count: i32,
    pub workflow_runs: Vec<WorkflowRun>,
}

// ─── Order ───────────────────────────────────────────────────────────────────

/// The position at which `x` goes into `t`, sorted newest first, when `x` came
/// before all of `t`'s runs: before the first run that is not newer.
pub open spec fn run_position(t: Seq<WorkflowRun>, x: WorkflowRun) -> int
    decreases t.len(),
{
    if t.len() == 0 {
        0
    } else if !text_lt(x.created_at@, t[0].created_at@) {
        0
    } else {
        1 + run_position(t.drop_first(), x)
    }
}

/// The runs sorted by creation time, newest first; runs created at the same time keep
/// their order.
pub open spec fn runs_newest_first(s: Seq<WorkflowRun>) -> Seq<WorkflowRun>
    decreases s.len(),
{
    if s.len() == 0 {
        s
    } else {
        let t = runs_newest_first(s.drop_first());
        t.insert(run_position(t, s[0]), s[0])
    }
}

/// Sorts runs gathered from several repositories newest first (see `runs_newest_first`).
pub fn sort_runs_newest_first(runs: Vec<WorkflowRun>) -> (r: Vec<WorkflowRun>)
    ensures
        r@ == runs_newest_first(runs@),
{
    let ghost orig = runs@;
    let mut rest = runs;
    let mut t: Vec<WorkflowRun> = Vec::new();
    assert(orig.skip(orig.len() as int) =~= Seq::<WorkflowRun>::empty());
    while rest.len() > 0
        invariant
            rest@ == orig.take(rest.len() as int),
            rest.len() <= orig.len(),
            t@ == runs_newest_first(orig.skip(rest.len() as int)),
        decreases rest.len(),
    {
        let ghost n = rest.len();
        let x = rest.pop().unwrap();
        assert(x == orig[n - 1]);
        assert(rest@ =~= orig.take(n - 1));
        assert(orig.skip(n - 1).drop_first() =~= orig.skip(n as int));
        assert(orig.skip(n - 1)[0] == x);
        let ghost tv = t@;
        let xd = chars_of(x.created_at.as_str());
        let mut k: usize = 0;
        assert(tv.skip(0) =~= tv);
        while k < t.len()
            invariant
                k <= t.len(),
                xd@ == x.created_at@,
                tv == t@,
                run_position(tv, x) == k + run_position(tv.skip(k as int), x),
            ensures
                k <= t.len(),
                tv == t@,
                run_position(tv, x) == k + run_position(tv.skip(k as int), x),
                k < t.len() ==> !text_lt(x.created_at@, tv[k as int].created_at@),
            decreases t.len() - k,
        {
            let newer = chars_lt(&xd, &chars_of(t[k].created_at.as_str()));
            if !newer {
                break;
            }
            assert(tv.skip(k as int)[0] == tv[k as int]);
            assert(tv.skip(k as int).drop_first() =~= tv.skip(k + 1));
            k += 1;
        }
        if k < t.len() {
            assert(tv.skip(k as int)[0] == tv[k as int]);
        } else {
            assert(tv.skip(k as int).len() == 0);
        }
        assert(run_position(tv, x) == k);
        t.insert(k, x);
    }
    assert(orig.skip(0) =~= orig);
    t
}

/// Each run was created no later than the one before it.
pub open spec fn created_newest_first(s: Seq<WorkflowRun>) -> bool {
    forall|i: int, j: int|
        0 <= i < j < s.len() ==> !text_lt(#[trigger] s[i].created_at@, #[trigger] s[j].created_at@)
}

proof fn lemma_run_position_props(t: Seq<WorkflowRun>, x: WorkflowRun)
    ensures
        0 <= run_position(t, x) <= t.len(),
        forall|i: int| 0 <= i < run_position(t, x) ==> text_lt(x.created_at@, #[trigger] t[i].created_at@),
        run_position(t, x) < t.len() ==> !text_lt(x.created_at@, t[run_position(t, x)].created_at@),
    decreases t.len(),
{
    if t.len() > 0 && text_lt(x.created_at@, t[0].created_at@) {
        lemma_run_position_props(t.drop_first(), x);
        assert forall|i: int| 0 <= i < run_position(t, x) implies text_lt(x.created_at@, #[trigger] t[i].created_at@) by {
            if i > 0 {
                assert(t[i] == t.drop_first()[i - 1]);
            }
        }
    }
}

/// Runs gathered from several repositories are listed newest first: in the order
/// `runs_newest_first` gives, no run is older than one after it, and none is lost.
pub proof fn law_runs_newest_first(s: Seq<WorkflowRun>)
    ensures
        created_newest_first(runs_newest_first(s)),
        runs_newest_first(s).to_multiset() == s.to_multiset(),
    decreases s.len(),
{
    broadcast use vstd::seq_lib::group_to_multiset_ensures;
    if s.len() > 0 {
        let t = runs_newest_first(s.drop_first());
        let x = s[0];
        law_runs_newest_first(s.drop_first());
        lemma_run_position_props(t, x);
        let p = run_position(t, x);
        let u = t.insert(p, x);
        vstd::seq_lib::to_multiset_insert(t, p, x);
        assert(s =~= seq![x] + s.drop_first());
        assert(s.to_multiset() =~= s.drop_first().to_multiset().insert(x)) by {
            vstd::seq_lib::to_multiset_insert(s.drop_first(), 0, x);
            assert(s.drop_first().insert(0, x) =~= s);
        }
        assert forall|i: int, j: int| 0 <= i < j < u.len() implies !text_lt(
            #[trigger] u[i].created_at@,
            #[trigger] u[j].created_at@,
        ) by {
            if j < p {
                assert(u[i] == t[i] && u[j] == t[j]);
            } else if j == p {
                assert(u[i] == t[i] && u[j] == x);
                if text_lt(t[i].created_at@, x.created_at@) {
                    lemma_text_lt_transitive(x.created_at@, t[i].created_at@, x.created_at@);
                    lemma_text_lt_irreflexive(x.created_at@);
                }
            } else if i > p {
                assert(u[i] == t[i - 1] && u[j] == t[j - 1]);
            } else if i < p {
                assert(u[i] == t[i] && u[j] == t[j - 1]);
            } else {
                assert(u[i] == x && u[j] == t[j - 1]);
                if text_lt(x.created_at@, t[j - 1].created_at@) && j - 1 != p {
                    if x.created_at@ == t[p].created_at@ {
                    } else {
                        lemma_text_lt_total(x.created_at@, t[p].created_at@);
                        lemma_text_lt_transitive(t[p].created_at@, x.created_at@, t[j - 1].created_at@);
                    }
                }
            }
        }
    }
}

// ─── Text ────────────────────────────────────────────────────────────────────

/// `n` equals signs.
pub open spec fn double_rule(n: nat) -> Seq<char> {
    Seq::new(n, |i: int| '=')
}

fn double_rule_text(n: usize) -> (r: String)
    ensures
        r@ == double_rule(n as nat),
{
    let mut r = String::new();
    let mut i: usize = 0;
    while i < n
        invariant
            i <= n,
            r@ == double_rule(i as nat),
        decreases n - i,
    {
        crate::text::push_char(&mut r, '=');
        assert(r@ =~= double_rule((i + 1) as nat));
        i += 1;
    }
    r
}

/// The icon of a run: its conclusion if it has one that is known, else its status.
pub open spec fn run_icon(conclusion: Option<Seq<char>>, status: Seq<char>) -> Seq<char> {
    if conclusion == Some("success"@) {
        "✅"@
    } else if conclusion == Some("failure"@) {
        "❌"@
    } else if conclusion == Some("cancelled"@) {
        "🚫"@
    } else if conclusion == Some("skipped"@) {
        "⏭️"@
    } else if status == "in_progress"@ {
        "🔄"@
    } else if status == "queued"@ {
        "⏳"@
    } else {
        "❓"@
    }
}

/// The icon of a run (see `run_icon`).
pub fn run_status_icon(conclusion: &Option<String>, status: &str) -> (r: &'static str)
    ensures
        r@ == run_icon(
            match conclusion {
                Some(c) => Some(c@),
                None => None,
            },
            status@,
        ),
{
    match conclusion {
        Some(s) => {
            if str_eq(s.as_str(), "success") {
                return "✅";
            } else if str_eq(s.as_str(), "failure") {
                return "❌";
            } else if str_eq(s.as_str(), "cancelled") {
                return "🚫";
            } else if str_eq(s.as_str(), "skipped") {
                return "⏭️";
            }
        },
        None => {},
    }
    if str_eq(status, "in_progress") {
        "🔄"
    } else if str_eq(status, "queued") {
        "⏳"
    } else {
        "❓"
    }
}

/// The block for one run: its icon and name, repository, branch, status, conclusion
/// where it has one, creation time where it reads as a date, link, and a rule.
pub open spec fn run_block(r: WorkflowRun) -> Seq<char> {
    let c = match r.conclusion {
        Some(c) => Some(c@),
        None => None,
    };
    "\n"@ + run_icon(c, r.status@) + " "@ + r.name@ + "\n"@ + "   Repository: "@
        + r.repository.full_name@ + "\n"@ + "   Branch: "@ + r.head_branch@ + "\n"@
        + "   Status: "@ + r.status@ + "\n"@ + (match c {
        Some(c) => "   Conclusion: "@ + c + "\n"@,
        None => Seq::empty(),
    }) + (match rfc3339_formatted(r.created_at@, "%Y-%m-%d %H:%M:%S"@) {
        Some(d) => "   Created: "@ + d + "\n"@,
        None => Seq::empty(),
    }) + "   🔗 "@ + r.html_url@ + "\n"@ + rule(80) + "\n"@
}

/// The blocks of the runs `rs`, one after the other.
pub open spec fn run_blocks(rs: Seq<WorkflowRun>) -> Seq<char>
    decreases rs.len(),
{
    if rs.len() == 0 {
        Seq::empty()
    } else {
        run_blocks(rs.drop_last()) + run_block(rs.last())
    }
}

/// How many of `n` runs are shown under an optional limit.
pub open spec fn shown_count(n: nat, limit: Option<usize>) -> nat {
    match limit {
        Some(l) => if (l as nat) < n {
            l as nat
        } else {
            n
        },
        None => n,
    }
}

/// The listing of workflow runs: a title between two double rules, then the first
/// `limit` runs (all without a limit), a note of how many more there are, and an
/// empty line; or, where there are none to show, a note saying so.
pub open spec fn runs_listing(runs: Seq<WorkflowRun>, limit: Option<usize>) -> Seq<char> {
    let k = shown_count(runs.len(), limit);
    let head = "\n"@ + double_rule(80) + "\n"@ + "⚡ GitHub Actions Workflow Runs\n"@ + double_rule(80)
        + "\n"@;
    if k == 0 {
        head + "No workflow runs found.\n"@
    } else {
        head + run_blocks(runs.take(k as int)) + (if limit is Some && runs.len() > k {
            "\n... and "@ + decimal((runs.len() - k) as nat) + " more runs\n"@
        } else {
            Seq::empty()
        }) + "\n"@
    }
}

fn run_block_text(r: &WorkflowRun) -> (s: String)
    ensures
        s@ == run_block(*r),
{
    let mut s = string_from("\n");
    push_str(&mut s, run_status_icon(&r.conclusion, r.status.as_str()));
    push_str(&mut s, " ");
    push_str(&mut s, r.name.as_str());
    push_str(&mut s, "\n");
    push_str(&mut s, "   Repository: ");
    push_str(&mut s, r.repository.full_name.as_str());
    push_str(&mut s, "\n");
    push_str(&mut s, "   Branch: ");
    push_str(&mut s, r.head_branch.as_str());
    push_str(&mut s, "\n");
    push_str(&mut s, "   Status: ");
    push_str(&mut s, r.status.as_str());
    push_str(&mut s, "\n");
    let ghost before_c = s@;
    match &r.conclusion {
        Some(c) => {
            push_str(&mut s, "   Conclusion: ");
            push_str(&mut s, c.as_str());
            push_str(&mut s, "\n");
        },
        None => {},
    }
    let ghost before_d = s@;
    match format_rfc3339(r.created_at.as_str(), "%Y-%m-%d %H:%M:%S") {
        Some(d) => {
            push_str(&mut s, "   Created: ");
            push_str(&mut s, d.as_str());
            push_str(&mut s, "\n");
        },
        None => {},
    }
    push_str(&mut s, "   🔗 ");
    push_str(&mut s, r.html_url.as_str());
    push_str(&mut s, "\n");
    push_str(&mut s, rule_text(80).as_str());
    push_str(&mut s, "\n");
    assert(s@ =~= run_block(*r));
    s
}

/// The listing of workflow runs (see `runs_listing`).
pub fn workflow_runs_text(runs: &Vec<WorkflowRun>, limit: Option<usize>) -> (s: String)
    ensures
        s@ == runs_listing(runs@, limit),
{
    let k: usize = match limit {
        Some(l) => if l < runs.len() {
            l
        } else {
            runs.len()
        },
        None => runs.len(),
    };
    let mut s = string_from("\n");
    push_str(&mut s, double_rule_text(80).as_str());
    push_str(&mut s, "\n");
    push_str(&mut s, "⚡ GitHub Actions Workflow Runs\n");
    push_str(&mut s, double_rule_text(80).as_str());
    push_str(&mut s, "\n");
    if k == 0 {
        push_str(&mut s, "No workflow runs found.\n");
        return s;
    }
    let ghost head = s@;
    let mut i: usize = 0;
    assert(runs@.take(0) =~= Seq::<WorkflowRun>::empty());
    assert(s@ =~= head + run_blocks(runs@.take(0)));
    while i < k
        invariant
            i <= k,
            k <= runs.len(),
            s@ == head + run_blocks(runs@.take(i as int)),
        decreases k - i,
    {
        assert(runs@.take(i + 1).drop_last() =~= runs@.take(i as int));
        push_str(&mut s, run_block_text(&runs[i]).as_str());
        i += 1;
    }
    if limit.is_some() && runs.len() > k {
        push_str(&mut s, "\n... and ");
        push_str(&mut s, usize_text(runs.len() - k).as_str());
        push_str(&mut s, " more runs\n");
    }
    push_str(&mut s, "\n");
    assert(s@ =~= runs_listing(runs@, limit));
    s
}

} // verus!
