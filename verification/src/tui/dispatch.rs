use vstd::prelude::*;

use crate::router::command_words;
use crate::scanner::ignore::{IgnoreDatabase, IgnoredItemView};
use crate::scanner::report::Finding;
use crate::text::{chars_of, string_from, trim_start_matches_chars};
use crate::tui::app::{outputs_view, App, LineView, OutputBlock, OutputKind};
use crate::tui::styled::Rgb;
use crate::tui::suggest::first_word_of;

verus! {

// ─── What to do with a command that the line accepted ────────────────────────

/// What running an accepted slash command takes.
pub enum PendingAction {
    OpenPlanner,
    OpenAuth,
    /// Show the list of commit groups.
    PrpList,
    /// Open the commit session on the repositories found.
    PrpStart,
    OpenIgnored,
    ScanHistory,
    ScanDirectory,
    /// Empty the output history.
    Clear,
    Quit,
    /// Show the help page.
    Help,
    /// Open the multi-repository sync view.
    MultiSync,
    /// Run this command in the background; its result opens an info page.
    Background(String),
    /// Run the command line in the background; its result goes to the output.
    Execute(String),
}

/// The commands whose results open an info page.
pub open spec fn page_command(w: Seq<char>) -> bool {
    w == "show-activity"@ || w == "commits"@ || w == "pull-requests"@ || w == "repo-sync"@
        || w == "push-check"@ || w == "push-verify"@ || w == "branches"@ || w == "issues"@
        || w == "user-info"@
}

/// The action for an accepted command line whose first two words are `root` and `sub`.
pub open spec fn action_for(a: PendingAction, cmd: Seq<char>, root: Seq<char>, sub: Seq<char>) -> bool {
    if root == "plan"@ {
        a is OpenPlanner
    } else if root == "auth"@ {
        a is OpenAuth
    } else if root == "prp"@ {
        if sub == "list"@ {
            a is PrpList
        } else {
            a is PrpStart
        }
    } else if root == "scan"@ {
        if sub == "ignored"@ || sub == "--manage-ignored"@ {
            a is OpenIgnored
        } else if sub == "history"@ {
            a is ScanHistory
        } else {
            a is ScanDirectory
        }
    } else if root == "clear"@ {
        a is Clear
    } else if root == "quit"@ {
        a is Quit
    } else if root == "help"@ {
        a is Help
    } else if root == "multi-sync"@ {
        a is MultiSync
    } else if page_command(root) {
        a matches PendingAction::Background(n) && n@ == root
    } else {
        a matches PendingAction::Execute(c) && c@ == cmd
    }
}

/// Whether `a` holds the text of the literal `b`.
fn is_word(a: &Vec<char>, b: &str) -> (r: bool)
    ensures
        r == (a@ == b@),
{
    crate::text::chars_eq(a, &chars_of(b))
}

/// What running an accepted command line takes (see `action_for`).
pub fn pending_action(cmd: &str) -> (a: PendingAction)
    ensures
        action_for(a, cmd@, command_words(cmd@).0, command_words(cmd@).1),
{
    let input = trim_start_matches_chars(&chars_of(cmd), &chars_of("/"));
    let root = first_word_of(&input);
    let sub = first_word_of(&crate::router::after_first_word_chars(&input));
    if is_word(&root, "plan") {
        PendingAction::OpenPlanner
    } else if is_word(&root, "auth") {
        PendingAction::OpenAuth
    } else if is_word(&root, "prp") {
        if is_word(&sub, "list") {
            PendingAction::PrpList
        } else {
            PendingAction::PrpStart
        }
    } else if is_word(&root, "scan") {
        if is_word(&sub, "ignored") || is_word(&sub, "--manage-ignored") {
            PendingAction::OpenIgnored
        } else if is_word(&sub, "history") {
            PendingAction::ScanHistory
        } else {
            PendingAction::ScanDirectory
        }
    } else if is_word(&root, "clear") {
        PendingAction::Clear
    } else if is_word(&root, "quit") {
        PendingAction::Quit
    } else if is_word(&root, "help") {
        PendingAction::Help
    } else if is_word(&root, "multi-sync") {
        PendingAction::MultiSync
    } else if is_word(&root, "show-activity") || is_word(&root, "commits") || is_word(
        &root,
        "pull-requests",
    ) || is_word(&root, "repo-sync") || is_word(&root, "push-check") || is_word(
        &root,
        "push-verify",
    ) || is_word(&root, "branches") || is_word(&root, "issues") || is_word(&root, "user-info") {
        PendingAction::Background(crate::text::string_of(&root))
    } else {
        PendingAction::Execute(string_from(cmd))
    }
}

/// The note shown in the output when an action starts, if it has one.
pub open spec fn action_note(a: PendingAction) -> Option<Seq<char>> {
    match a {
        PendingAction::OpenPlanner => Some("Opening task planner…"@),
        PendingAction::OpenAuth => Some("Opening GitHub auth…"@),
        PendingAction::PrpStart => Some("Opening poly-repo commit session…"@),
        PendingAction::OpenIgnored => Some("Opening ignored findings…"@),
        PendingAction::ScanHistory => Some("Scanning git history…"@),
        PendingAction::ScanDirectory => Some("Scanning working directory…"@),
        PendingAction::MultiSync => Some("Opening multi-repo sync…"@),
        _ => None,
    }
}

/// The note shown in the output when an action starts (see `action_note`).
pub fn note_for(a: &PendingAction) -> (r: Option<String>)
    ensures
        match action_note(*a) {
            Some(t) => r is Some && r.unwrap()@ == t,
            None => r is None,
        },
{
    match a {
        PendingAction::OpenPlanner => Some(string_from("Opening task planner…")),
        PendingAction::OpenAuth => Some(string_from("Opening GitHub auth…")),
        PendingAction::PrpStart => Some(string_from("Opening poly-repo commit session…")),
        PendingAction::OpenIgnored => Some(string_from("Opening ignored findings…")),
        PendingAction::ScanHistory => Some(string_from("Scanning git history…")),
        PendingAction::ScanDirectory => Some(string_from("Scanning working directory…")),
        PendingAction::MultiSync => Some(string_from("Opening multi-repo sync…")),
        _ => None,
    }
}

// ─── Info pages ──────────────────────────────────────────────────────────────

/// The title and accent colour of the info page for a command.
pub open spec fn page_meta(cmd: Seq<char>) -> (Seq<char>, Rgb) {
    if cmd == "show-activity"@ {
        ("📊 GitHub Activity"@, Rgb { r: 80, g: 180, b: 120 })
    } else if cmd == "commits"@ {
        ("💾 Recent Commits"@, Rgb { r: 100, g: 149, b: 237 })
    } else if cmd == "pull-requests"@ {
        ("🔀 Pull Requests"@, Rgb { r: 180, g: 120, b: 220 })
    } else if cmd == "repo-sync"@ {
        ("🔍 Repository Sync"@, Rgb { r: 100, g: 180, b: 200 })
    } else if cmd == "multi-sync"@ {
        ("📦 Multi-Repo Sync"@, Rgb { r: 100, g: 180, b: 200 })
    } else if cmd == "push-check"@ {
        ("✅ Push Check"@, Rgb { r: 80, g: 180, b: 120 })
    } else if cmd == "push-verify"@ {
        ("🚀 Push Verify"@, Rgb { r: 80, g: 180, b: 120 })
    } else if cmd == "branches"@ {
        ("🌿 Branches"@, Rgb { r: 120, g: 200, b: 100 })
    } else if cmd == "issues"@ {
        ("📝 Issues"@, Rgb { r: 230, g: 160, b: 60 })
    } else if cmd == "user-info"@ {
        ("👤 User Info"@, Rgb { r: 100, g: 149, b: 237 })
    } else {
        ("  "@ + cmd, Rgb { r: 100, g: 149, b: 237 })
    }
}

/// The title and accent colour of the info page for a command (see `page_meta`).
pub fn overlay_meta(cmd: &str) -> (r: (String, Rgb))
    ensures
        (r.0@, r.1) == page_meta(cmd@),
{
    let c = chars_of(cmd);
    if is_word(&c, "show-activity") {
        (string_from("📊 GitHub Activity"), Rgb { r: 80, g: 180, b: 120 })
    } else if is_word(&c, "commits") {
        (string_from("💾 Recent Commits"), Rgb { r: 100, g: 149, b: 237 })
    } else if is_word(&c, "pull-requests") {
        (string_from("🔀 Pull Requests"), Rgb { r: 180, g: 120, b: 220 })
    } else if is_word(&c, "repo-sync") {
        (string_from("🔍 Repository Sync"), Rgb { r: 100, g: 180, b: 200 })
    } else if is_word(&c, "multi-sync") {
        (string_from("📦 Multi-Repo Sync"), Rgb { r: 100, g: 180, b: 200 })
    } else if is_word(&c, "push-check") {
        (string_from("✅ Push Check"), Rgb { r: 80, g: 180, b: 120 })
    } else if is_word(&c, "push-verify") {
        (string_from("🚀 Push Verify"), Rgb { r: 80, g: 180, b: 120 })
    } else if is_word(&c, "branches") {
        (string_from("🌿 Branches"), Rgb { r: 120, g: 200, b: 100 })
    } else if is_word(&c, "issues") {
        (string_from("📝 Issues"), Rgb { r: 230, g: 160, b: 60 })
    } else if is_word(&c, "user-info") {
        (string_from("👤 User Info"), Rgb { r: 100, g: 149, b: 237 })
    } else {
        let mut t = string_from("  ");
        crate::text::push_str(&mut t, cmd);
        (t, Rgb { r: 100, g: 149, b: 237 })
    }
}

/// Whether a finished command's result opens an info page: it is one of the page
/// commands and did not fail.
pub fn opens_page(cmd: &str, output: &OutputBlock) -> (b: bool)
    ensures
        b == (page_command(cmd@) && output.kind != OutputKind::Error),
{
    let c = chars_of(cmd);
    let page = is_word(&c, "show-activity") || is_word(&c, "commits") || is_word(
        &c,
        "pull-requests",
    ) || is_word(&c, "repo-sync") || is_word(&c, "push-check") || is_word(&c, "push-verify")
        || is_word(&c, "branches") || is_word(&c, "issues") || is_word(&c, "user-info");
    page && output.kind != OutputKind::Error
}

// ─── Findings already ignored ────────────────────────────────────────────────

/// The findings whose fingerprint is not in the ignore list, in order.
pub open spec fn unignored(fs: Seq<Finding>, ignored: Seq<IgnoredItemView>) -> Seq<Finding>
    decreases fs.len(),
{
    if fs.len() == 0 {
        Seq::empty()
    } else {
        let r = unignored(fs.drop_last(), ignored);
        if exists|i: int| 0 <= i < ignored.len() && #[trigger] ignored[i].fingerprint
            == fs.last().fingerprint@ {
            r
        } else {
            r.push(fs.last())
        }
    }
}

/// Whether the database ignores a fingerprint.
fn is_ignored(db: &IgnoreDatabase, fp: &String) -> (b: bool)
    ensures
        b == exists|i: int| 0 <= i < db.items().len() && #[trigger] db.items()[i].fingerprint == fp@,
{
    let mut i: usize = 0;
    while i < db.ignored.len()
        invariant
            i <= db.ignored.len(),
            forall|j: int| 0 <= j < i ==> db.items()[j].fingerprint != fp@,
        decreases db.ignored.len() - i,
    {
        if db.ignored[i].fingerprint == *fp {
            assert(db.items()[i as int].fingerprint == fp@);
            return true;
        }
        i += 1;
    }
    false
}

/// The findings that the ignore database does not ignore, in order.
pub fn without_ignored(findings: Vec<Finding>, db: &IgnoreDatabase) -> (r: Vec<Finding>)
    ensures
        r@ == unignored(findings@, db.items()),
{
    let ghost orig = findings@;
    let mut findings = findings;
    let mut r: Vec<Finding> = Vec::new();
    let mut i: usize = 0;
    while i < findings.len()
        invariant
            i <= findings.len(),
            findings.len() == orig.len(),
            forall|j: int| i <= j < orig.len() ==> findings@[j] == orig[j],
            r@ == unignored(orig.take(i as int), db.items()),
        decreases findings.len() - i,
    {
        assert(orig.take(i + 1).drop_last() =~= orig.take(i as int));
        if !is_ignored(db, &findings[i].fingerprint) {
            let mut f = Finding {
                secret_type: String::new(),
                file: String::new(),
                line: 0,
                column: 0,
                content: String::new(),
                fingerprint: String::new(),
                commit: None,
            };
            std::mem::swap(&mut f, &mut findings[i]);
            r.push(f);
        }
        i += 1;
    }
    assert(orig.take(orig.len() as int) =~= orig);
    r
}

/// A finding is dropped exactly when some item of the ignore database, wherever it
/// stands in the list, has its fingerprint; every other finding is kept, in order. In
/// particular no finding that is kept has the fingerprint of any ignored item.
pub proof fn law_unignored_drops_exactly_the_ignored(fs: Seq<Finding>, ignored: Seq<IgnoredItemView>)
    ensures
        unignored(fs, ignored) == fs.filter(
            |f: Finding| forall|i: int| 0 <= i < ignored.len() ==> #[trigger] ignored[i].fingerprint != f.fingerprint@,
        ),
        forall|k: int, i: int|
            0 <= k < unignored(fs, ignored).len() && 0 <= i < ignored.len() ==> #[trigger] ignored[i].fingerprint
                != #[trigger] unignored(fs, ignored)[k].fingerprint@,
    decreases fs.len(),
{
    let p = |f: Finding| forall|i: int| 0 <= i < ignored.len() ==> #[trigger] ignored[i].fingerprint != f.fingerprint@;
    if fs.len() > 0 {
        law_unignored_drops_exactly_the_ignored(fs.drop_last(), ignored);
        reveal(Seq::filter);
        let l = fs.last();
        if exists|i: int| 0 <= i < ignored.len() && #[trigger] ignored[i].fingerprint == l.fingerprint@ {
            let i = choose|i: int| 0 <= i < ignored.len() && #[trigger] ignored[i].fingerprint == l.fingerprint@;
            assert(!p(l));
        } else {
            assert(p(l));
        }
        assert(fs.filter(p) == (if p(l) { fs.drop_last().filter(p).push(l) } else { fs.drop_last().filter(p) }));
        assert(unignored(fs, ignored) == fs.filter(p));
    }
    let r = unignored(fs, ignored);
    assert forall|k: int, i: int| 0 <= k < r.len() && 0 <= i < ignored.len() implies #[trigger] ignored[i].fingerprint
        != #[trigger] r[k].fingerprint@ by {
        fs.lemma_filter_pred(p, k);
    }
}

} // verus!
