use std::fmt::Write;
use vstd::prelude::*;

use crate::text::{
    byte_prefix, char_count, chars_eq, chars_lt, copy_chars, lines_chars, text_lt, chars_of, cut_ok, decimal, is_whitespace, prefix_bytes,
    i32_text, int_text, push_char, u64_text, usize_text, is_ws, join_chars, join_seq, push_str, string_from,
    string_of,
    trim_start_matches_chars, trim_start_matches_seq, lemma_text_lt_irreflexive, starts_with_seq,
    lemma_text_lt_transitive,
};
use crate::github::graphql::{
    Commit, RepoSyncResponse, RepositoryWithCommits, UserCommitsResponse, ContributionDay, ContributionWeek, PullRequest, PullRequestsResponse, Review, UserActivity,
};
use crate::github::push_checker::{PreviewCommit, PushPreview, PushStatus};
use crate::github::sync_checker::{description_text, emoji_text, LocalRepoInfo, SyncStatus};
use crate::tui::app::{OutputBlock, OutputKind};
use crate::tui::overlays::first_line;
use crate::tui::suggest::{first_word, first_word_of};

verus! {

// ─── Yes/no cells ────────────────────────────────────────────────────────────

/// A yes/no cell where yes is good.
pub fn bool_icon(v: bool) -> (r: &'static str)
    ensures
        r@ == (if v { "✅ Yes"@ } else { "❌ No"@ }),
{
    if v {
        "✅ Yes"
    } else {
        "❌ No"
    }
}

/// A yes/no cell for a possible problem: `ok` means the problem is absent; its
/// presence is a warning.
pub fn bool_warn(ok: bool) -> (r: &'static str)
    ensures
        r@ == (if ok { "✅ No"@ } else { "⚠️  Yes"@ }),
{
    if ok {
        "✅ No"
    } else {
        "⚠️  Yes"
    }
}

/// A yes/no cell for a possible problem: `ok` means the problem is absent; its
/// presence is an error.
pub fn bool_err(ok: bool) -> (r: &'static str)
    ensures
        r@ == (if ok { "✅ No"@ } else { "❌ Yes"@ }),
{
    if ok {
        "✅ No"
    } else {
        "❌ Yes"
    }
}

// ─── Words of a command line ─────────────────────────────────────────────────

/// The text after its first word: leading white space and the word dropped.
pub open spec fn after_first_word(s: Seq<char>) -> Seq<char>
    decreases s.len(),
{
    if s.len() == 0 {
        s
    } else if is_ws(s[0]) {
        after_first_word(s.drop_first())
    } else {
        skip_word(s)
    }
}

/// The text after the word it starts with.
pub open spec fn skip_word(s: Seq<char>) -> Seq<char>
    decreases s.len(),
{
    if s.len() == 0 || is_ws(s[0]) {
        s
    } else {
        skip_word(s.drop_first())
    }
}

/// The second white-space separated word, or nothing.
pub open spec fn second_word(s: Seq<char>) -> Seq<char> {
    first_word(after_first_word(s))
}

/// The text after its first word (see `after_first_word`).
pub fn after_first_word_chars(s: &Vec<char>) -> (r: Vec<char>)
    ensures
        r@ == after_first_word(s@),
{
    let mut i: usize = 0;
    assert(s@.skip(0) =~= s@);
    while i < s.len() && is_whitespace(s[i])
        invariant
            i <= s.len(),
            after_first_word(s@) == after_first_word(s@.skip(i as int)),
        decreases s.len() - i,
    {
        assert(s@.skip(i as int).drop_first() =~= s@.skip(i + 1));
        i += 1;
    }
    assert(after_first_word(s@) == skip_word(s@.skip(i as int)));
    while i < s.len() && !is_whitespace(s[i])
        invariant
            i <= s.len(),
            after_first_word(s@) == skip_word(s@.skip(i as int)),
        decreases s.len() - i,
    {
        assert(s@.skip(i as int).drop_first() =~= s@.skip(i + 1));
        i += 1;
    }
    let mut r: Vec<char> = Vec::new();
    let start = i;
    while i < s.len()
        invariant
            start <= i <= s.len(),
            r@ == s@.subrange(start as int, i as int),
        decreases s.len() - i,
    {
        r.push(s[i]);
        assert(r@ =~= s@.subrange(start as int, i + 1));
        i += 1;
    }
    assert(r@ =~= s@.skip(start as int));
    r
}

// ─── Routes ──────────────────────────────────────────────────────────────────

/// What a slash command line asks for.
pub enum Route {
    Help,
    Quit,
    AuthLogin,
    AuthLogout,
    AuthStatus,
    /// `/auth` with a sub-command it does not know.
    AuthUnknown(String),
    ScanIgnored,
    ScanClear,
    ScanHistory,
    ScanDirectory,
    /// `/scan` with a sub-command it does not know.
    ScanUnknown(String),
    Plan,
    PrpList,
    PrpStart,
    /// `/prp` with a sub-command it does not know.
    PrpUnknown(String),
    ShowActivity,
    Commits,
    PullRequests,
    RepoSync,
    MultiSync,
    PushCheck,
    PushVerify,
    Branches,
    Issues,
    UserInfo,
    /// A command it does not know.
    Unknown(String),
}

/// The route for command word `cmd` and sub-command word `sub`.
pub open spec fn route_for(r: Route, cmd: Seq<char>, sub: Seq<char>) -> bool {
    if cmd == "help"@ {
        r is Help
    } else if cmd == "quit"@ {
        r is Quit
    } else if cmd == "auth"@ {
        if sub == "login"@ {
            r is AuthLogin
        } else if sub == "logout"@ {
            r is AuthLogout
        } else if sub == "status"@ || sub.len() == 0 {
            r is AuthStatus
        } else {
            r matches Route::AuthUnknown(s) && s@ == sub
        }
    } else if cmd == "scan"@ {
        if sub == "ignored"@ || sub == "--manage-ignored"@ {
            r is ScanIgnored
        } else if sub == "clear"@ {
            r is ScanClear
        } else if sub == "history"@ {
            r is ScanHistory
        } else if sub.len() == 0 {
            r is ScanDirectory
        } else {
            r matches Route::ScanUnknown(s) && s@ == sub
        }
    } else if cmd == "plan"@ {
        r is Plan
    } else if cmd == "prp"@ {
        if sub == "list"@ {
            r is PrpList
        } else if sub.len() == 0 {
            r is PrpStart
        } else {
            r matches Route::PrpUnknown(s) && s@ == sub
        }
    } else if cmd == "show-activity"@ {
        r is ShowActivity
    } else if cmd == "commits"@ {
        r is Commits
    } else if cmd == "pull-requests"@ {
        r is PullRequests
    } else if cmd == "repo-sync"@ {
        r is RepoSync
    } else if cmd == "multi-sync"@ {
        r is MultiSync
    } else if cmd == "push-check"@ {
        r is PushCheck
    } else if cmd == "push-verify"@ {
        r is PushVerify
    } else if cmd == "branches"@ {
        r is Branches
    } else if cmd == "issues"@ {
        r is Issues
    } else if cmd == "user-info"@ {
        r is UserInfo
    } else {
        r matches Route::Unknown(s) && s@ == cmd
    }
}

/// The words of a command line: the leading slashes dropped, then the first and second
/// white-space separated words.
pub open spec fn command_words(raw: Seq<char>) -> (Seq<char>, Seq<char>) {
    let input = trim_start_matches_seq(raw, "/"@);
    (first_word(input), second_word(input))
}

proof fn lemma_trimmed_has_no_prefix(s: Seq<char>, p: Seq<char>)
    requires
        p.len() > 0,
    ensures
        !starts_with_seq(trim_start_matches_seq(s, p), p),
    decreases s.len(),
{
    if starts_with_seq(s, p) {
        lemma_trimmed_has_no_prefix(s.skip(p.len() as int), p);
    }
}

/// Leading slashes do not matter: a command line, the same line with its leading
/// slashes taken off, and the same line with two more slashes in front have the same
/// command and sub-command words, so `parse_route` gives them the same route.
pub proof fn law_leading_slashes(raw: Seq<char>)
    ensures
        command_words(trim_start_matches_seq(raw, "/"@)) == command_words(raw),
        command_words(seq!['/', '/'] + raw) == command_words(raw),
{
    reveal_strlit("/");
    let p = "/"@;
    lemma_trimmed_has_no_prefix(raw, p);
    let t = trim_start_matches_seq(raw, p);
    assert(trim_start_matches_seq(t, p) == t);
    let two = seq!['/', '/'] + raw;
    assert(starts_with_seq(two, p)) by {
        assert(two.take(1) =~= p);
    }
    assert(two.skip(1) =~= seq!['/'] + raw);
    assert(starts_with_seq(seq!['/'] + raw, p)) by {
        assert((seq!['/'] + raw).take(1) =~= p);
    }
    assert((seq!['/'] + raw).skip(1) =~= raw);
    assert(trim_start_matches_seq(two, p) == trim_start_matches_seq(seq!['/'] + raw, p));
    assert(trim_start_matches_seq(seq!['/'] + raw, p) == trim_start_matches_seq(raw, p));
}

/// Whether `a` holds the text of the literal `b`.
fn is_word(a: &Vec<char>, b: &str) -> (r: bool)
    ensures
        r == (a@ == b@),
{
    chars_eq(a, &chars_of(b))
}

/// What a slash command line asks for (see `route_for`).
pub fn parse_route(raw: &str) -> (r: Route)
    ensures
        route_for(r, command_words(raw@).0, command_words(raw@).1),
{
    let input = trim_start_matches_chars(&chars_of(raw), &chars_of("/"));
    let cmd = first_word_of(&input);
    let sub = first_word_of(&after_first_word_chars(&input));
    if is_word(&cmd, "help") {
        Route::Help
    } else if is_word(&cmd, "quit") {
        Route::Quit
    } else if is_word(&cmd, "auth") {
        if is_word(&sub, "login") {
            Route::AuthLogin
        } else if is_word(&sub, "logout") {
            Route::AuthLogout
        } else if is_word(&sub, "status") || sub.len() == 0 {
            Route::AuthStatus
        } else {
            Route::AuthUnknown(string_of(&sub))
        }
    } else if is_word(&cmd, "scan") {
        if is_word(&sub, "ignored") || is_word(&sub, "--manage-ignored") {
            Route::ScanIgnored
        } else if is_word(&sub, "clear") {
            Route::ScanClear
        } else if is_word(&sub, "history") {
            Route::ScanHistory
        } else if sub.len() == 0 {
            Route::ScanDirectory
        } else {
            Route::ScanUnknown(string_of(&sub))
        }
    } else if is_word(&cmd, "plan") {
        Route::Plan
    } else if is_word(&cmd, "prp") {
        if is_word(&sub, "list") {
            Route::PrpList
        } else if sub.len() == 0 {
            Route::PrpStart
        } else {
            Route::PrpUnknown(string_of(&sub))
        }
    } else if is_word(&cmd, "show-activity") {
        Route::ShowActivity
    } else if is_word(&cmd, "commits") {
        Route::Commits
    } else if is_word(&cmd, "pull-requests") {
        Route::PullRequests
    } else if is_word(&cmd, "repo-sync") {
        Route::RepoSync
    } else if is_word(&cmd, "multi-sync") {
        Route::MultiSync
    } else if is_word(&cmd, "push-check") {
        Route::PushCheck
    } else if is_word(&cmd, "push-verify") {
        Route::PushVerify
    } else if is_word(&cmd, "branches") {
        Route::Branches
    } else if is_word(&cmd, "issues") {
        Route::Issues
    } else if is_word(&cmd, "user-info") {
        Route::UserInfo
    } else {
        Route::Unknown(string_of(&cmd))
    }
}


// ─── Replies that need no outside work ───────────────────────────────────────

/// The lines of the help text.
pub open spec fn help_lines() -> Seq<Seq<char>> {
    seq![
        "Available commands:"@,
        "  /auth              — Show authentication status"@,
        "  /auth login        — Login via GitHub OAuth"@,
        "  /auth logout       — Remove stored token"@,
        "  /auth status       — Show current auth status"@,
        "  /scan              — Scan working directory for secrets"@,
        "  /scan history      — Scan git history for secrets"@,
        "  /scan ignored      — Manage ignored findings"@,
        "  /plan              — Open task planner overlay"@,
        "  /prp               — Start a poly-repo commit session"@,
        "  /prp list          — List PRP session groups"@,
        "  /show-activity     — Show GitHub contribution activity"@,
        "  /commits           — Show 3 most recent commits globally"@,
        "  /pull-requests     — Show your open pull requests"@,
        "  /repo-sync         — Check sync status of current local repo"@,
        "  /multi-sync        — Check sync across your GitHub repos"@,
        "  /push-check        — Check if latest commit is pushed"@,
        "  /push-verify       — Verify push is possible + preview"@,
        "  /branches          — Show branches for current local repo"@,
        "  /issues            — Show your open issues"@,
        "  /user-info         — Show basic GitHub user info"@,
        "  /clear             — Clear output history"@,
        "  /quit              — Exit GitLink TUI"@,
        ""@,
        "  ↑↓ navigate suggestions   Tab autocomplete   Ctrl+C quit"@,
    ]
}

/// The help text: its lines joined by newlines.
pub fn help_text() -> (r: String)
    ensures
        r@ == join_seq(help_lines(), "\n"@),
{
    let mut pieces: Vec<Vec<char>> = Vec::new();
    pieces.push(chars_of("Available commands:"));
    pieces.push(chars_of("  /auth              — Show authentication status"));
    pieces.push(chars_of("  /auth login        — Login via GitHub OAuth"));
    pieces.push(chars_of("  /auth logout       — Remove stored token"));
    pieces.push(chars_of("  /auth status       — Show current auth status"));
    pieces.push(chars_of("  /scan              — Scan working directory for secrets"));
    pieces.push(chars_of("  /scan history      — Scan git history for secrets"));
    pieces.push(chars_of("  /scan ignored      — Manage ignored findings"));
    pieces.push(chars_of("  /plan              — Open task planner overlay"));
    pieces.push(chars_of("  /prp               — Start a poly-repo commit session"));
    pieces.push(chars_of("  /prp list          — List PRP session groups"));
    pieces.push(chars_of("  /show-activity     — Show GitHub contribution activity"));
    pieces.push(chars_of("  /commits           — Show 3 most recent commits globally"));
    pieces.push(chars_of("  /pull-requests     — Show your open pull requests"));
    pieces.push(chars_of("  /repo-sync         — Check sync status of current local repo"));
    pieces.push(chars_of("  /multi-sync        — Check sync across your GitHub repos"));
    pieces.push(chars_of("  /push-check        — Check if latest commit is pushed"));
    pieces.push(chars_of("  /push-verify       — Verify push is possible + preview"));
    pieces.push(chars_of("  /branches          — Show branches for current local repo"));
    pieces.push(chars_of("  /issues            — Show your open issues"));
    pieces.push(chars_of("  /user-info         — Show basic GitHub user info"));
    pieces.push(chars_of("  /clear             — Clear output history"));
    pieces.push(chars_of("  /quit              — Exit GitLink TUI"));
    pieces.push(chars_of(""));
    pieces.push(chars_of("  ↑↓ navigate suggestions   Tab autocomplete   Ctrl+C quit"));
    assert(pieces@.map_values(|l: Vec<char>| l@) =~= help_lines());
    let joined = join_chars(&pieces, &chars_of("\n"));
    string_of(&joined)
}

/// `a`, then `b`, then `c`.
fn concat3(a: &str, b: &str, c: &str) -> (r: String)
    ensures
        r@ == a@ + b@ + c@,
{
    let mut r = string_from(a);
    push_str(&mut r, b);
    push_str(&mut r, c);
    r
}

/// The block a route is answered with when it needs no outside work; `None` for the
/// routes that do.
pub open spec fn immediate_reply(r: Route) -> Option<(OutputKind, Seq<char>)> {
    match r {
        Route::Help => Some((OutputKind::Info, join_seq(help_lines(), "\n"@))),
        Route::Quit => Some((OutputKind::Info, "Press Ctrl+C to exit GitLink TUI."@)),
        Route::AuthUnknown(sub) => Some(
            (
                OutputKind::Error,
                "Unknown auth subcommand: '"@ + sub@
                    + "'. Try /auth login, /auth logout, or /auth status."@,
            ),
        ),
        Route::ScanIgnored => Some((OutputKind::Info, "OPEN_IGNORE_OVERLAY_SIGNAL"@)),
        Route::ScanHistory => Some((OutputKind::Info, "SCAN_HISTORY_SIGNAL"@)),
        Route::ScanDirectory => Some((OutputKind::Info, "Opening scanner overlay..."@)),
        Route::ScanUnknown(sub) => Some(
            (OutputKind::Error, "Unknown scan subcommand: '"@ + sub@ + "'. Try /scan ignored."@),
        ),
        Route::Plan => Some((OutputKind::Info, "Opening planner..."@)),
        Route::PrpUnknown(sub) => Some(
            (OutputKind::Error, "Unknown prp subcommand: '"@ + sub@ + "'. Try /prp or /prp list."@),
        ),
        Route::Unknown(cmd) => Some((OutputKind::Error, "Unknown command: /"@ + cmd@)),
        _ => None,
    }
}

/// The block a route is answered with when it needs no outside work (see
/// `immediate_reply`).
pub fn route_reply(r: &Route) -> (b: Option<OutputBlock>)
    ensures
        match immediate_reply(*r) {
            Some((kind, text)) => b is Some && b.unwrap().kind == kind && b.unwrap().content@ == text,
            None => b is None,
        },
{
    match r {
        Route::Help => Some(OutputBlock { kind: OutputKind::Info, content: help_text() }),
        Route::Quit => Some(
            OutputBlock {
                kind: OutputKind::Info,
                content: string_from("Press Ctrl+C to exit GitLink TUI."),
            },
        ),
        Route::AuthUnknown(sub) => Some(
            OutputBlock {
                kind: OutputKind::Error,
                content: concat3(
                    "Unknown auth subcommand: '",
                    sub.as_str(),
                    "'. Try /auth login, /auth logout, or /auth status.",
                ),
            },
        ),
        Route::ScanIgnored => Some(
            OutputBlock { kind: OutputKind::Info, content: string_from("OPEN_IGNORE_OVERLAY_SIGNAL") },
        ),
        Route::ScanHistory => Some(
            OutputBlock { kind: OutputKind::Info, content: string_from("SCAN_HISTORY_SIGNAL") },
        ),
        Route::ScanDirectory => Some(
            OutputBlock { kind: OutputKind::Info, content: string_from("Opening scanner overlay...") },
        ),
        Route::ScanUnknown(sub) => Some(
            OutputBlock {
                kind: OutputKind::Error,
                content: concat3("Unknown scan subcommand: '", sub.as_str(), "'. Try /scan ignored."),
            },
        ),
        Route::Plan => Some(
            OutputBlock { kind: OutputKind::Info, content: string_from("Opening planner...") },
        ),
        Route::PrpUnknown(sub) => Some(
            OutputBlock {
                kind: OutputKind::Error,
                content: concat3(
                    "Unknown prp subcommand: '",
                    sub.as_str(),
                    "'. Try /prp or /prp list.",
                ),
            },
        ),
        Route::Unknown(cmd) => {
            let mut content = string_from("Unknown command: /");
            push_str(&mut content, cmd.as_str());
            Some(OutputBlock { kind: OutputKind::Error, content })
        },
        _ => None,
    }
}

/// The block for the result of a command: its message on success, its error otherwise.
pub fn run_sync<F: FnOnce() -> Result<String, String>>(f: F) -> (b: OutputBlock)
    requires
        call_requires(f, ()),
    ensures
        exists|r: Result<String, String>| {
            &&& #[trigger] call_ensures(f, (), r)
            &&& match r {
                Ok(msg) => b.kind == OutputKind::Success && b.content@ == msg@,
                Err(e) => b.kind == OutputKind::Error && b.content@ == e@,
            }
        },
{
    let r = f();
    match r {
        Ok(msg) => OutputBlock { kind: OutputKind::Success, content: msg },
        Err(e) => OutputBlock { kind: OutputKind::Error, content: e },
    }
}


// ─── Push status pages ───────────────────────────────────────────────────────

/// `n` box-drawing horizontal lines.
pub open spec fn rule(n: nat) -> Seq<char> {
    Seq::new(n, |i: int| '─')
}

/// A rule of `n` box-drawing horizontal lines.
pub fn rule_text(n: usize) -> (r: String)
    ensures
        r@ == rule(n as nat),
{
    let mut r = String::new();
    let mut i: usize = 0;
    while i < n
        invariant
            i <= n,
            r@ == rule(i as nat),
        decreases n - i,
    {
        push_char(&mut r, '─');
        assert(r@ =~= rule((i + 1) as nat));
        i += 1;
    }
    r
}

/// `x` if `c` holds, nothing otherwise.
pub open spec fn when(c: bool, x: Seq<char>) -> Seq<char> {
    if c {
        x
    } else {
        Seq::empty()
    }
}

/// The six yes/no rows of a push status, under a section heading.
pub open spec fn push_rows(heading: Seq<char>, st: PushStatus) -> Seq<char> {
    "\n📊 "@ + heading + "\n\n   Can push:             "@ + (if st.can_push { "✅ Yes"@ } else { "❌ No"@ })
        + "\n   In sync:              "@ + (if st.is_synced { "✅ Yes"@ } else { "❌ No"@ })
        + "\n   Uncommitted changes:  "@ + (if !st.has_uncommitted_changes { "✅ No"@ } else { "⚠️  Yes"@ })
        + "\n   Unpushed commits:     "@ + (if !st.has_unpushed_commits { "✅ No"@ } else { "⚠️  Yes"@ })
        + "\n   Remote ahead:         "@ + (if !st.remote_ahead { "✅ No"@ } else { "⚠️  Yes"@ })
        + "\n   Conflicts:            "@ + (if !st.has_conflicts { "✅ No"@ } else { "❌ Yes"@ }) + "\n"@
}

/// The first lines of a push page: title, rule, and the status message.
pub open spec fn push_head(title: Seq<char>, branch: Seq<char>, st: PushStatus) -> Seq<char> {
    title + " — branch: "@ + branch + "\n"@ + rule(60) + "\n\n"@ + (if st.can_push { "✅"@ } else { "⚠️ "@ })
        + " "@ + st.message@ + "\n"@
}

/// The page for `/push-check`.
pub open spec fn push_check_page(branch: Seq<char>, st: PushStatus) -> Seq<char> {
    push_head("Push Status"@, branch, st) + when(
        st.local_commit@.len() > 0,
        "\n📌 Local commit:  "@ + byte_prefix(st.local_commit@, 8) + "\n"@,
    ) + when(
        st.remote_commit@.len() > 0,
        "🌐 Remote commit: "@ + byte_prefix(st.remote_commit@, 8) + "\n"@,
    ) + push_rows("Details"@, st) + "\n"@ + rule(60) + "\n"@
}

/// Appends `b` to `s` when `c` holds.
fn push_when(s: &mut String, c: bool, b: &str)
    ensures
        final(s)@ == old(s)@ + when(c, b@),
{
    if c {
        push_str(s, b);
    } else {
        assert(old(s)@ + when(c, b@) =~= old(s)@);
    }
}

/// The six yes/no rows of a push status (see `push_rows`).
fn push_rows_text(heading: &str, st: &PushStatus) -> (r: String)
    ensures
        r@ == push_rows(heading@, *st),
{
    let mut out = string_from("\n📊 ");
    push_str(&mut out, heading);
    push_str(&mut out, "\n\n   Can push:             ");
    push_str(&mut out, bool_icon(st.can_push));
    push_str(&mut out, "\n   In sync:              ");
    push_str(&mut out, bool_icon(st.is_synced));
    push_str(&mut out, "\n   Uncommitted changes:  ");
    push_str(&mut out, bool_warn(!st.has_uncommitted_changes));
    push_str(&mut out, "\n   Unpushed commits:     ");
    push_str(&mut out, bool_warn(!st.has_unpushed_commits));
    push_str(&mut out, "\n   Remote ahead:         ");
    push_str(&mut out, bool_warn(!st.remote_ahead));
    push_str(&mut out, "\n   Conflicts:            ");
    push_str(&mut out, bool_err(!st.has_conflicts));
    push_str(&mut out, "\n");
    out
}

/// The first lines of a push page (see `push_head`).
fn push_page_head(title: &str, branch: &str, st: &PushStatus) -> (r: String)
    ensures
        r@ == push_head(title@, branch@, *st),
{
    let mut out = string_from(title);
    push_str(&mut out, " — branch: ");
    push_str(&mut out, branch);
    push_str(&mut out, "\n");
    push_str(&mut out, rule_text(60).as_str());
    push_str(&mut out, "\n\n");
    push_str(&mut out, if st.can_push { "✅" } else { "⚠️ " });
    push_str(&mut out, " ");
    push_str(&mut out, st.message.as_str());
    push_str(&mut out, "\n");
    out
}

/// Whether a commit id can be shortened to its first eight bytes: it is empty or that
/// cut keeps every character whole (hex ids always can).
pub open spec fn shortenable(id: Seq<char>) -> bool {
    id.len() > 0 ==> cut_ok(id, 8)
}

/// The page for `/push-check` (see `push_check_page`).
pub fn push_check_text(branch: &str, st: &PushStatus) -> (r: String)
    requires
        shortenable(st.local_commit@),
        shortenable(st.remote_commit@),
    ensures
        r@ == push_check_page(branch@, *st),
{
    let mut out = push_page_head("Push Status", branch, st);
    let ghost a = out@;
    if char_count(st.local_commit.as_str()) > 0 {
        let mut frag = string_from("\n📌 Local commit:  ");
        push_str(&mut frag, prefix_bytes(st.local_commit.as_str(), 8).as_str());
        push_str(&mut frag, "\n");
        push_str(&mut out, frag.as_str());
    } else {
        assert(a + Seq::<char>::empty() =~= a);
    }
    let ghost b = out@;
    if char_count(st.remote_commit.as_str()) > 0 {
        let mut frag = string_from("🌐 Remote commit: ");
        push_str(&mut frag, prefix_bytes(st.remote_commit.as_str(), 8).as_str());
        push_str(&mut frag, "\n");
        push_str(&mut out, frag.as_str());
    } else {
        assert(b + Seq::<char>::empty() =~= b);
    }
    push_str(&mut out, push_rows_text("Details", st).as_str());
    push_str(&mut out, "\n");
    push_str(&mut out, rule_text(60).as_str());
    push_str(&mut out, "\n");
    out
}

/// The lines for one commit of a push preview.
pub open spec fn preview_commit_text(c: PreviewCommit) -> Seq<char> {
    "   🔑 "@ + c.short_id@ + "  💬 "@ + c.message@ + "\n      📊 "@ + decimal(c.files_changed as nat)
        + " files  +"@ + decimal(c.insertions as nat) + " -"@ + decimal(c.deletions as nat) + "\n\n"@
}

/// The lines for the commits of a push preview, in order.
pub open spec fn preview_commits_text(cs: Seq<PreviewCommit>) -> Seq<char>
    decreases cs.len(),
{
    if cs.len() == 0 {
        Seq::empty()
    } else {
        preview_commits_text(cs.drop_last()) + preview_commit_text(cs.last())
    }
}

/// The push preview section.
pub open spec fn preview_text(p: PushPreview) -> Seq<char> {
    "\n🚀 Push Preview — branch: "@ + p.branch@ + "\n"@ + rule(60) + "\n   Unpushed commits: "@
        + decimal(p.commits.len() as nat) + "\n\n"@ + preview_commits_text(p.commits@) + "   "@
        + rule(58) + "\n   TOTAL: "@ + decimal(p.total_files as nat) + " files  +"@ + decimal(
        p.total_insertions as nat,
    ) + " -"@ + decimal(p.total_deletions as nat) + "\n"@
}

/// What stands between the branch and a push.
pub open spec fn push_advice(st: PushStatus) -> Seq<char> {
    if st.can_push {
        "\n✅ You can safely push to this branch!\n"@
    } else {
        "\n⚠️  Action required before pushing:\n"@ + when(
            st.has_uncommitted_changes,
            "   • Commit your changes first\n"@,
        ) + when(st.remote_ahead, "   • Pull remote changes first (git pull)\n"@) + when(
            st.has_conflicts,
            "   • Resolve merge conflicts\n"@,
        )
    }
}

/// The page for `/push-verify`; `preview` is the push preview, if one could be made.
pub open spec fn push_verify_page(branch: Seq<char>, st: PushStatus, preview: Option<PushPreview>) -> Seq<char> {
    push_head("Push Verify"@, branch, st) + push_rows("Status"@, st) + (if st.has_unpushed_commits
        && preview is Some {
        preview_text(preview.unwrap())
    } else {
        Seq::empty()
    }) + push_advice(st) + "\n"@ + rule(60) + "\n"@
}

/// The lines for one commit of a push preview (see `preview_commit_text`).
fn preview_commit_fragment(c: &PreviewCommit) -> (r: String)
    ensures
        r@ == preview_commit_text(*c),
{
    let mut out = string_from("   🔑 ");
    push_str(&mut out, c.short_id.as_str());
    push_str(&mut out, "  💬 ");
    push_str(&mut out, c.message.as_str());
    push_str(&mut out, "\n      📊 ");
    push_str(&mut out, usize_text(c.files_changed).as_str());
    push_str(&mut out, " files  +");
    push_str(&mut out, usize_text(c.insertions).as_str());
    push_str(&mut out, " -");
    push_str(&mut out, usize_text(c.deletions).as_str());
    push_str(&mut out, "\n\n");
    out
}

/// The push preview section (see `preview_text`).
fn preview_section(p: &PushPreview) -> (r: String)
    ensures
        r@ == preview_text(*p),
{
    let mut out = string_from("\n🚀 Push Preview — branch: ");
    push_str(&mut out, p.branch.as_str());
    push_str(&mut out, "\n");
    push_str(&mut out, rule_text(60).as_str());
    push_str(&mut out, "\n   Unpushed commits: ");
    push_str(&mut out, usize_text(p.commits.len()).as_str());
    push_str(&mut out, "\n\n");
    let ghost mid = out@;
    assert(p.commits@.take(0) =~= Seq::<PreviewCommit>::empty());
    assert(mid + Seq::<char>::empty() =~= mid);
    let mut i: usize = 0;
    while i < p.commits.len()
        invariant
            i <= p.commits.len(),
            out@ == mid + preview_commits_text(p.commits@.take(i as int)),
        decreases p.commits.len() - i,
    {
        let frag = preview_commit_fragment(&p.commits[i]);
        let ghost before = out@;
        push_str(&mut out, frag.as_str());
        assert(p.commits@.take(i + 1).drop_last() =~= p.commits@.take(i as int));
        assert(mid + preview_commits_text(p.commits@.take(i + 1)) =~= before + frag@);
        i += 1;
    }
    assert(p.commits@.take(p.commits.len() as int) =~= p.commits@);
    push_str(&mut out, "   ");
    push_str(&mut out, rule_text(58).as_str());
    push_str(&mut out, "\n   TOTAL: ");
    push_str(&mut out, usize_text(p.total_files).as_str());
    push_str(&mut out, " files  +");
    push_str(&mut out, usize_text(p.total_insertions).as_str());
    push_str(&mut out, " -");
    push_str(&mut out, usize_text(p.total_deletions).as_str());
    push_str(&mut out, "\n");
    out
}

/// What stands between the branch and a push (see `push_advice`).
fn push_advice_text(st: &PushStatus) -> (r: String)
    ensures
        r@ == push_advice(*st),
{
    if st.can_push {
        string_from("\n✅ You can safely push to this branch!\n")
    } else {
        let mut out = string_from("\n⚠️  Action required before pushing:\n");
        push_when(&mut out, st.has_uncommitted_changes, "   • Commit your changes first\n");
        push_when(&mut out, st.remote_ahead, "   • Pull remote changes first (git pull)\n");
        push_when(&mut out, st.has_conflicts, "   • Resolve merge conflicts\n");
        out
    }
}

/// The page for `/push-verify` (see `push_verify_page`).
pub fn push_verify_text(branch: &str, st: &PushStatus, preview: Option<&PushPreview>) -> (r: String)
    ensures
        r@ == push_verify_page(branch@, *st, match preview {
            Some(p) => Some(*p),
            None => None,
        }),
{
    let mut out = push_page_head("Push Verify", branch, st);
    push_str(&mut out, push_rows_text("Status", st).as_str());
    let ghost a = out@;
    let mut shown = false;
    if st.has_unpushed_commits {
        if let Some(p) = preview {
            push_str(&mut out, preview_section(p).as_str());
            shown = true;
        }
    }
    if !shown {
        assert(a + Seq::<char>::empty() =~= a);
    }
    push_str(&mut out, push_advice_text(st).as_str());
    push_str(&mut out, "\n");
    push_str(&mut out, rule_text(60).as_str());
    push_str(&mut out, "\n");
    out
}


// ─── Dates ───────────────────────────────────────────────────────────────────

/// What `chrono::DateTime::parse_from_rfc3339(text)` followed by `format(fmt)` gives,
/// or `None` when the text is not an RFC 3339 date or the pattern cannot be formatted.
pub uninterp spec fn rfc3339_formatted(text: Seq<char>, fmt: Seq<char>) -> Option<Seq<char>>;

/// `chrono::DateTime::parse_from_rfc3339`, then `format` with a strftime pattern, written
/// into a string. A pattern with an unknown or unfinished specifier makes the formatting
/// fail, which gives `None` as a text that does not parse does. The result depends on the
/// two texts alone (the offset comes from the text, not from the machine); it is named,
/// not described.
#[verifier::external_body]
pub(crate) fn format_rfc3339(text: &str, fmt: &str) -> (r: Option<String>)
    ensures
        match r {
            Some(s) => rfc3339_formatted(text@, fmt@) == Some(s@),
            None => rfc3339_formatted(text@, fmt@) is None,
        },
{
    match chrono::DateTime::parse_from_rfc3339(text) {
        Ok(dt) => {
            let mut s = String::new();
            match write!(s, "{}", dt.format(fmt)) {
                Ok(()) => Some(s),
                Err(_) => None,
            }
        },
        Err(_) => None,
    }
}

/// A date as a page shows it: formatted with `fmt` if it parses, else `fallback`.
pub open spec fn shown_date(text: Seq<char>, fmt: Seq<char>, fallback: Seq<char>) -> Seq<char> {
    match rfc3339_formatted(text, fmt) {
        Some(s) => s,
        None => fallback,
    }
}

/// A date as a page shows it (see `shown_date`).
pub fn show_date(text: &str, fmt: &str, fallback: &str) -> (r: String)
    ensures
        r@ == shown_date(text@, fmt@, fallback@),
{
    match format_rfc3339(text, fmt) {
        Some(s) => s,
        None => string_from(fallback),
    }
}

// ─── User info page ──────────────────────────────────────────────────────────

/// The profile fields the user-info page shows.
pub struct GitHubUser {
    pub login: String,
    pub name: Option<String>,
    pub public_repos: u32,
    pub followers: Option<u32>,
    pub following: Option<u32>,
    pub company: Option<String>,
    pub location: Option<String>,
    pub bio: Option<String>,
    pub created_at: Option<String>,
}

/// An optional text, or "N/A".
pub open spec fn or_na(o: Option<String>) -> Seq<char> {
    match o {
        Some(s) => s@,
        None => "N/A"@,
    }
}

/// An optional count, or 0.
pub open spec fn or_zero(o: Option<u32>) -> nat {
    match o {
        Some(n) => n as nat,
        None => 0,
    }
}

/// The page for `/user-info`.
pub open spec fn user_info_page(u: GitHubUser) -> Seq<char> {
    let created = match u.created_at {
        Some(d) => shown_date(d@, "%Y-%m-%d"@, "N/A"@),
        None => "N/A"@,
    };
    "GitHub User Info\n"@ + rule(60) + "\n\n"@ + "  👤 Username:     "@ + u.login@ + "\n"@
        + "  📛 Name:         "@ + or_na(u.name) + "\n"@ + "  📦 Public repos: "@ + decimal(
        u.public_repos as nat,
    ) + "\n"@ + "  👥 Followers:    "@ + decimal(or_zero(u.followers)) + "\n"@
        + "  👣 Following:    "@ + decimal(or_zero(u.following)) + "\n"@ + "  🏢 Company:      "@
        + or_na(u.company) + "\n"@ + "  📍 Location:     "@ + or_na(u.location) + "\n"@
        + "  📅 Member since: "@ + created + "\n"@ + match u.bio {
        Some(b) => when(b@.len() > 0, "\n  💬 Bio:\n     "@ + b@ + "\n"@),
        None => Seq::empty(),
    } + "\n"@ + rule(60) + "\n"@
}

/// An optional text, or "N/A".
fn text_or_na(o: &Option<String>) -> (r: String)
    ensures
        r@ == or_na(*o),
{
    match o {
        Some(s) => s.clone(),
        None => string_from("N/A"),
    }
}

/// The page for `/user-info` (see `user_info_page`).
pub fn user_info_text(u: &GitHubUser) -> (r: String)
    ensures
        r@ == user_info_page(*u),
{
    let created = match &u.created_at {
        Some(d) => show_date(d.as_str(), "%Y-%m-%d", "N/A"),
        None => string_from("N/A"),
    };
    let mut out = string_from("GitHub User Info\n");
    push_str(&mut out, rule_text(60).as_str());
    push_str(&mut out, "\n\n");
    push_str(&mut out, "  👤 Username:     ");
    push_str(&mut out, u.login.as_str());
    push_str(&mut out, "\n");
    push_str(&mut out, "  📛 Name:         ");
    push_str(&mut out, text_or_na(&u.name).as_str());
    push_str(&mut out, "\n");
    push_str(&mut out, "  📦 Public repos: ");
    push_str(&mut out, u64_text(u.public_repos as u64).as_str());
    push_str(&mut out, "\n");
    push_str(&mut out, "  👥 Followers:    ");
    push_str(&mut out, u64_text(match u.followers { Some(n) => n as u64, None => 0 }).as_str());
    push_str(&mut out, "\n");
    push_str(&mut out, "  👣 Following:    ");
    push_str(&mut out, u64_text(match u.following { Some(n) => n as u64, None => 0 }).as_str());
    push_str(&mut out, "\n");
    push_str(&mut out, "  🏢 Company:      ");
    push_str(&mut out, text_or_na(&u.company).as_str());
    push_str(&mut out, "\n");
    push_str(&mut out, "  📍 Location:     ");
    push_str(&mut out, text_or_na(&u.location).as_str());
    push_str(&mut out, "\n");
    push_str(&mut out, "  📅 Member since: ");
    push_str(&mut out, created.as_str());
    push_str(&mut out, "\n");
    let ghost a = out@;
    let mut bio_shown = false;
    if let Some(b) = &u.bio {
        if char_count(b.as_str()) > 0 {
            let mut frag = string_from("\n  💬 Bio:\n     ");
            push_str(&mut frag, b.as_str());
            push_str(&mut frag, "\n");
            push_str(&mut out, frag.as_str());
            bio_shown = true;
        }
    }
    if !bio_shown {
        assert(a + Seq::<char>::empty() =~= a);
    }
    push_str(&mut out, "\n");
    push_str(&mut out, rule_text(60).as_str());
    push_str(&mut out, "\n");
    out
}


// ─── Pull requests page ──────────────────────────────────────────────────────

/// The review lines of a pull request: one per review that has an author.
pub open spec fn review_lines(rs: Seq<Review>) -> Seq<char>
    decreases rs.len(),
{
    if rs.len() == 0 {
        Seq::empty()
    } else {
        review_lines(rs.drop_last()) + match rs.last().author {
            Some(a) => "     • "@ + rs.last().state@ + " by "@ + a.login@ + "\n"@,
            None => Seq::empty(),
        }
    }
}

/// The lines for one pull request.
pub open spec fn pr_entry(pr: PullRequest) -> Seq<char> {
    "\n🔀 #"@ + int_text(pr.number as int) + " — "@ + pr.title@ + "\n   📦 "@
        + pr.repository.name_with_owner@ + "\n   State: "@ + pr.state@ + "  Mergeable: "@
        + pr.mergeable@ + "  Created: "@ + shown_date(pr.created_at@, "%Y-%m-%d"@, pr.created_at@)
        + "\n"@ + match pr.reviews {
        Some(rv) => when(
            rv.total_count > 0,
            "   Reviews: "@ + int_text(rv.total_count as int) + "\n"@ + review_lines(rv.nodes@),
        ),
        None => Seq::empty(),
    } + rule(60) + "\n"@
}

/// The entries for the pull requests, in order.
pub open spec fn pr_entries(prs: Seq<PullRequest>) -> Seq<char>
    decreases prs.len(),
{
    if prs.len() == 0 {
        Seq::empty()
    } else {
        pr_entries(prs.drop_last()) + pr_entry(prs.last())
    }
}

/// The page for `/pull-requests`.
pub open spec fn pull_requests_page(r: PullRequestsResponse) -> Seq<char> {
    let head = "Open Pull Requests — Total: "@ + int_text(r.viewer.pull_requests.total_count as int)
        + "\n"@ + rule(60) + "\n"@;
    if r.viewer.pull_requests.nodes.len() == 0 {
        head + "\nNo open pull requests found.\n"@
    } else {
        head + pr_entries(r.viewer.pull_requests.nodes@)
    }
}

/// The review lines of a pull request (see `review_lines`).
fn review_text(rs: &Vec<Review>) -> (r: String)
    ensures
        r@ == review_lines(rs@),
{
    let mut out = String::new();
    let mut i: usize = 0;
    assert(rs@.take(0) =~= Seq::<Review>::empty());
    while i < rs.len()
        invariant
            i <= rs.len(),
            out@ == review_lines(rs@.take(i as int)),
        decreases rs.len() - i,
    {
        assert(rs@.take(i + 1).drop_last() =~= rs@.take(i as int));
        let ghost before = out@;
        match &rs[i].author {
            Some(a) => {
                let mut frag = string_from("     • ");
                push_str(&mut frag, rs[i].state.as_str());
                push_str(&mut frag, " by ");
                push_str(&mut frag, a.login.as_str());
                push_str(&mut frag, "\n");
                push_str(&mut out, frag.as_str());
            },
            None => {
                assert(before + Seq::<char>::empty() =~= before);
            },
        }
        i += 1;
    }
    assert(rs@.take(rs.len() as int) =~= rs@);
    out
}

/// The lines for one pull request (see `pr_entry`).
fn pr_text(pr: &PullRequest) -> (r: String)
    ensures
        r@ == pr_entry(*pr),
{
    let mut out = string_from("\n🔀 #");
    push_str(&mut out, i32_text(pr.number).as_str());
    push_str(&mut out, " — ");
    push_str(&mut out, pr.title.as_str());
    push_str(&mut out, "\n   📦 ");
    push_str(&mut out, pr.repository.name_with_owner.as_str());
    push_str(&mut out, "\n   State: ");
    push_str(&mut out, pr.state.as_str());
    push_str(&mut out, "  Mergeable: ");
    push_str(&mut out, pr.mergeable.as_str());
    push_str(&mut out, "  Created: ");
    push_str(&mut out, show_date(pr.created_at.as_str(), "%Y-%m-%d", pr.created_at.as_str()).as_str());
    push_str(&mut out, "\n");
    let ghost a = out@;
    let mut shown = false;
    if let Some(rv) = &pr.reviews {
        if rv.total_count > 0 {
            let mut frag = string_from("   Reviews: ");
            push_str(&mut frag, i32_text(rv.total_count).as_str());
            push_str(&mut frag, "\n");
            push_str(&mut frag, review_text(&rv.nodes).as_str());
            push_str(&mut out, frag.as_str());
            shown = true;
        }
    }
    if !shown {
        assert(a + Seq::<char>::empty() =~= a);
    }
    push_str(&mut out, rule_text(60).as_str());
    push_str(&mut out, "\n");
    out
}

/// The page for `/pull-requests` (see `pull_requests_page`).
pub fn pull_requests_text(r: &PullRequestsResponse) -> (out: String)
    ensures
        out@ == pull_requests_page(*r),
{
    let mut out = string_from("Open Pull Requests — Total: ");
    push_str(&mut out, i32_text(r.viewer.pull_requests.total_count).as_str());
    push_str(&mut out, "\n");
    push_str(&mut out, rule_text(60).as_str());
    push_str(&mut out, "\n");
    let nodes = &r.viewer.pull_requests.nodes;
    if nodes.len() == 0 {
        push_str(&mut out, "\nNo open pull requests found.\n");
        return out;
    }
    let ghost head = out@;
    assert(nodes@.take(0) =~= Seq::<PullRequest>::empty());
    assert(head + Seq::<char>::empty() =~= head);
    let mut i: usize = 0;
    while i < nodes.len()
        invariant
            i <= nodes.len(),
            nodes@ == r.viewer.pull_requests.nodes@,
            out@ == head + pr_entries(nodes@.take(i as int)),
        decreases nodes.len() - i,
    {
        assert(nodes@.take(i + 1).drop_last() =~= nodes@.take(i as int));
        let ghost before = out@;
        let frag = pr_text(&nodes[i]);
        push_str(&mut out, frag.as_str());
        assert(head + pr_entries(nodes@.take(i + 1)) =~= before + frag@);
        i += 1;
    }
    assert(nodes@.take(nodes.len() as int) =~= nodes@);
    out
}


// ─── Activity page ───────────────────────────────────────────────────────────

/// All contribution days, week after week.
pub open spec fn days_of(weeks: Seq<ContributionWeek>) -> Seq<ContributionDay>
    decreases weeks.len(),
{
    if weeks.len() == 0 {
        Seq::empty()
    } else {
        days_of(weeks.drop_last()) + weeks.last().contribution_days@
    }
}

/// `n` full blocks.
pub open spec fn blocks(n: nat) -> Seq<char> {
    Seq::new(n, |i: int| '█')
}

/// The bar line for a day: its date, one block per contribution up to twenty, and the
/// count.
pub open spec fn day_line(d: ContributionDay) -> Seq<char> {
    "  "@ + d.date@ + " : "@ + blocks((if d.contribution_count < 20 { d.contribution_count } else { 20 }) as nat)
        + " ("@ + int_text(d.contribution_count as int) + ")"@
}

/// The bar lines for the last three days, most recent first.
pub open spec fn recent_days(days: Seq<ContributionDay>) -> Seq<Seq<char>> {
    let n = days.len() as int;
    let k = if n < 3 { n } else { 3 };
    Seq::new(k as nat, |i: int| day_line(days[n - 1 - i]))
}

/// The counts of a week, comma-separated.
pub open spec fn week_counts(w: ContributionWeek) -> Seq<char> {
    join_seq(w.contribution_days@.map_values(|d: ContributionDay| int_text(d.contribution_count as int)), ","@)
}

/// The whole calendar, for drawing: "GRID:" and the weeks' counts separated by `|`.
pub open spec fn grid_line(weeks: Seq<ContributionWeek>) -> Seq<char> {
    "GRID:"@ + join_seq(weeks.map_values(|w: ContributionWeek| week_counts(w)), "|"@)
}

/// The page for `/show-activity`.
pub open spec fn activity_page(a: UserActivity) -> Seq<char> {
    let c = a.viewer.contributions_collection;
    "GitHub Activity — "@ + or_na(a.viewer.name) + " ("@ + a.viewer.login@ + ")\n"@
        + "Total contributions : "@ + int_text(c.contribution_calendar.total_contributions as int)
        + "\n"@ + "Commits             : "@ + int_text(c.total_commit_contributions as int) + "\n"@
        + "Pull requests       : "@ + int_text(c.total_pull_request_contributions as int) + "\n"@
        + "Issues              : "@ + int_text(c.total_issue_contributions as int) + "\n"@
        + "Repos created       : "@ + int_text(c.total_repository_contributions as int) + "\n"@
        + "\nLast 3 days:\n"@ + join_seq(recent_days(days_of(c.contribution_calendar.weeks@)), "\n"@)
        + "\n"@ + grid_line(c.contribution_calendar.weeks@)
}

/// The counts of the last three days are not negative (a negative one cannot be drawn
/// as a bar).
pub open spec fn recent_counts_ok(a: UserActivity) -> bool {
    let days = days_of(a.viewer.contributions_collection.contribution_calendar.weeks@);
    forall|i: int| days.len() - 3 <= i < days.len() && 0 <= i ==> #[trigger] days[i].contribution_count >= 0
}

/// `n` full blocks.
fn blocks_text(n: usize) -> (r: String)
    ensures
        r@ == blocks(n as nat),
{
    let mut r = String::new();
    let mut i: usize = 0;
    while i < n
        invariant
            i <= n,
            r@ == blocks(i as nat),
        decreases n - i,
    {
        push_char(&mut r, '█');
        assert(r@ =~= blocks((i + 1) as nat));
        i += 1;
    }
    r
}

/// The bar line for a day (see `day_line`).
fn day_text(d: &ContributionDay) -> (r: String)
    requires
        d.contribution_count >= 0,
    ensures
        r@ == day_line(*d),
{
    let n: i32 = if d.contribution_count < 20 { d.contribution_count } else { 20 };
    let mut out = string_from("  ");
    push_str(&mut out, d.date.as_str());
    push_str(&mut out, " : ");
    push_str(&mut out, blocks_text(n as usize).as_str());
    push_str(&mut out, " (");
    push_str(&mut out, i32_text(d.contribution_count).as_str());
    push_str(&mut out, ")");
    out
}

/// All contribution days, week after week (see `days_of`).
fn all_days(weeks: &Vec<ContributionWeek>) -> (r: Vec<&ContributionDay>)
    ensures
        r@.map_values(|d: &ContributionDay| *d) == days_of(weeks@),
{
    let mut r: Vec<&ContributionDay> = Vec::new();
    let mut i: usize = 0;
    assert(r@.map_values(|d: &ContributionDay| *d) =~= days_of(weeks@.take(0)));
    while i < weeks.len()
        invariant
            i <= weeks.len(),
            r@.map_values(|d: &ContributionDay| *d) == days_of(weeks@.take(i as int)),
        decreases weeks.len() - i,
    {
        assert(weeks@.take(i + 1).drop_last() =~= weeks@.take(i as int));
        let ds = &weeks[i].contribution_days;
        let ghost base = r@.map_values(|d: &ContributionDay| *d);
        let mut j: usize = 0;
        while j < ds.len()
            invariant
                j <= ds.len(),
                r@.map_values(|d: &ContributionDay| *d) == base + ds@.take(j as int),
            decreases ds.len() - j,
        {
            let ghost before = r@.map_values(|d: &ContributionDay| *d);
            r.push(&ds[j]);
            assert(r@.map_values(|d: &ContributionDay| *d) =~= before.push(ds@[j as int]));
            assert(base + ds@.take(j + 1) =~= (base + ds@.take(j as int)).push(ds@[j as int]));
            j += 1;
        }
        assert(ds@.take(ds.len() as int) =~= ds@);
        i += 1;
    }
    assert(weeks@.take(weeks.len() as int) =~= weeks@);
    r
}

/// The whole calendar line (see `grid_line`).
fn grid_text(weeks: &Vec<ContributionWeek>) -> (r: String)
    ensures
        r@ == grid_line(weeks@),
{
    let mut ws: Vec<Vec<char>> = Vec::new();
    let mut i: usize = 0;
    while i < weeks.len()
        invariant
            i <= weeks.len(),
            ws.len() == i,
            forall|k: int| 0 <= k < i ==> #[trigger] ws@[k]@ == week_counts(weeks@[k]),
        decreases weeks.len() - i,
    {
        let ds = &weeks[i].contribution_days;
        let mut cs: Vec<Vec<char>> = Vec::new();
        let mut j: usize = 0;
        while j < ds.len()
            invariant
                j <= ds.len(),
                cs.len() == j,
                forall|k: int| 0 <= k < j ==> #[trigger] cs@[k]@ == int_text(ds@[k].contribution_count as int),
            decreases ds.len() - j,
        {
            cs.push(chars_of(i32_text(ds[j].contribution_count).as_str()));
            j += 1;
        }
        assert(cs@.map_values(|l: Vec<char>| l@) =~= ds@.map_values(
            |d: ContributionDay| int_text(d.contribution_count as int),
        ));
        ws.push(join_chars(&cs, &chars_of(",")));
        i += 1;
    }
    assert(ws@.map_values(|l: Vec<char>| l@) =~= weeks@.map_values(|w: ContributionWeek| week_counts(w)));
    let joined = join_chars(&ws, &chars_of("|"));
    let mut out = string_from("GRID:");
    push_str(&mut out, string_of(&joined).as_str());
    out
}

/// The page for `/show-activity` (see `activity_page`).
pub fn activity_text(a: &UserActivity) -> (r: String)
    requires
        recent_counts_ok(*a),
    ensures
        r@ == activity_page(*a),
{
    let c = &a.viewer.contributions_collection;
    let days = all_days(&c.contribution_calendar.weeks);
    let ghost dv = days@.map_values(|d: &ContributionDay| *d);
    let n = days.len();
    let k = if n < 3 { n } else { 3 };
    assert(forall|j: int| dv.len() - 3 <= j < dv.len() && 0 <= j ==> #[trigger] dv[j].contribution_count >= 0);
    let mut lines: Vec<Vec<char>> = Vec::new();
    let mut i: usize = 0;
    while i < k
        invariant
            i <= k,
            k <= n,
            n == days.len(),
            k == (if n < 3 { n } else { 3 }),
            dv == days@.map_values(|d: &ContributionDay| *d),
            dv == days_of(c.contribution_calendar.weeks@),
            forall|j: int| dv.len() - 3 <= j < dv.len() && 0 <= j ==> #[trigger] dv[j].contribution_count >= 0,
            lines.len() == i,
            forall|j: int| 0 <= j < i ==> #[trigger] lines@[j]@ == day_line(dv[n - 1 - j]),
        decreases k - i,
    {
        let d = days[n - 1 - i];
        assert(dv[n - 1 - i] == *d);
        assert(dv.len() - 3 <= n - 1 - i);
        assert(dv[n - 1 - i].contribution_count >= 0);
        lines.push(chars_of(day_text(d).as_str()));
        i += 1;
    }
    assert(lines@.map_values(|l: Vec<char>| l@) =~= recent_days(dv));
    let recent = string_of(&join_chars(&lines, &chars_of("\n")));
    let mut out = string_from("GitHub Activity — ");
    push_str(&mut out, match &a.viewer.name {
        Some(s) => s.as_str(),
        None => "N/A",
    });
    push_str(&mut out, " (");
    push_str(&mut out, a.viewer.login.as_str());
    push_str(&mut out, ")\n");
    push_str(&mut out, "Total contributions : ");
    push_str(&mut out, i32_text(c.contribution_calendar.total_contributions).as_str());
    push_str(&mut out, "\n");
    push_str(&mut out, "Commits             : ");
    push_str(&mut out, i32_text(c.total_commit_contributions).as_str());
    push_str(&mut out, "\n");
    push_str(&mut out, "Pull requests       : ");
    push_str(&mut out, i32_text(c.total_pull_request_contributions).as_str());
    push_str(&mut out, "\n");
    push_str(&mut out, "Issues              : ");
    push_str(&mut out, i32_text(c.total_issue_contributions).as_str());
    push_str(&mut out, "\n");
    push_str(&mut out, "Repos created       : ");
    push_str(&mut out, i32_text(c.total_repository_contributions).as_str());
    push_str(&mut out, "\n");
    push_str(&mut out, "\nLast 3 days:\n");
    push_str(&mut out, recent.as_str());
    push_str(&mut out, "\n");
    push_str(&mut out, grid_text(&c.contribution_calendar.weeks).as_str());
    out
}


// ─── Recent commits page ─────────────────────────────────────────────────────

/// Every commit of every repository's default branch, with its repository, in the
/// order the reply gives them.
pub open spec fn repo_commits(rs: Seq<RepositoryWithCommits>) -> Seq<(Seq<char>, Commit)>
    decreases rs.len(),
{
    if rs.len() == 0 {
        Seq::empty()
    } else {
        repo_commits(rs.drop_last()) + match rs.last().default_branch_ref {
            Some(b) => b.target.history.nodes@.map_values(
                |c: Commit| (rs.last().name_with_owner@, c),
            ),
            None => Seq::empty(),
        }
    }
}

/// The position at which a stable sort by descending date puts `x` into the sorted
/// `t`: before the first entry with an earlier date.
pub open spec fn insert_position(t: Seq<(Seq<char>, Commit)>, x: (Seq<char>, Commit)) -> int
    decreases t.len(),
{
    if t.len() == 0 {
        0
    } else if text_lt(t[0].1.committed_date@, x.1.committed_date@) {
        0
    } else {
        1 + insert_position(t.drop_first(), x)
    }
}

/// The commits sorted by date, newest first; commits with equal dates keep their order.
pub open spec fn newest_first(s: Seq<(Seq<char>, Commit)>) -> Seq<(Seq<char>, Commit)>
    decreases s.len(),
{
    if s.len() == 0 {
        s
    } else {
        let t = newest_first(s.drop_last());
        t.insert(insert_position(t, s.last()), s.last())
    }
}

/// The block for one commit on the recent commits page.
pub open spec fn commit_entry(repo: Seq<char>, c: Commit) -> Seq<char> {
    "\n📦 "@ + repo + "\n📝 "@ + shown_date(c.committed_date@, "%Y-%m-%d %H:%M:%S"@, c.committed_date@)
        + "  🔑 "@ + byte_prefix(c.oid@, 8) + "\n💬 "@ + first_line(c.message@).unwrap_or(c.message@)
        + "\n👤 "@ + or_unknown(c.author.name) + "  📊 +"@ + int_text(c.additions as int) + " -"@
        + int_text(c.deletions as int) + "\n"@ + rule(60) + "\n"@
}

/// An optional name, or "unknown".
pub open spec fn or_unknown(o: Option<String>) -> Seq<char> {
    match o {
        Some(s) => s@,
        None => "unknown"@,
    }
}

/// The blocks for the commits, in order.
pub open spec fn commit_entries(cs: Seq<(Seq<char>, Commit)>) -> Seq<char>
    decreases cs.len(),
{
    if cs.len() == 0 {
        Seq::empty()
    } else {
        commit_entries(cs.drop_last()) + commit_entry(cs.last().0, cs.last().1)
    }
}

/// The page for `/commits`: the three newest commits across the repositories.
pub open spec fn commits_page(r: UserCommitsResponse) -> Seq<char> {
    let sorted = newest_first(repo_commits(r.viewer.repositories.nodes@));
    "3 Most Recent Commits — "@ + r.viewer.login@ + "\n"@ + rule(60) + "\n"@ + commit_entries(
        sorted.take(if sorted.len() < 3 { sorted.len() as int } else { 3 }),
    )
}

/// The commit ids are hex: each can be cut after eight bytes.
pub open spec fn commit_ids_ok(r: UserCommitsResponse) -> bool {
    forall|i: int| 0 <= i < repo_commits(r.viewer.repositories.nodes@).len() ==> cut_ok(
        (#[trigger] repo_commits(r.viewer.repositories.nodes@)[i]).1.oid@,
        8,
    )
}

/// Every commit with its repository (see `repo_commits`).
fn gather_commits(rs: &Vec<RepositoryWithCommits>) -> (r: Vec<(&String, &Commit)>)
    ensures
        r@.map_values(|e: (&String, &Commit)| (e.0@, *e.1)) == repo_commits(rs@),
{
    let mut r: Vec<(&String, &Commit)> = Vec::new();
    let mut i: usize = 0;
    assert(r@.map_values(|e: (&String, &Commit)| (e.0@, *e.1)) =~= repo_commits(rs@.take(0)));
    while i < rs.len()
        invariant
            i <= rs.len(),
            r@.map_values(|e: (&String, &Commit)| (e.0@, *e.1)) == repo_commits(rs@.take(i as int)),
        decreases rs.len() - i,
    {
        assert(rs@.take(i + 1).drop_last() =~= rs@.take(i as int));
        let repo = &rs[i];
        let ghost base = r@.map_values(|e: (&String, &Commit)| (e.0@, *e.1));
        match &repo.default_branch_ref {
            Some(b) => {
                let cs = &b.target.history.nodes;
                let mut j: usize = 0;
                while j < cs.len()
                    invariant
                        j <= cs.len(),
                        r@.map_values(|e: (&String, &Commit)| (e.0@, *e.1)) == base + cs@.take(
                            j as int,
                        ).map_values(|c: Commit| (repo.name_with_owner@, c)),
                    decreases cs.len() - j,
                {
                    let ghost before = r@.map_values(|e: (&String, &Commit)| (e.0@, *e.1));
                    r.push((&repo.name_with_owner, &cs[j]));
                    assert(r@.map_values(|e: (&String, &Commit)| (e.0@, *e.1)) =~= before.push(
                        (repo.name_with_owner@, cs@[j as int]),
                    ));
                    assert(cs@.take(j + 1).map_values(|c: Commit| (repo.name_with_owner@, c))
                        =~= cs@.take(j as int).map_values(|c: Commit| (repo.name_with_owner@, c)).push(
                        (repo.name_with_owner@, cs@[j as int]),
                    ));
                    j += 1;
                }
                assert(cs@.take(cs.len() as int) =~= cs@);
            },
            None => {
                assert(base + Seq::<(Seq<char>, Commit)>::empty() =~= base);
            },
        }
        i += 1;
    }
    assert(rs@.take(rs.len() as int) =~= rs@);
    r
}

/// The commits sorted newest first, stably (see `newest_first`).
fn sort_newest_first<'a>(s: Vec<(&'a String, &'a Commit)>) -> (r: Vec<(&'a String, &'a Commit)>)
    ensures
        r@.map_values(|e: (&String, &Commit)| (e.0@, *e.1)) == newest_first(
            s@.map_values(|e: (&String, &Commit)| (e.0@, *e.1)),
        ),
{
    let ghost sv = s@.map_values(|e: (&String, &Commit)| (e.0@, *e.1));
    let mut t: Vec<(&'a String, &'a Commit)> = Vec::new();
    let mut i: usize = 0;
    assert(sv.take(0) =~= Seq::<(Seq<char>, Commit)>::empty());
    assert(t@.map_values(|e: (&String, &Commit)| (e.0@, *e.1)) =~= Seq::<(Seq<char>, Commit)>::empty());
    while i < s.len()
        invariant
            i <= s.len(),
            sv == s@.map_values(|e: (&String, &Commit)| (e.0@, *e.1)),
            t@.map_values(|e: (&String, &Commit)| (e.0@, *e.1)) == newest_first(sv.take(i as int)),
        decreases s.len() - i,
    {
        assert(sv.take(i + 1).drop_last() =~= sv.take(i as int));
        let x = s[i];
        let ghost tv = t@.map_values(|e: (&String, &Commit)| (e.0@, *e.1));
        let ghost xv = (x.0@, *x.1);
        assert(sv[i as int] == xv);
        let xd = chars_of(x.1.committed_date.as_str());
        let mut k: usize = 0;
        assert(tv.skip(0) =~= tv);
        while k < t.len()
            invariant
                k <= t.len(),
                xd@ == x.1.committed_date@,
                xv == (x.0@, *x.1),
                tv == t@.map_values(|e: (&String, &Commit)| (e.0@, *e.1)),
                insert_position(tv, xv) == k + insert_position(tv.skip(k as int), xv),
            ensures
                k <= t.len(),
                tv == t@.map_values(|e: (&String, &Commit)| (e.0@, *e.1)),
                insert_position(tv, xv) == k + insert_position(tv.skip(k as int), xv),
                k < t.len() ==> text_lt(tv[k as int].1.committed_date@, xv.1.committed_date@),
            decreases t.len() - k,
        {
            let lt = chars_lt(&chars_of(t[k].1.committed_date.as_str()), &xd);
            assert(tv[k as int] == (t@[k as int].0@, *t@[k as int].1));
            if lt {
                break;
            }
            assert(tv.skip(k as int)[0] == tv[k as int]);
            assert(tv.skip(k as int).drop_first() =~= tv.skip(k + 1));
            k += 1;
        }
        if k < t.len() {
            assert(tv.skip(k as int)[0] == tv[k as int]);
        } else {
            assert(tv.skip(k as int).len() == 0);
        }
        assert(insert_position(tv, xv) == k);
        t.insert(k, x);
        assert(t@.map_values(|e: (&String, &Commit)| (e.0@, *e.1)) =~= tv.insert(k as int, xv));
        i += 1;
    }
    assert(sv.take(s.len() as int) =~= sv);
    t
}

/// The block for one commit (see `commit_entry`).
fn commit_text(repo: &String, c: &Commit) -> (r: String)
    requires
        cut_ok(c.oid@, 8),
    ensures
        r@ == commit_entry(repo@, *c),
{
    let msg = chars_of(c.message.as_str());
    let first = match first_line_chars(&msg) {
        Some(l) => string_of(&l),
        None => c.message.clone(),
    };
    let mut out = string_from("\n📦 ");
    push_str(&mut out, repo.as_str());
    push_str(&mut out, "\n📝 ");
    push_str(&mut out, show_date(c.committed_date.as_str(), "%Y-%m-%d %H:%M:%S", c.committed_date.as_str()).as_str());
    push_str(&mut out, "  🔑 ");
    push_str(&mut out, prefix_bytes(c.oid.as_str(), 8).as_str());
    push_str(&mut out, "\n💬 ");
    push_str(&mut out, first.as_str());
    push_str(&mut out, "\n👤 ");
    push_str(&mut out, match &c.author.name {
        Some(n) => n.as_str(),
        None => "unknown",
    });
    push_str(&mut out, "  📊 +");
    push_str(&mut out, i32_text(c.additions).as_str());
    push_str(&mut out, " -");
    push_str(&mut out, i32_text(c.deletions).as_str());
    push_str(&mut out, "\n");
    push_str(&mut out, rule_text(60).as_str());
    push_str(&mut out, "\n");
    out
}

/// The page for `/commits` (see `commits_page`).
pub fn commits_text(r: &UserCommitsResponse) -> (out: String)
    requires
        commit_ids_ok(*r),
    ensures
        out@ == commits_page(*r),
{
    let all = gather_commits(&r.viewer.repositories.nodes);
    let ghost av = all@.map_values(|e: (&String, &Commit)| (e.0@, *e.1));
    let sorted = sort_newest_first(all);
    let ghost sv = sorted@.map_values(|e: (&String, &Commit)| (e.0@, *e.1));
    proof {
        lemma_newest_first_perm(av);
    }
    let n = if sorted.len() < 3 { sorted.len() } else { 3 };
    let mut out = string_from("3 Most Recent Commits — ");
    push_str(&mut out, r.viewer.login.as_str());
    push_str(&mut out, "\n");
    push_str(&mut out, rule_text(60).as_str());
    push_str(&mut out, "\n");
    let ghost head = out@;
    assert(sv.take(0) =~= Seq::<(Seq<char>, Commit)>::empty());
    assert(head + Seq::<char>::empty() =~= head);
    let mut i: usize = 0;
    while i < n
        invariant
            i <= n,
            n <= sorted.len(),
            sv == sorted@.map_values(|e: (&String, &Commit)| (e.0@, *e.1)),
            sv == newest_first(av),
            av == repo_commits(r.viewer.repositories.nodes@),
            commit_ids_ok(*r),
            forall|j: int| 0 <= j < sv.len() ==> exists|m: int| 0 <= m < av.len() && #[trigger] sv[j] == av[m],
            out@ == head + commit_entries(sv.take(i as int)),
        decreases n - i,
    {
        assert(sv.take(i + 1).drop_last() =~= sv.take(i as int));
        let (repo, c) = sorted[i];
        assert(sv[i as int] == (repo@, *c));
        proof {
            let m = choose|m: int| 0 <= m < av.len() && sv[i as int] == av[m];
            assert(cut_ok(av[m].1.oid@, 8));
        }
        let ghost before = out@;
        let frag = commit_text(repo, c);
        push_str(&mut out, frag.as_str());
        assert(head + commit_entries(sv.take(i + 1)) =~= before + frag@);
        i += 1;
    }
    out
}

/// Every entry of the sorted list comes from the list.
proof fn lemma_newest_first_perm(s: Seq<(Seq<char>, Commit)>)
    ensures
        forall|j: int| 0 <= j < newest_first(s).len() ==> exists|m: int| 0 <= m < s.len() && #[trigger] newest_first(s)[j] == s[m],
        newest_first(s).len() == s.len(),
    decreases s.len(),
{
    if s.len() > 0 {
        let t = newest_first(s.drop_last());
        lemma_newest_first_perm(s.drop_last());
        lemma_insert_position_bound(t, s.last());
        let p = insert_position(t, s.last());
        let u = t.insert(p, s.last());
        assert forall|j: int| 0 <= j < u.len() implies exists|m: int| 0 <= m < s.len() && #[trigger] u[j] == s[m] by {
            if j < p {
                let m = choose|m: int| 0 <= m < s.drop_last().len() && t[j] == s.drop_last()[m];
                assert(u[j] == s[m]);
            } else if j == p {
                assert(u[j] == s[s.len() - 1]);
            } else {
                let m = choose|m: int| 0 <= m < s.drop_last().len() && t[j - 1] == s.drop_last()[m];
                assert(u[j] == s[m]);
            }
        }
    }
}

proof fn lemma_insert_position_bound(t: Seq<(Seq<char>, Commit)>, x: (Seq<char>, Commit))
    ensures
        0 <= insert_position(t, x) <= t.len(),
    decreases t.len(),
{
    if t.len() > 0 {
        lemma_insert_position_bound(t.drop_first(), x);
    }
}

/// Each commit is dated no later than the one before it.
pub open spec fn dated_newest_first(s: Seq<(Seq<char>, Commit)>) -> bool {
    forall|i: int, j: int|
        0 <= i < j < s.len() ==> !text_lt(#[trigger] s[i].1.committed_date@, #[trigger] s[j].1.committed_date@)
}

proof fn lemma_insert_position_props(t: Seq<(Seq<char>, Commit)>, x: (Seq<char>, Commit))
    ensures
        0 <= insert_position(t, x) <= t.len(),
        forall|i: int| 0 <= i < insert_position(t, x) ==> !text_lt(#[trigger] t[i].1.committed_date@, x.1.committed_date@),
        insert_position(t, x) < t.len() ==> text_lt(t[insert_position(t, x)].1.committed_date@, x.1.committed_date@),
    decreases t.len(),
{
    if t.len() > 0 && !text_lt(t[0].1.committed_date@, x.1.committed_date@) {
        lemma_insert_position_props(t.drop_first(), x);
        assert forall|i: int| 0 <= i < insert_position(t, x) implies !text_lt(#[trigger] t[i].1.committed_date@, x.1.committed_date@) by {
            if i > 0 {
                assert(t[i] == t.drop_first()[i - 1]);
            }
        }
    }
}

/// The recent commits page lists commits from all repositories newest first: in the
/// order `newest_first` gives, no commit is older than one after it, and none is lost.
pub proof fn law_commits_newest_first(s: Seq<(Seq<char>, Commit)>)
    ensures
        dated_newest_first(newest_first(s)),
        newest_first(s).to_multiset() == s.to_multiset(),
    decreases s.len(),
{
    broadcast use vstd::seq_lib::group_to_multiset_ensures;
    if s.len() > 0 {
        let t = newest_first(s.drop_last());
        let x = s.last();
        law_commits_newest_first(s.drop_last());
        lemma_insert_position_bound(t, x);
        vstd::seq_lib::to_multiset_insert(t, insert_position(t, x), x);
        assert(s =~= s.drop_last().push(x));
        lemma_insert_position_props(t, x);
        let p = insert_position(t, x);
        let u = t.insert(p, x);
        assert forall|i: int, j: int| 0 <= i < j < u.len() implies !text_lt(
            #[trigger] u[i].1.committed_date@,
            #[trigger] u[j].1.committed_date@,
        ) by {
            if j < p {
                assert(u[i] == t[i] && u[j] == t[j]);
            } else if j == p {
                assert(u[i] == t[i] && u[j] == x);
            } else if i > p {
                assert(u[i] == t[i - 1] && u[j] == t[j - 1]);
            } else if i < p {
                assert(u[i] == t[i] && u[j] == t[j - 1]);
            } else {
                assert(u[i] == x && u[j] == t[j - 1]);
                if text_lt(x.1.committed_date@, t[j - 1].1.committed_date@) {
                    if j - 1 == p {
                        lemma_text_lt_transitive(x.1.committed_date@, t[p].1.committed_date@, x.1.committed_date@);
                        lemma_text_lt_irreflexive(x.1.committed_date@);
                    } else {
                        lemma_text_lt_transitive(t[p].1.committed_date@, x.1.committed_date@, t[j - 1].1.committed_date@);
                    }
                }
            }
        }
    }
}

/// The first line of a text, if it has one.
fn first_line_chars(s: &Vec<char>) -> (r: Option<Vec<char>>)
    ensures
        match r {
            Some(l) => first_line(s@) == Some(l@),
            None => first_line(s@) is None,
        },
{
    let ls = lines_chars(s);
    assert(ls@.map_values(|l: Vec<char>| l@).len() == ls@.len());
    if ls.len() > 0 {
        assert(ls@.map_values(|l: Vec<char>| l@)[0] == ls@[0]@);
        Some(copy_chars(&ls[0]))
    } else {
        None
    }
}


// ─── Sync pages ──────────────────────────────────────────────────────────────

/// The advice for a local clone in the given state.
pub open spec fn sync_advice(st: SyncStatus) -> Seq<char> {
    match st {
        SyncStatus::InSync => "\n✅ SYNCHRONIZED — local and remote are at the same commit.\n"@,
        SyncStatus::LocalAhead { commits } => "\n⬆️  LOCAL AHEAD by "@ + int_text(commits as int)
            + " commit(s).\n   Run: git push\n"@,
        SyncStatus::RemoteAhead { commits } => "\n⬇️  REMOTE AHEAD by "@ + int_text(commits as int)
            + " commit(s).\n   Run: git pull\n"@,
        SyncStatus::Diverged { local_ahead, remote_ahead } => "\n🔀 DIVERGED — local +"@ + int_text(
            local_ahead as int,
        ) + ", remote +"@ + int_text(remote_ahead as int) + ".\n   Run: git pull --rebase\n"@,
        SyncStatus::BranchMismatch { local_branch, remote_branch } => "\n🔄 BRANCH MISMATCH — local: "@
            + local_branch@ + ", remote default: "@ + remote_branch@ + "\n"@,
        SyncStatus::NoLocalRepo => Seq::empty(),
    }
}

/// The local-clone section: where it is and what it holds, if it could be read.
pub open spec fn local_section(info: Option<LocalRepoInfo>) -> Seq<char> {
    match info {
        Some(i) => "\n📁 Local Repository\n   Path:   "@ + i.path@ + "\n   Branch: "@ + i.current_branch@
            + "\n   Commit: "@ + byte_prefix(i.latest_commit@, 8) + "\n"@ + when(
            i.uncommitted_changes,
            "   ⚠️  Uncommitted changes detected\n"@,
        ),
        None => Seq::empty(),
    }
}

/// The remote section, if the reply has a default branch.
pub open spec fn remote_section(r: RepoSyncResponse) -> Seq<char> {
    match r.repository.default_branch_ref {
        Some(b) => "\n🌐 Remote Repository\n   Branch:  "@ + b.name@ + "\n   Commit:  "@ + byte_prefix(
            b.target.oid@,
            8,
        ) + "\n   Updated: "@ + match b.target.committed_date {
            Some(d) => shown_date(d@, "%Y-%m-%d %H:%M:%S"@, "N/A"@),
            None => "N/A"@,
        } + "\n"@ + match b.target.history {
            Some(h) => "   Total commits: "@ + int_text(h.total_count as int) + "\n"@,
            None => Seq::empty(),
        },
        None => Seq::empty(),
    }
}

/// The page for `/repo-sync`. `local` is the clone found, if any, with what could be
/// read of it.
pub open spec fn repo_sync_page(
    name_with_owner: Seq<char>,
    ssh_url: Seq<char>,
    st: SyncStatus,
    local: Option<Option<LocalRepoInfo>>,
    remote: RepoSyncResponse,
) -> Seq<char> {
    "Repository Sync — "@ + name_with_owner + "\n"@ + rule(60) + "\n\n"@ + emoji_text(st) + " "@
        + description_text(st) + "\n"@ + match local {
        Some(info) => local_section(info) + sync_advice(st),
        None => "\n❌ Not cloned locally.\n   Run: git clone "@ + ssh_url + "\n"@,
    } + remote_section(remote) + "\n"@ + rule(60) + "\n"@
}

/// The ids on the page can be shortened to eight bytes.
pub open spec fn sync_ids_ok(local: Option<Option<LocalRepoInfo>>, remote: RepoSyncResponse) -> bool {
    &&& (local matches Some(Some(i)) ==> cut_ok(i.latest_commit@, 8))
    &&& (remote.repository.default_branch_ref matches Some(b) ==> cut_ok(b.target.oid@, 8))
}

/// The advice for a local clone in the given state (see `sync_advice`).
fn sync_advice_text(st: &SyncStatus) -> (r: String)
    ensures
        r@ == sync_advice(*st),
{
    match st {
        SyncStatus::InSync => string_from("\n✅ SYNCHRONIZED — local and remote are at the same commit.\n"),
        SyncStatus::LocalAhead { commits } => {
            let mut r = string_from("\n⬆️  LOCAL AHEAD by ");
            push_str(&mut r, i32_text(*commits).as_str());
            push_str(&mut r, " commit(s).\n   Run: git push\n");
            r
        },
        SyncStatus::RemoteAhead { commits } => {
            let mut r = string_from("\n⬇️  REMOTE AHEAD by ");
            push_str(&mut r, i32_text(*commits).as_str());
            push_str(&mut r, " commit(s).\n   Run: git pull\n");
            r
        },
        SyncStatus::Diverged { local_ahead, remote_ahead } => {
            let mut r = string_from("\n🔀 DIVERGED — local +");
            push_str(&mut r, i32_text(*local_ahead).as_str());
            push_str(&mut r, ", remote +");
            push_str(&mut r, i32_text(*remote_ahead).as_str());
            push_str(&mut r, ".\n   Run: git pull --rebase\n");
            r
        },
        SyncStatus::BranchMismatch { local_branch, remote_branch } => {
            let mut r = string_from("\n🔄 BRANCH MISMATCH — local: ");
            push_str(&mut r, local_branch.as_str());
            push_str(&mut r, ", remote default: ");
            push_str(&mut r, remote_branch.as_str());
            push_str(&mut r, "\n");
            r
        },
        SyncStatus::NoLocalRepo => {
            let r = String::new();
            r
        },
    }
}

/// The local-clone section (see `local_section`).
fn local_section_text(info: &Option<LocalRepoInfo>) -> (r: String)
    requires
        info matches Some(i) ==> cut_ok(i.latest_commit@, 8),
    ensures
        r@ == local_section(*info),
{
    match info {
        Some(i) => {
            let mut r = string_from("\n📁 Local Repository\n   Path:   ");
            push_str(&mut r, i.path.as_str());
            push_str(&mut r, "\n   Branch: ");
            push_str(&mut r, i.current_branch.as_str());
            push_str(&mut r, "\n   Commit: ");
            push_str(&mut r, prefix_bytes(i.latest_commit.as_str(), 8).as_str());
            push_str(&mut r, "\n");
            push_when(&mut r, i.uncommitted_changes, "   ⚠️  Uncommitted changes detected\n");
            r
        },
        None => String::new(),
    }
}

/// The remote section (see `remote_section`).
fn remote_section_text(r: &RepoSyncResponse) -> (out: String)
    requires
        r.repository.default_branch_ref matches Some(b) ==> cut_ok(b.target.oid@, 8),
    ensures
        out@ == remote_section(*r),
{
    match &r.repository.default_branch_ref {
        Some(b) => {
            let mut out = string_from("\n🌐 Remote Repository\n   Branch:  ");
            push_str(&mut out, b.name.as_str());
            push_str(&mut out, "\n   Commit:  ");
            push_str(&mut out, prefix_bytes(b.target.oid.as_str(), 8).as_str());
            push_str(&mut out, "\n   Updated: ");
            let updated = match &b.target.committed_date {
                Some(d) => show_date(d.as_str(), "%Y-%m-%d %H:%M:%S", "N/A"),
                None => string_from("N/A"),
            };
            push_str(&mut out, updated.as_str());
            push_str(&mut out, "\n");
            let ghost a = out@;
            match &b.target.history {
                Some(h) => {
                    let mut frag = string_from("   Total commits: ");
                    push_str(&mut frag, i32_text(h.total_count).as_str());
                    push_str(&mut frag, "\n");
                    push_str(&mut out, frag.as_str());
                },
                None => {
                    assert(a + Seq::<char>::empty() =~= a);
                },
            }
            out
        },
        None => String::new(),
    }
}

/// The page for `/repo-sync` (see `repo_sync_page`).
pub fn repo_sync_text(
    name_with_owner: &str,
    ssh_url: &str,
    st: &SyncStatus,
    local: &Option<Option<LocalRepoInfo>>,
    remote: &RepoSyncResponse,
) -> (r: String)
    requires
        sync_ids_ok(*local, *remote),
    ensures
        r@ == repo_sync_page(name_with_owner@, ssh_url@, *st, *local, *remote),
{
    let mut out = string_from("Repository Sync — ");
    push_str(&mut out, name_with_owner);
    push_str(&mut out, "\n");
    push_str(&mut out, rule_text(60).as_str());
    push_str(&mut out, "\n\n");
    push_str(&mut out, st.emoji());
    push_str(&mut out, " ");
    push_str(&mut out, st.description().as_str());
    push_str(&mut out, "\n");
    let mid = match local {
        Some(info) => {
            let mut m = local_section_text(info);
            push_str(&mut m, sync_advice_text(st).as_str());
            m
        },
        None => {
            let mut m = string_from("\n❌ Not cloned locally.\n   Run: git clone ");
            push_str(&mut m, ssh_url);
            push_str(&mut m, "\n");
            m
        },
    };
    push_str(&mut out, mid.as_str());
    push_str(&mut out, remote_section_text(remote).as_str());
    push_str(&mut out, "\n");
    push_str(&mut out, rule_text(60).as_str());
    push_str(&mut out, "\n");
    out
}

/// The line for one repository of the multi-repository sync page; `None` when its
/// status could not be checked.
pub open spec fn multi_sync_line(name_with_owner: Seq<char>, st: Option<SyncStatus>) -> Seq<char> {
    match st {
        Some(s) => "  "@ + emoji_text(s) + " "@ + name_with_owner + " — "@ + description_text(s) + "\n"@,
        None => "  ⚠️  "@ + name_with_owner + " — error checking sync\n"@,
    }
}

/// The lines for the repositories, in order.
pub open spec fn multi_sync_lines(rs: Seq<(String, Option<SyncStatus>)>) -> Seq<char>
    decreases rs.len(),
{
    if rs.len() == 0 {
        Seq::empty()
    } else {
        multi_sync_lines(rs.drop_last()) + multi_sync_line(rs.last().0@, rs.last().1)
    }
}

/// The page for the multi-repository sync check.
pub open spec fn multi_sync_page(rs: Seq<(String, Option<SyncStatus>)>) -> Seq<char> {
    "Multi-Repo Sync Status — "@ + decimal(rs.len()) + " repositories\n"@ + rule(60) + "\n"@
        + multi_sync_lines(rs) + "\n"@ + rule(60) + "\n"@
}

/// The page for the multi-repository sync check (see `multi_sync_page`).
pub fn multi_sync_text(rs: &Vec<(String, Option<SyncStatus>)>) -> (out: String)
    ensures
        out@ == multi_sync_page(rs@),
{
    let mut out = string_from("Multi-Repo Sync Status — ");
    push_str(&mut out, usize_text(rs.len()).as_str());
    push_str(&mut out, " repositories\n");
    push_str(&mut out, rule_text(60).as_str());
    push_str(&mut out, "\n");
    let ghost head = out@;
    assert(rs@.take(0) =~= Seq::<(String, Option<SyncStatus>)>::empty());
    assert(head + Seq::<char>::empty() =~= head);
    let mut i: usize = 0;
    while i < rs.len()
        invariant
            i <= rs.len(),
            out@ == head + multi_sync_lines(rs@.take(i as int)),
        decreases rs.len() - i,
    {
        assert(rs@.take(i + 1).drop_last() =~= rs@.take(i as int));
        let (name, st) = &rs[i];
        let frag = match st {
            Some(s) => {
                let mut f = string_from("  ");
                push_str(&mut f, s.emoji());
                push_str(&mut f, " ");
                push_str(&mut f, name.as_str());
                push_str(&mut f, " — ");
                push_str(&mut f, s.description().as_str());
                push_str(&mut f, "\n");
                f
            },
            None => {
                let mut f = string_from("  ⚠️  ");
                push_str(&mut f, name.as_str());
                push_str(&mut f, " — error checking sync\n");
                f
            },
        };
        let ghost before = out@;
        push_str(&mut out, frag.as_str());
        assert(head + multi_sync_lines(rs@.take(i + 1)) =~= before + frag@);
        i += 1;
    }
    assert(rs@.take(rs.len() as int) =~= rs@);
    push_str(&mut out, "\n");
    push_str(&mut out, rule_text(60).as_str());
    push_str(&mut out, "\n");
    out
}

} // verus!
