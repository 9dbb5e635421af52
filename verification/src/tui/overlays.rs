use vstd::prelude::*;

use crate::scanner::ignore::{IgnoredItem, IgnoredItemView};
use crate::scanner::report::Finding;
use crate::text::{
    alphanumeric, byte_prefix, chars_of, clone_opt_string, cut_ok, is_alphanumeric, prefix_bytes,
    char_count, clear_string, copy_chars, lines_chars, lines_seq, insert_char, push_str, remove_char, split_chars, trim, split_seq, str_eq, string_from, string_of, trim_chars, trim_seq,
};
use crate::tui::keys::{KeyCode, KeyEvent};
use crate::tui::styled::{Rgb, StyledLine};

verus! {

// ─── Scanner overlay ─────────────────────────────────────────────────────────

/// What the user chose for the finding on screen.
#[derive(Debug, Clone, Copy, PartialEq, Eq, Structural)]
pub enum ScanChoice {
    Ignore,
    Keep,
}

/// Review of scanner findings, one at a time.
pub struct ScannerOverlay {
    pub findings: Vec<Finding>,
    pub current_index: usize,
    pub choice: ScanChoice,
    pub done: bool,
}

impl ScannerOverlay {
    /// Starts the review at the first finding, with "keep" chosen.
    pub fn new(findings: Vec<Finding>) -> (ov: ScannerOverlay)
        ensures
            ov.findings@ == findings@,
            ov.current_index == 0,
            ov.choice == ScanChoice::Keep,
            !ov.done,
    {
        ScannerOverlay { findings, current_index: 0, choice: ScanChoice::Keep, done: false }
    }

    /// The finding on screen, if any is left.
    pub fn current(&self) -> (r: Option<&Finding>)
        ensures
            self.current_index < self.findings.len() ==> r == Some(&self.findings@[self.current_index as int]),
            self.current_index >= self.findings.len() ==> r is None,
    {
        if self.current_index < self.findings.len() {
            Some(&self.findings[self.current_index])
        } else {
            None
        }
    }

    /// Number of findings under review.
    pub fn total(&self) -> (n: usize)
        ensures
            n == self.findings.len(),
    {
        self.findings.len()
    }
}

/// `c` ends a word: it is neither alphanumeric nor `_`.
pub open spec fn is_word_sep(c: char) -> bool {
    !alphanumeric(c) && c != '_'
}

/// Words completed so far and the current word, reading `s` and cutting at word separators.
pub open spec fn word_fold(s: Seq<char>) -> (Seq<Seq<char>>, Seq<char>)
    decreases s.len(),
{
    if s.len() == 0 {
        (Seq::empty(), Seq::empty())
    } else {
        let (done, cur) = word_fold(s.drop_last());
        if is_word_sep(s.last()) {
            (done.push(cur), Seq::empty())
        } else {
            (done, cur.push(s.last()))
        }
    }
}

/// The last non-empty piece, if any.
pub open spec fn last_nonempty(ps: Seq<Seq<char>>) -> Option<Seq<char>>
    decreases ps.len(),
{
    if ps.len() == 0 {
        None
    } else if ps.last().len() > 0 {
        Some(ps.last())
    } else {
        last_nonempty(ps.drop_last())
    }
}

/// The name of the variable that a finding's line assigns: the last identifier-like word
/// before the first `=`, or "unknown".
pub open spec fn variable_of(content: Seq<char>) -> Seq<char> {
    let t = trim_seq(split_seq(content, '=')[0]);
    let (done, cur) = word_fold(t);
    match last_nonempty(done.push(cur)) {
        Some(w) => w,
        None => "unknown"@,
    }
}

/// The record that ignoring finding `f` adds to the ignore database.
pub open spec fn ignored_item_for(f: Finding) -> IgnoredItemView {
    IgnoredItemView {
        fingerprint: f.fingerprint@,
        short_id: byte_prefix(f.fingerprint@, 8),
        variable: variable_of(f.content@),
        source: if f.commit is Some { "history"@ } else { "working"@ },
        commit: f.commit.deep_view(),
    }
}

proof fn lemma_last_nonempty_push(ps: Seq<Seq<char>>, x: Seq<char>)
    ensures
        last_nonempty(ps.push(x)) == (if x.len() > 0 { Some(x) } else { last_nonempty(ps) }),
{
    assert(ps.push(x).drop_last() =~= ps);
}

/// The variable name that a finding's line assigns (see `variable_of`).
pub fn variable_name(content: &str) -> (r: String)
    ensures
        r@ == variable_of(content@),
{
    let cs = chars_of(content);
    let pieces = split_chars(&cs, '=');
    assert(split_seq(cs@, '=').len() >= 1);
    assert(pieces@.map_values(|l: Vec<char>| l@).len() == pieces@.len());
    assert(pieces@.map_values(|l: Vec<char>| l@)[0] == pieces@[0]@);
    let t = trim_chars(&pieces[0]);
    let mut last: Option<Vec<char>> = None;
    let mut cur: Vec<char> = Vec::new();
    let ghost mut done: Seq<Seq<char>> = Seq::empty();
    let mut i: usize = 0;
    while i < t.len()
        invariant
            i <= t.len(),
            word_fold(t@.take(i as int)) == (done, cur@),
            last_nonempty(done) == (match last {
                Some(v) => Some(v@),
                None => None::<Seq<char>>,
            }),
        decreases t.len() - i,
    {
        assert(t@.take(i + 1).drop_last() =~= t@.take(i as int));
        let c = t[i];
        if !is_alphanumeric(c) && c != '_' {
            proof {
                lemma_last_nonempty_push(done, cur@);
                done = done.push(cur@);
            }
            if cur.len() > 0 {
                last = Some(cur);
            }
            cur = Vec::new();
            assert(cur@ =~= Seq::<char>::empty());
        } else {
            cur.push(c);
        }
        i += 1;
    }
    assert(t@.take(t.len() as int) =~= t@);
    proof {
        lemma_last_nonempty_push(done, cur@);
    }
    if cur.len() > 0 {
        string_of(&cur)
    } else {
        match last {
            Some(v) => string_of(&v),
            None => string_from("unknown"),
        }
    }
}

/// The ignore-database record for a finding (see `ignored_item_for`).
pub fn ignored_item_from_finding(f: &Finding) -> (item: IgnoredItem)
    requires
        cut_ok(f.fingerprint@, 8),
    ensures
        item@ == ignored_item_for(*f),
{
    let short_id = prefix_bytes(f.fingerprint.as_str(), 8);
    let variable = variable_name(f.content.as_str());
    let source = if f.commit.is_some() {
        string_from("history")
    } else {
        string_from("working")
    };
    IgnoredItem {
        fingerprint: f.fingerprint.clone(),
        short_id,
        variable,
        source,
        commit: clone_opt_string(&f.commit),
    }
}

/// Keys that move the scanner choice to "ignore".
pub open spec fn scanner_ignore_key(k: KeyCode) -> bool {
    k == KeyCode::Left || k == KeyCode::Char('h') || k == KeyCode::Down || k == KeyCode::Char('j')
}

/// Keys that move the scanner choice to "keep".
pub open spec fn scanner_keep_key(k: KeyCode) -> bool {
    k == KeyCode::Right || k == KeyCode::Char('l') || k == KeyCode::Up || k == KeyCode::Char('k')
}

/// Keys that close an overlay: Esc and `q`.
pub open spec fn quit_key(k: KeyCode) -> bool {
    k == KeyCode::Esc || k == KeyCode::Char('q')
}

/// What a key press on the scanner review needs, for the key to be handled.
pub open spec fn scanner_key_ok(ov: &ScannerOverlay, k: KeyCode) -> bool {
    k == KeyCode::Enter ==> {
        &&& ov.current_index < usize::MAX
        &&& (ov.choice == ScanChoice::Ignore && ov.current_index < ov.findings.len() ==> cut_ok(
            ov.findings@[ov.current_index as int].fingerprint@,
            8,
        ))
    }
}

/// The scanner review `n` and the returned record `r` after key `k` on review `o`.
pub open spec fn scanner_step(o: ScannerOverlay, n: ScannerOverlay, k: KeyCode, r: Option<IgnoredItem>) -> bool {
    &&& (n.findings@ == o.findings@)
    &&& (scanner_ignore_key(k) ==> r is None && n.current_index == o.current_index
            && n.choice == ScanChoice::Ignore && n.done == o.done)
    &&& (scanner_keep_key(k) ==> r is None && n.current_index == o.current_index
            && n.choice == ScanChoice::Keep && n.done == o.done)
    &&& (k == KeyCode::Enter ==> {
            &&& n.current_index == o.current_index + 1
            &&& n.choice == ScanChoice::Keep
            &&& n.done == (o.done || o.current_index + 1 >= o.findings.len())
            &&& (r is Some <==> (o.choice == ScanChoice::Ignore && o.current_index
                < o.findings.len()))
            &&& (r is Some ==> r.unwrap()@ == ignored_item_for(
                o.findings@[o.current_index as int],
            ))
        })
    &&& (quit_key(k) ==> r is None && n.current_index == o.current_index
            && n.choice == o.choice && n.done)
    &&& (!(scanner_ignore_key(k) || scanner_keep_key(k) || k == KeyCode::Enter
            || quit_key(k)) ==> r is None && n.current_index == o.current_index
            && n.choice == o.choice && n.done == o.done)
}

/// Handles a key on the scanner review. On Enter with "ignore" chosen, returns the
/// record to add to the ignore database for the finding on screen, then moves on.
pub fn handle_scanner_key(ov: &mut ScannerOverlay, key: KeyEvent) -> (r: Option<IgnoredItem>)
    requires
        scanner_key_ok(old(ov), key.code),
    ensures
        scanner_step(*old(ov), *final(ov), key.code, r),
{
    match key.code {
        KeyCode::Left | KeyCode::Char('h') | KeyCode::Down | KeyCode::Char('j') => {
            ov.choice = ScanChoice::Ignore;
            None
        },
        KeyCode::Right | KeyCode::Char('l') | KeyCode::Up | KeyCode::Char('k') => {
            ov.choice = ScanChoice::Keep;
            None
        },
        KeyCode::Enter => {
            let mut r: Option<IgnoredItem> = None;
            if ov.choice == ScanChoice::Ignore && ov.current_index < ov.findings.len() {
                r = Some(ignored_item_from_finding(&ov.findings[ov.current_index]));
            }
            ov.current_index = ov.current_index + 1;
            ov.choice = ScanChoice::Keep;
            if ov.current_index >= ov.findings.len() {
                ov.done = true;
            }
            r
        },
        KeyCode::Esc | KeyCode::Char('q') => {
            ov.done = true;
            None
        },
        _ => None,
    }
}


// ─── Ignore-list overlay ─────────────────────────────────────────────────────

/// The list of ignored findings, with "clear all" and "close" below the items.
pub struct IgnoreOverlay {
    pub items: Vec<IgnoredItem>,
    pub selected: usize,
    pub done: bool,
}

impl IgnoreOverlay {
    /// Shows the given items, with the first row selected.
    pub fn new(items: Vec<IgnoredItem>) -> (ov: IgnoreOverlay)
        ensures
            ov.items@ == items@,
            ov.selected == 0,
            !ov.done,
    {
        IgnoreOverlay { items, selected: 0, done: false }
    }

    /// The "clear all" row is selected: it comes right after the items.
    pub fn is_clear_all_selected(&self) -> (b: bool)
        ensures
            b == (self.selected == self.items.len()),
    {
        self.selected == self.items.len()
    }
}

/// What the ignore list asks of the database after a key.
pub enum IgnoreRequest {
    Nothing,
    /// Remove the items with this short id, then reload the list.
    Remove(String),
    /// Remove every item.
    ClearAll,
}

/// Keys that move a selection up: Up and `k`.
pub open spec fn up_key(k: KeyCode) -> bool {
    k == KeyCode::Up || k == KeyCode::Char('k')
}

/// Keys that move a selection down: Down and `j`.
pub open spec fn down_key(k: KeyCode) -> bool {
    k == KeyCode::Down || k == KeyCode::Char('j')
}

/// What a key press on the ignore list needs, for the key to be handled.
pub open spec fn ignore_key_ok(ov: &IgnoreOverlay) -> bool {
    ov.items.len() + 2 <= usize::MAX && ov.selected < usize::MAX
}

/// The ignore list `n` and the request `req` after key `k` on list `o`.
pub open spec fn ignore_step(o: IgnoreOverlay, n: IgnoreOverlay, k: KeyCode, req: IgnoreRequest) -> bool {
    &&& ({
            let len = o.items.len();
            let sel = o.selected;
            &&& up_key(k) ==> req is Nothing && n.items@ == o.items@
                && n.done == o.done
                && n.selected == (if sel > 0 { (sel - 1) as usize } else { (len + 1) as usize })
            &&& down_key(k) ==> req is Nothing && n.items@ == o.items@
                && n.done == o.done
                && n.selected == (sel + 1) % (len + 2)
            &&& (k == KeyCode::Enter && sel < len) ==> n.items@ == o.items@
                && n.selected == sel && n.done == o.done
                && (req matches IgnoreRequest::Remove(id) && id@ == o.items@[sel as int].short_id@)
            &&& (k == KeyCode::Enter && sel == len) ==> req is ClearAll && n.items@.len() == 0
                && n.selected == sel && n.done
            &&& (k == KeyCode::Enter && sel > len) ==> req is Nothing && n.items@ == o.items@
                && n.selected == sel && n.done
            &&& quit_key(k) ==> req is Nothing && n.items@.len() == 0 && n.selected == sel
                && n.done
            &&& !(up_key(k) || down_key(k) || k == KeyCode::Enter || quit_key(k)) ==> req is Nothing
                && n.items@ == o.items@ && n.selected == sel
                && n.done == o.done
        })
}

/// Handles a key on the ignore list. Up and Down cycle through the items and the two rows
/// below them; Enter on an item asks for its removal, on "clear all" empties the list, on
/// "close" closes it; Esc and `q` close it.
pub fn handle_ignore_key(ov: &mut IgnoreOverlay, key: KeyEvent) -> (req: IgnoreRequest)
    requires
        ignore_key_ok(old(ov)),
    ensures
        ignore_step(*old(ov), *final(ov), key.code, req),
{
    let total_options = ov.items.len() + 2;
    match key.code {
        KeyCode::Up | KeyCode::Char('k') => {
            if ov.selected > 0 {
                ov.selected = ov.selected - 1;
            } else {
                ov.selected = total_options - 1;
            }
            IgnoreRequest::Nothing
        },
        KeyCode::Down | KeyCode::Char('j') => {
            ov.selected = (ov.selected + 1) % total_options;
            IgnoreRequest::Nothing
        },
        KeyCode::Enter => {
            let len = ov.items.len();
            if ov.selected < len {
                IgnoreRequest::Remove(ov.items[ov.selected].short_id.clone())
            } else if ov.selected == len {
                ov.items.clear();
                ov.done = true;
                IgnoreRequest::ClearAll
            } else {
                ov.done = true;
                IgnoreRequest::Nothing
            }
        },
        KeyCode::Esc | KeyCode::Char('q') => {
            ov.items.clear();
            ov.done = true;
            IgnoreRequest::Nothing
        },
        _ => IgnoreRequest::Nothing,
    }
}

/// Shows the list as reloaded after a removal, keeping the selection on a row that exists.
pub fn ignore_items_reloaded(ov: &mut IgnoreOverlay, items: Vec<IgnoredItem>)
    ensures
        final(ov).items@ == items@,
        final(ov).done == old(ov).done,
        final(ov).selected == (if items.len() == 0 {
            0
        } else if old(ov).selected >= items.len() {
            (items.len() - 1) as usize
        } else {
            old(ov).selected
        }),
{
    ov.items = items;
    if ov.items.len() == 0 {
        ov.selected = 0;
    } else if ov.selected >= ov.items.len() {
        ov.selected = ov.items.len() - 1;
    }
}

// ─── Info overlay ────────────────────────────────────────────────────────────

/// A scrollable page of styled text with a title.
pub struct InfoOverlay {
    pub title: String,
    pub lines: Vec<StyledLine>,
    pub scroll: usize,
    pub done: bool,
    pub accent: Rgb,
}

impl InfoOverlay {
    /// Shows `lines` from the top.
    pub fn new(title: String, lines: Vec<StyledLine>, accent: Rgb) -> (ov: InfoOverlay)
        ensures
            ov.title@ == title@,
            ov.lines@ == lines@,
            ov.scroll == 0,
            !ov.done,
            ov.accent == accent,
    {
        InfoOverlay { title, lines, scroll: 0, done: false, accent }
    }
}

/// What a key press on an info page needs: scrolling down stays within `usize`.
pub open spec fn info_key_ok(ov: &InfoOverlay, k: KeyCode) -> bool {
    &&& down_key(k) ==> ov.scroll < usize::MAX
    &&& k == KeyCode::PageDown ==> ov.scroll + 10 <= usize::MAX
}

/// The info page `n` after key `k` on page `o`.
pub open spec fn info_step(o: InfoOverlay, n: InfoOverlay, k: KeyCode) -> bool {
    &&& (n.title@ == o.title@)
    &&& (n.lines@ == o.lines@)
    &&& (n.accent == o.accent)
    &&& (n.done == (o.done || quit_key(k)))
    &&& n.scroll == (if up_key(k) {
        if o.scroll > 0 { (o.scroll - 1) as usize } else { 0 }
    } else if down_key(k) {
        (o.scroll + 1) as usize
    } else if k == KeyCode::PageUp {
        if o.scroll > 10 { (o.scroll - 10) as usize } else { 0 }
    } else if k == KeyCode::PageDown {
        (o.scroll + 10) as usize
    } else {
        o.scroll
    })
}

/// Handles a key on an info page: Esc and `q` close it, Up/Down scroll by one line,
/// PageUp/PageDown by ten (never above the top).
pub fn handle_info_key(ov: &mut InfoOverlay, key: KeyEvent)
    requires
        info_key_ok(old(ov), key.code),
    ensures
        info_step(*old(ov), *final(ov), key.code),
{
    match key.code {
        KeyCode::Esc | KeyCode::Char('q') => {
            ov.done = true;
        },
        KeyCode::Up | KeyCode::Char('k') => {
            if ov.scroll > 0 {
                ov.scroll = ov.scroll - 1;
            }
        },
        KeyCode::Down | KeyCode::Char('j') => {
            ov.scroll = ov.scroll + 1;
        },
        KeyCode::PageUp => {
            ov.scroll = ov.scroll.saturating_sub(10);
        },
        KeyCode::PageDown => {
            ov.scroll = ov.scroll + 10;
        },
        _ => {},
    }
}


// ─── Auth overlay ────────────────────────────────────────────────────────────

/// Where the GitHub login overlay stands.
pub enum AuthStep {
    /// Choosing between login, logout and status.
    Menu,
    /// A device code was issued; the user is asked to enter it.
    ShowCode { user_code: String, url: String },
    /// Waiting for the user to authorize; `frame` drives the spinner.
    Polling { user_code: String, url: String, frame: usize },
    /// A final message.
    Result(String),
}

/// The GitHub login overlay.
pub struct AuthOverlay {
    pub step: AuthStep,
    pub selected: usize,
    pub done: bool,
    /// A background poll for the access token is running.
    pub polling: bool,
}

impl AuthOverlay {
    /// The menu, with "login" selected.
    pub fn new() -> (ov: AuthOverlay)
        ensures
            ov.step is Menu,
            ov.selected == 0,
            !ov.done,
            !ov.polling,
    {
        AuthOverlay { step: AuthStep::Menu, selected: 0, done: false, polling: false }
    }
}

/// The message a background poll sends when the token was obtained and stored.
pub open spec fn auth_success_text() -> Seq<char> {
    "__AUTH_SUCCESS__"@
}

/// The spinner frame after a tick: one more, wrapping around.
pub open spec fn ticked(step: AuthStep) -> AuthStep {
    match step {
        AuthStep::Polling { user_code, url, frame } => AuthStep::Polling {
            user_code,
            url,
            frame: if frame == usize::MAX {
                0
            } else {
                (frame + 1) as usize
            },
        },
        other => other,
    }
}

/// The login overlay `n` after a tick on overlay `o`, with `msg` the background login's
/// message if one came.
pub open spec fn auth_tick_step(o: AuthOverlay, n: AuthOverlay, msg: Option<String>) -> bool {
    &&& n.selected == o.selected
    &&& if o.polling && msg is Some {
        &&& !n.polling
        &&& if msg.unwrap()@ == auth_success_text() {
            n.done && n.step == ticked(o.step)
        } else {
            n.done == o.done && n.step == AuthStep::Result(msg.unwrap())
        }
    } else {
        n.polling == o.polling && n.done == o.done && n.step == ticked(o.step)
    }
}

/// Advances the spinner, and takes the background poll's message if one came: success
/// closes the overlay, anything else is shown as the result. Messages are only taken
/// while a poll is running. Returns true when the overlay should close: this tick took
/// the success message.
pub fn auth_overlay_tick(ov: &mut AuthOverlay, msg: Option<String>) -> (r: bool)
    ensures
        r == (old(ov).polling && msg is Some && msg.unwrap()@ == auth_success_text()),
        r ==> final(ov).done,
        auth_tick_step(*old(ov), *final(ov), msg),
{
    if let AuthStep::Polling { frame, .. } = &mut ov.step {
        *frame = frame.wrapping_add(1);
    }
    let mut close = false;
    if ov.polling {
        if let Some(m) = msg {
            ov.polling = false;
            if str_eq(m.as_str(), "__AUTH_SUCCESS__") {
                ov.done = true;
                close = true;
            } else {
                ov.step = AuthStep::Result(m);
            }
        }
    }
    close
}


/// What the login overlay asks for after a key.
pub enum AuthRequest {
    Nothing,
    /// Start the device login: request a code from GitHub.
    Login,
    /// Remove the stored token.
    Logout,
    /// Report whether a token is stored.
    Status,
}

/// The result of a key on the login overlay.
pub struct AuthKeyOutcome {
    pub close: bool,
    pub request: AuthRequest,
}

/// The login overlay `n` and the outcome `out` after key `k` on overlay `o`.
pub open spec fn auth_step(o: AuthOverlay, n: AuthOverlay, k: KeyCode, out: AuthKeyOutcome) -> bool {
    &&& ({
            let sel = o.selected;
            match o.step {
                AuthStep::Menu => {
                    &&& n.step == o.step
                    &&& n.done == o.done
                    &&& n.polling == o.polling
                    &&& out.close == quit_key(k)
                    &&& n.selected == (if up_key(k) && sel > 0 {
                        (sel - 1) as usize
                    } else if down_key(k) && sel < 2 {
                        (sel + 1) as usize
                    } else {
                        sel
                    })
                    &&& out.request == (if k == KeyCode::Enter {
                        if sel == 0 {
                            AuthRequest::Login
                        } else if sel == 1 {
                            AuthRequest::Logout
                        } else {
                            AuthRequest::Status
                        }
                    } else {
                        AuthRequest::Nothing
                    })
                },
                AuthStep::ShowCode { user_code, url } => {
                    &&& out.request is Nothing
                    &&& out.close == quit_key(k)
                    &&& n.selected == sel
                    &&& n.done == o.done
                    &&& n.polling == (o.polling && !quit_key(k))
                    &&& n.step == (if quit_key(k) {
                        o.step
                    } else {
                        AuthStep::Polling { user_code, url, frame: 0 }
                    })
                },
                AuthStep::Polling { .. } => {
                    &&& out.request is Nothing
                    &&& out.close == quit_key(k)
                    &&& n.selected == sel
                    &&& n.done == o.done
                    &&& n.polling == (o.polling && !quit_key(k))
                    &&& n.step == o.step
                },
                AuthStep::Result(_) => {
                    &&& out.request is Nothing
                    &&& out.close == (quit_key(k) || k == KeyCode::Enter)
                    &&& n.selected == sel
                    &&& n.done == o.done
                    &&& n.polling == o.polling
                    &&& n.step == o.step
                },
            }
        })
}

/// Handles a key on the login overlay. In the menu, Up/Down move between login, logout
/// and status, and Enter asks for the selected one; a shown code turns into the waiting
/// screen on any key; Esc and `q` close (stopping a running poll), and on a result Enter
/// closes too.
pub fn handle_auth_key(ov: &mut AuthOverlay, key: KeyEvent) -> (o: AuthKeyOutcome)
    ensures
        auth_step(*old(ov), *final(ov), key.code, o),
{
    let mut st = AuthStep::Menu;
    std::mem::swap(&mut st, &mut ov.step);
    let quit = match key.code {
        KeyCode::Esc | KeyCode::Char('q') => true,
        _ => false,
    };
    match st {
        AuthStep::Menu => {
            ov.step = AuthStep::Menu;
            match key.code {
                KeyCode::Esc | KeyCode::Char('q') => {
                    return AuthKeyOutcome { close: true, request: AuthRequest::Nothing };
                },
                KeyCode::Up | KeyCode::Char('k') => {
                    if ov.selected > 0 {
                        ov.selected = ov.selected - 1;
                    }
                },
                KeyCode::Down | KeyCode::Char('j') => {
                    if ov.selected < 2 {
                        ov.selected = ov.selected + 1;
                    }
                },
                KeyCode::Enter => {
                    let request = if ov.selected == 0 {
                        AuthRequest::Login
                    } else if ov.selected == 1 {
                        AuthRequest::Logout
                    } else {
                        AuthRequest::Status
                    };
                    return AuthKeyOutcome { close: false, request };
                },
                _ => {},
            }
            AuthKeyOutcome { close: false, request: AuthRequest::Nothing }
        },
        AuthStep::ShowCode { user_code, url } => {
            if quit {
                ov.step = AuthStep::ShowCode { user_code, url };
                ov.polling = false;
                AuthKeyOutcome { close: true, request: AuthRequest::Nothing }
            } else {
                ov.step = AuthStep::Polling { user_code, url, frame: 0 };
                AuthKeyOutcome { close: false, request: AuthRequest::Nothing }
            }
        },
        AuthStep::Polling { user_code, url, frame } => {
            ov.step = AuthStep::Polling { user_code, url, frame };
            if quit {
                ov.polling = false;
            }
            AuthKeyOutcome { close: quit, request: AuthRequest::Nothing }
        },
        AuthStep::Result(m) => {
            ov.step = AuthStep::Result(m);
            let close = match key.code {
                KeyCode::Esc | KeyCode::Char('q') | KeyCode::Enter => true,
                _ => false,
            };
            AuthKeyOutcome { close, request: AuthRequest::Nothing }
        },
    }
}

/// A device code was issued: show it, with a poll for the token running.
pub fn auth_code_received(ov: &mut AuthOverlay, user_code: String, url: String)
    ensures
        final(ov).step == (AuthStep::ShowCode { user_code, url }),
        final(ov).polling,
        final(ov).selected == old(ov).selected,
        final(ov).done == old(ov).done,
{
    ov.polling = true;
    ov.step = AuthStep::ShowCode { user_code, url };
}

/// Shows a final message.
pub fn auth_show_result(ov: &mut AuthOverlay, message: String)
    ensures
        final(ov).step == AuthStep::Result(message),
        final(ov).polling == old(ov).polling,
        final(ov).selected == old(ov).selected,
        final(ov).done == old(ov).done,
{
    ov.step = AuthStep::Result(message);
}

/// `prefix` followed by `s`.
fn prefixed(prefix: &str, s: &str) -> (r: String)
    ensures
        r@ == prefix@ + s@,
{
    let mut r = string_from(prefix);
    push_str(&mut r, s);
    r
}

/// The message for a failed request: "Error: " and the error's text.
pub fn error_message(error: &str) -> (r: String)
    ensures
        r@ == "Error: "@ + error@,
{
    prefixed("Error: ", error)
}

/// The message after a logout attempt; `error` is the error's text if it failed.
pub fn logout_message(error: Option<String>) -> (r: String)
    ensures
        error is None ==> r@ == "Logged out. GitHub token removed."@,
        error is Some ==> r@ == "Error: "@ + error.unwrap()@,
{
    match error {
        None => string_from("Logged out. GitHub token removed."),
        Some(e) => error_message(e.as_str()),
    }
}

/// The message reporting whether a token is stored.
pub fn status_message(has_token: bool) -> (r: String)
    ensures
        has_token ==> r@ == "Authenticated ✔  — GitHub token is present."@,
        !has_token ==> r@ == "Not authenticated. Run /auth login to connect."@,
{
    if has_token {
        string_from("Authenticated ✔  — GitHub token is present.")
    } else {
        string_from("Not authenticated. Run /auth login to connect.")
    }
}

/// How a background login ended.
pub enum LoginOutcome {
    /// The token was obtained and stored.
    Saved,
    /// The token was obtained but could not be stored.
    SaveFailed(String),
    /// No token was obtained.
    Failed(String),
}

/// The message a background login sends to the overlay.
pub fn login_outcome_message(outcome: LoginOutcome) -> (r: String)
    ensures
        match outcome {
            LoginOutcome::Saved => r@ == auth_success_text(),
            LoginOutcome::SaveFailed(e) => r@ == "Error saving token: "@ + e@,
            LoginOutcome::Failed(e) => r@ == "Error: "@ + e@,
        },
{
    match outcome {
        LoginOutcome::Saved => string_from("__AUTH_SUCCESS__"),
        LoginOutcome::SaveFailed(e) => prefixed("Error saving token: ", e.as_str()),
        LoginOutcome::Failed(e) => error_message(e.as_str()),
    }
}


// ─── PRP commit overlay ──────────────────────────────────────────────────────

/// Where the multi-repository commit overlay stands.
#[derive(Debug, Clone, Copy, PartialEq, Eq, Structural)]
pub enum PrpStep {
    SelectRepos,
    EnterMessage,
    Result,
}

/// Commit in several repositories at once: choose them, type a message, see the results.
pub struct PrpOverlay {
    pub repos: Vec<String>,
    /// Whether each repository takes part; one flag per repository.
    pub included: Vec<bool>,
    pub selected: usize,
    pub step: PrpStep,
    pub input_buf: String,
    /// Cursor position in the message, in characters.
    pub input_cursor: usize,
    pub result_lines: Vec<String>,
    pub done: bool,
}

impl PrpOverlay {
    /// The overlay is consistent: one flag per repository, the selection on a repository
    /// (or at 0), and the cursor within the message.
    pub open spec fn wf(&self) -> bool {
        &&& self.included.len() == self.repos.len()
        &&& (self.selected == 0 || self.selected < self.repos.len())
        &&& self.input_cursor <= self.input_buf@.len()
    }

    /// All repositories included, the first selected, no message yet.
    pub fn new(repos: Vec<String>) -> (ov: PrpOverlay)
        ensures
            ov.wf(),
            ov.repos@ == repos@,
            forall|i: int| 0 <= i < ov.included.len() ==> ov.included@[i],
            ov.selected == 0,
            ov.step == PrpStep::SelectRepos,
            ov.input_buf@.len() == 0,
            ov.input_cursor == 0,
            ov.result_lines.len() == 0,
            !ov.done,
    {
        let mut included: Vec<bool> = Vec::new();
        let mut i: usize = 0;
        while i < repos.len()
            invariant
                i <= repos.len(),
                included.len() == i,
                forall|j: int| 0 <= j < i ==> included@[j],
            decreases repos.len() - i,
        {
            included.push(true);
            i += 1;
        }
        PrpOverlay {
            repos,
            included,
            selected: 0,
            step: PrpStep::SelectRepos,
            input_buf: String::new(),
            input_cursor: 0,
            result_lines: Vec::new(),
            done: false,
        }
    }
}

/// The included repositories, in order.
pub open spec fn chosen_repos(repos: Seq<Seq<char>>, included: Seq<bool>) -> Seq<Seq<char>>
    decreases repos.len(),
{
    if repos.len() == 0 || included.len() == 0 {
        Seq::empty()
    } else {
        let r = chosen_repos(repos.drop_last(), included.drop_last());
        if included.last() {
            r.push(repos.last())
        } else {
            r
        }
    }
}

/// A commit to make in each of `repos`, with one message.
pub struct PrpCommitRequest {
    pub repos: Vec<String>,
    pub message: String,
}

/// The result of a key on the commit overlay.
pub struct PrpKeyOutcome {
    pub close: bool,
    pub commit: Option<PrpCommitRequest>,
}

/// The message being typed after a key: Backspace, Left, Right and characters edit it at
/// the cursor (counted in characters).
pub open spec fn edited(input: Seq<char>, cursor: int, k: KeyCode) -> (Seq<char>, int) {
    match k {
        KeyCode::Backspace => if cursor > 0 {
            (input.remove(cursor - 1), cursor - 1)
        } else {
            (input, cursor)
        },
        KeyCode::Left => if cursor > 0 {
            (input, cursor - 1)
        } else {
            (input, cursor)
        },
        KeyCode::Right => if cursor < input.len() {
            (input, cursor + 1)
        } else {
            (input, cursor)
        },
        KeyCode::Char(c) => (input.insert(cursor, c), cursor + 1),
        _ => (input, cursor),
    }
}

/// Applies an editing key to a text field with a cursor (see `edited`).
pub fn edit_field(input: &mut String, cursor: &mut usize, k: KeyCode)
    requires
        *old(cursor) <= old(input)@.len(),
        old(input)@.len() < usize::MAX,
    ensures
        (final(input)@, *final(cursor) as int) == edited(old(input)@, *old(cursor) as int, k),
        *final(cursor) <= final(input)@.len(),
{
    match k {
        KeyCode::Backspace => {
            if *cursor > 0 {
                *cursor = *cursor - 1;
                remove_char(input, *cursor);
            }
        },
        KeyCode::Left => {
            if *cursor > 0 {
                *cursor = *cursor - 1;
            }
        },
        KeyCode::Right => {
            if *cursor < char_count(input.as_str()) {
                *cursor = *cursor + 1;
            }
        },
        KeyCode::Char(c) => {
            insert_char(input, *cursor, c);
            *cursor = *cursor + 1;
        },
        _ => {},
    }
}

/// The included repositories, in order.
fn chosen_repo_list(repos: &Vec<String>, included: &Vec<bool>) -> (r: Vec<String>)
    requires
        included.len() == repos.len(),
    ensures
        r.deep_view() == chosen_repos(repos.deep_view(), included@),
{
    let mut r: Vec<String> = Vec::new();
    let mut i: usize = 0;
    while i < repos.len()
        invariant
            i <= repos.len(),
            included.len() == repos.len(),
            r.deep_view() == chosen_repos(repos.deep_view().take(i as int), included@.take(i as int)),
        decreases repos.len() - i,
    {
        assert(repos.deep_view().take(i + 1).drop_last() =~= repos.deep_view().take(i as int));
        assert(included@.take(i + 1).drop_last() =~= included@.take(i as int));
        if included[i] {
            let ghost before = r.deep_view();
            r.push(repos[i].clone());
            assert(r.deep_view() =~= before.push(repos[i as int]@));
        }
        i += 1;
    }
    assert(repos.deep_view().take(repos.len() as int) =~= repos.deep_view());
    assert(included@.take(repos.len() as int) =~= included@);
    r
}

/// Whether any flag is set.
fn any_true(v: &Vec<bool>) -> (b: bool)
    ensures
        b == exists|i: int| 0 <= i < v.len() && v@[i],
{
    let mut i: usize = 0;
    while i < v.len()
        invariant
            i <= v.len(),
            forall|j: int| 0 <= j < i ==> !v@[j],
        decreases v.len() - i,
    {
        if v[i] {
            return true;
        }
        i += 1;
    }
    false
}

/// The commit overlay `n` and the outcome `out` after key `k` on overlay `o`.
pub open spec fn prp_step(o: PrpOverlay, n: PrpOverlay, k: KeyCode, out: PrpKeyOutcome) -> bool {
    &&& (n.wf())
    &&& (n.repos@ == o.repos@)
    &&& (n.result_lines@ == o.result_lines@)
    &&& (n.done == o.done)
    &&& ({
            let sel = o.selected;
            match o.step {
                PrpStep::SelectRepos => {
                    &&& out.commit is None
                    &&& out.close == quit_key(k)
                    &&& n.selected == (if up_key(k) && sel > 0 {
                        (sel - 1) as usize
                    } else if down_key(k) && sel + 1 < o.repos.len() {
                        (sel + 1) as usize
                    } else {
                        sel
                    })
                    &&& n.included@ == (if k == KeyCode::Char(' ') && sel < o.included.len() {
                        o.included@.update(sel as int, !o.included@[sel as int])
                    } else {
                        o.included@
                    })
                    &&& if k == KeyCode::Enter && exists|i: int|
                        0 <= i < o.included.len() && o.included@[i] {
                        &&& n.step == PrpStep::EnterMessage
                        &&& n.input_buf@.len() == 0
                        &&& n.input_cursor == 0
                    } else {
                        &&& n.step == PrpStep::SelectRepos
                        &&& n.input_buf@ == o.input_buf@
                        &&& n.input_cursor == o.input_cursor
                    }
                },
                PrpStep::EnterMessage => {
                    let msg = trim_seq(o.input_buf@);
                    &&& !out.close
                    &&& n.selected == sel
                    &&& n.included@ == o.included@
                    &&& if k == KeyCode::Esc {
                        &&& out.commit is None
                        &&& n.step == PrpStep::SelectRepos
                        &&& n.input_buf@ == o.input_buf@
                        &&& n.input_cursor == o.input_cursor
                    } else if k == KeyCode::Enter {
                        &&& n.input_buf@ == o.input_buf@
                        &&& n.input_cursor == o.input_cursor
                        &&& if msg.len() > 0 {
                            &&& n.step == PrpStep::Result
                            &&& out.commit is Some
                            &&& out.commit.unwrap().message@ == msg
                            &&& out.commit.unwrap().repos.deep_view() == chosen_repos(
                                o.repos.deep_view(),
                                o.included@,
                            )
                        } else {
                            &&& n.step == PrpStep::EnterMessage
                            &&& out.commit is None
                        }
                    } else {
                        &&& out.commit is None
                        &&& n.step == PrpStep::EnterMessage
                        &&& (n.input_buf@, n.input_cursor as int) == edited(
                            o.input_buf@,
                            o.input_cursor as int,
                            k,
                        )
                    }
                },
                PrpStep::Result => {
                    &&& out.commit is None
                    &&& out.close == (quit_key(k) || k == KeyCode::Enter)
                    &&& n.selected == sel
                    &&& n.included@ == o.included@
                    &&& n.step == PrpStep::Result
                    &&& n.input_buf@ == o.input_buf@
                    &&& n.input_cursor == o.input_cursor
                },
            }
        })
}

/// Handles a key on the commit overlay. Choosing: Up/Down move, Space flips the
/// repository, Enter goes on to the message if any repository is included, Esc and `q`
/// close. Message: Esc goes back, Enter with a non-blank message asks for the commit of
/// the trimmed message in the included repositories and shows the results, other keys
/// edit. Results: Esc, `q` and Enter close.
pub fn handle_prp_key(ov: &mut PrpOverlay, key: KeyEvent) -> (o: PrpKeyOutcome)
    requires
        old(ov).wf(),
        old(ov).input_buf@.len() < usize::MAX,
    ensures
        prp_step(*old(ov), *final(ov), key.code, o),
{
    match ov.step {
        PrpStep::SelectRepos => {
            match key.code {
                KeyCode::Esc | KeyCode::Char('q') => {
                    return PrpKeyOutcome { close: true, commit: None };
                },
                KeyCode::Up | KeyCode::Char('k') => {
                    if ov.selected > 0 {
                        ov.selected = ov.selected - 1;
                    }
                },
                KeyCode::Down | KeyCode::Char('j') => {
                    if ov.selected + 1 < ov.repos.len() {
                        ov.selected = ov.selected + 1;
                    }
                },
                KeyCode::Char(' ') => {
                    if ov.selected < ov.included.len() {
                        let b = ov.included[ov.selected];
                        ov.included.set(ov.selected, !b);
                    }
                },
                KeyCode::Enter => {
                    if any_true(&ov.included) {
                        ov.step = PrpStep::EnterMessage;
                        clear_string(&mut ov.input_buf);
                        ov.input_cursor = 0;
                    }
                },
                _ => {},
            }
            PrpKeyOutcome { close: false, commit: None }
        },
        PrpStep::EnterMessage => {
            match key.code {
                KeyCode::Esc => {
                    ov.step = PrpStep::SelectRepos;
                    PrpKeyOutcome { close: false, commit: None }
                },
                KeyCode::Enter => {
                    let msg = trim(ov.input_buf.as_str());
                    if char_count(msg.as_str()) > 0 {
                        let repos = chosen_repo_list(&ov.repos, &ov.included);
                        ov.step = PrpStep::Result;
                        PrpKeyOutcome {
                            close: false,
                            commit: Some(PrpCommitRequest { repos, message: msg }),
                        }
                    } else {
                        PrpKeyOutcome { close: false, commit: None }
                    }
                },
                _ => {
                    edit_field(&mut ov.input_buf, &mut ov.input_cursor, key.code);
                    PrpKeyOutcome { close: false, commit: None }
                },
            }
        },
        PrpStep::Result => {
            let close = match key.code {
                KeyCode::Esc | KeyCode::Char('q') | KeyCode::Enter => true,
                _ => false,
            };
            PrpKeyOutcome { close, commit: None }
        },
    }
}


/// How `git add -A` and `git commit` went in one repository.
pub struct CommitRun {
    pub repo: String,
    /// `git` could be started.
    pub ran: bool,
    /// The commit succeeded.
    pub success: bool,
    pub stdout: String,
    pub stderr: String,
}

/// The first line of a text, if it has one.
pub open spec fn first_line(s: Seq<char>) -> Option<Seq<char>> {
    let ls = lines_seq(s);
    if ls.len() > 0 {
        Some(ls[0])
    } else {
        None
    }
}

/// The result lines for one repository.
pub open spec fn run_lines(r: CommitRun) -> Seq<Seq<char>> {
    if !r.ran {
        seq!["  ✖  "@ + r.repo@ + " — failed to run git"@]
    } else if r.success {
        let out = trim_seq(r.stdout@);
        if out.len() > 0 {
            seq!["  ✔  "@ + r.repo@, "     "@ + first_line(out).unwrap_or(Seq::empty())]
        } else {
            seq!["  ✔  "@ + r.repo@]
        }
    } else {
        let err = trim_seq(r.stderr@);
        seq![
            "  ✖  "@ + r.repo@ + " — "@ + match first_line(err) {
                Some(l) => l,
                None => "no changes"@,
            },
        ]
    }
}

/// The result lines for the repositories, in order.
pub open spec fn runs_lines(runs: Seq<CommitRun>) -> Seq<Seq<char>>
    decreases runs.len(),
{
    if runs.len() == 0 {
        Seq::empty()
    } else {
        runs_lines(runs.drop_last()) + run_lines(runs.last())
    }
}

/// The page shown after a commit session.
pub open spec fn prp_result_text(message: Seq<char>, runs: Seq<CommitRun>) -> Seq<Seq<char>> {
    seq![
        "🔗 PRP Commit Session"@,
        "────────────────────────────────────"@,
        "Commit message: "@ + message,
        Seq::empty(),
    ] + runs_lines(runs) + seq![Seq::empty(), "Press Enter or Esc to close."@]
}

/// The first line of a text, if it has one.
fn first_line_of(s: &Vec<char>) -> (r: Option<Vec<char>>)
    ensures
        match r {
            Some(l) => first_line(s@) == Some(l@),
            None => first_line(s@) is None,
        },
{
    let ls = lines_chars(s);
    assert(ls@.map_values(|l: Vec<char>| l@).len() == ls@.len());
    if ls.len() > 0 {
        assert(ls@.map_values(|l: Vec<char>| l@)[0] == ls@[0]@);
        Some(copy_chars(&ls[0]))
    } else {
        None
    }
}

/// The three pieces joined.
fn concat3(a: &str, b: &str, c: &str) -> (r: String)
    ensures
        r@ == a@ + b@ + c@,
{
    let mut r = string_from(a);
    push_str(&mut r, b);
    push_str(&mut r, c);
    r
}

/// The result lines for one repository (see `run_lines`).
fn commit_run_lines(r: &CommitRun) -> (out: Vec<String>)
    ensures
        out.deep_view() == run_lines(*r),
{
    let mut out: Vec<String> = Vec::new();
    if !r.ran {
        out.push(concat3("  ✖  ", r.repo.as_str(), " — failed to run git"));
    } else if r.success {
        out.push(prefixed("  ✔  ", r.repo.as_str()));
        let o = trim_chars(&chars_of(r.stdout.as_str()));
        if o.len() > 0 {
            let l = match first_line_of(&o) {
                Some(l) => l,
                None => Vec::new(),
            };
            let ls = string_of(&l);
            out.push(prefixed("     ", ls.as_str()));
        }
    } else {
        let e = trim_chars(&chars_of(r.stderr.as_str()));
        let l = match first_line_of(&e) {
            Some(l) => string_of(&l),
            None => string_from("no changes"),
        };
        let mut line = concat3("  ✖  ", r.repo.as_str(), " — ");
        push_str(&mut line, l.as_str());
        out.push(line);
    }
    assert(out.deep_view() =~= run_lines(*r));
    out
}

/// Appends copies of `more` to `v`.
fn extend_strings(v: &mut Vec<String>, more: &Vec<String>)
    ensures
        final(v).deep_view() == old(v).deep_view() + more.deep_view(),
{
    let mut i: usize = 0;
    while i < more.len()
        invariant
            i <= more.len(),
            v.deep_view() == old(v).deep_view() + more.deep_view().take(i as int),
        decreases more.len() - i,
    {
        let ghost before = v.deep_view();
        v.push(more[i].clone());
        assert(v.deep_view() =~= before.push(more[i as int]@));
        assert(more.deep_view().take(i + 1) =~= more.deep_view().take(i as int).push(more[i as int]@));
        assert(old(v).deep_view() + more.deep_view().take(i + 1) =~= (old(v).deep_view() + more.deep_view().take(i as int)).push(more[i as int]@));
        i += 1;
    }
    assert(more.deep_view().take(more.len() as int) =~= more.deep_view());
}

/// The page shown after a commit session (see `prp_result_text`).
pub fn prp_result_lines(message: &str, runs: &Vec<CommitRun>) -> (lines: Vec<String>)
    ensures
        lines.deep_view() == prp_result_text(message@, runs@),
{
    let mut lines: Vec<String> = Vec::new();
    let a = string_from("🔗 PRP Commit Session");
    let b = string_from("────────────────────────────────────");
    let c = prefixed("Commit message: ", message);
    let d = string_from("");
    let ghost head = seq![a@, b@, c@, d@];
    lines.push(a);
    lines.push(b);
    lines.push(c);
    lines.push(d);
    assert(lines.deep_view() =~= head);
    let mut i: usize = 0;
    while i < runs.len()
        invariant
            i <= runs.len(),
            lines.deep_view() == head + runs_lines(runs@.take(i as int)),
        decreases runs.len() - i,
    {
        let more = commit_run_lines(&runs[i]);
        extend_strings(&mut lines, &more);
        assert(runs@.take(i + 1).drop_last() =~= runs@.take(i as int));
        assert(head + runs_lines(runs@.take(i + 1)) =~= head + runs_lines(runs@.take(i as int)) + run_lines(runs@[i as int]));
        i += 1;
    }
    assert(runs@.take(runs.len() as int) =~= runs@);
    let ghost mid = lines.deep_view();
    let e = string_from("");
    let f = string_from("Press Enter or Esc to close.");
    let ghost tail = seq![e@, f@];
    lines.push(e);
    lines.push(f);
    assert(lines.deep_view() =~= mid + tail);
    assert(""@ =~= Seq::<char>::empty()) by {
        reveal_strlit("");
    }
    lines
}

/// Shows the results of the commit session.
pub fn prp_commit_done(ov: &mut PrpOverlay, lines: Vec<String>)
    requires
        old(ov).wf(),
    ensures
        final(ov).wf(),
        final(ov).result_lines@ == lines@,
        final(ov).repos@ == old(ov).repos@,
        final(ov).included@ == old(ov).included@,
        final(ov).selected == old(ov).selected,
        final(ov).step == old(ov).step,
        final(ov).input_buf@ == old(ov).input_buf@,
        final(ov).input_cursor == old(ov).input_cursor,
        final(ov).done == old(ov).done,
{
    ov.result_lines = lines;
}

} // verus!
