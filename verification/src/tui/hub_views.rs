//! What the login window, the commit session window and the info pages show, as
//! styled lines.

use vstd::prelude::*;

use crate::text::{
    chars_of, contains_seq, decimal, push_str, split_seq, starts_with_seq, str_contains, str_starts_with,
    string_from, string_of, uppercase_of, usize_text,
};
use crate::prp_hub::config::normal_parts;
use crate::tui::glyphs::{big_row, render_big_text};
use crate::tui::overlays::{AuthOverlay, AuthStep, PrpOverlay, PrpStep};
use crate::tui::pages::{empty_v, plain_v, LineV};
use crate::tui::planner_panels::{
    after_cursor, blank, bold_span, bold_span_of, bold_v, fg_span, fg_span_of, fg_v, four, one,
    raw_span, rgb, split_at_cursor, three, two, under_cursor, white_c,
};
use crate::tui::screen::spinner_frames;
use crate::tui::styled::{lines_view, Rgb, StyledLine, StyledSpan};

verus! {

// ── The login window ────────────────────────────────────────────────────────
/// The login window's accent colour.
pub open spec fn auth_accent_c() -> Rgb {
    Rgb { r: 80, g: 180, b: 120 }
}

/// The body text colour of the login window.
pub open spec fn auth_text_c() -> Rgb {
    Rgb { r: 160, g: 165, b: 185 }
}

/// The key hints under the login window for each step.
pub open spec fn auth_hint_v(s: AuthStep) -> Seq<char> {
    match s {
        AuthStep::Menu => "  ↑↓  select    Enter  confirm    Esc  close  "@,
        AuthStep::ShowCode { .. } => "  Opening browser in 5s…    Esc  cancel  "@,
        AuthStep::Polling { .. } => "  Waiting for authorization    Esc  cancel  "@,
        AuthStep::Result(_) => "  Enter / Esc  close  "@,
    }
}

/// The key hints under the login window (see `auth_hint_v`).
pub fn auth_hint(step: &AuthStep) -> (r: String)
    ensures
        r@ == auth_hint_v(*step),
{
    match step {
        AuthStep::Menu => string_from("  ↑↓  select    Enter  confirm    Esc  close  "),
        AuthStep::ShowCode { .. } => string_from("  Opening browser in 5s…    Esc  cancel  "),
        AuthStep::Polling { .. } => string_from("  Waiting for authorization    Esc  cancel  "),
        AuthStep::Result(_) => string_from("  Enter / Esc  close  "),
    }
}

/// The actions of the login menu.
pub open spec fn auth_options() -> Seq<Seq<char>> {
    seq!["Login via GitHub OAuth"@, "Logout (remove token)"@, "Check auth status"@]
}

/// A row of the login menu: a pointer and a lit label when selected.
pub open spec fn auth_option_v(label: Seq<char>, selected: bool) -> LineV {
    if selected {
        seq![
            fg_v("  ▶  "@, auth_accent_c()),
            (label, Some(white_c()), true, false, Some(Rgb { r: 20, g: 35, b: 28 }), false),
        ]
    } else {
        seq![plain_v("     "@), fg_v(label, auth_text_c())]
    }
}

/// The login menu: a prompt, then each action followed by a blank line.
pub open spec fn auth_menu_v(selected: nat) -> Seq<LineV> {
    seq![
        seq![fg_v("Choose an action:"@, auth_text_c())],
        empty_v(),
        auth_option_v(auth_options()[0], selected == 0),
        empty_v(),
        auth_option_v(auth_options()[1], selected == 1),
        empty_v(),
        auth_option_v(auth_options()[2], selected == 2),
        empty_v(),
    ]
}

fn auth_option(label: &str, selected: bool) -> (l: StyledLine)
    ensures
        l@ == auth_option_v(label@, selected),
{
    if selected {
        two(
            fg_span("  ▶  ", rgb(80, 180, 120)),
            StyledSpan {
                text: string_from(label),
                fg: Some(rgb(255, 255, 255)),
                bold: true,
                underlined: false,
                bg: Some(rgb(20, 35, 28)),
                crossed_out: false,
            },
        )
    } else {
        two(raw_span("     "), fg_span(label, rgb(160, 165, 185)))
    }
}

/// The login menu (see `auth_menu_v`).
pub fn auth_menu_lines(ov: &AuthOverlay) -> (r: Vec<StyledLine>)
    ensures
        lines_view(r@) == auth_menu_v(ov.selected as nat),
{
    let mut r: Vec<StyledLine> = Vec::new();
    r.push(one(fg_span("Choose an action:", rgb(160, 165, 185))));
    r.push(blank());
    r.push(auth_option("Login via GitHub OAuth", ov.selected == 0));
    r.push(blank());
    r.push(auth_option("Logout (remove token)", ov.selected == 1));
    r.push(blank());
    r.push(auth_option("Check auth status", ov.selected == 2));
    r.push(blank());
    assert(lines_view(r@) =~= auth_menu_v(ov.selected as nat));
    r
}

/// The final message of a login: green with a check mark, or red with a cross when it
/// starts with "Error" or "Not".
pub open spec fn auth_result_v(msg: Seq<char>) -> Seq<LineV> {
    let ok = !starts_with_seq(msg, "Error"@) && !starts_with_seq(msg, "Not"@);
    seq![
        empty_v(),
        seq![
            bold_v(
                "  "@ + (if ok { "✔"@ } else { "✖"@ }) + "  "@ + msg,
                if ok { Rgb { r: 46, g: 160, b: 90 } } else { Rgb { r: 200, g: 80, b: 80 } },
            ),
        ],
        empty_v(),
        seq![fg_v("  Press Enter or Esc to close."@, Rgb { r: 80, g: 90, b: 110 })],
    ]
}

/// The final message of a login (see `auth_result_v`).
pub fn auth_result_lines(msg: &str) -> (r: Vec<StyledLine>)
    ensures
        lines_view(r@) == auth_result_v(msg@),
{
    let ok = !str_starts_with(msg, "Error") && !str_starts_with(msg, "Not");
    let mut t = string_from("  ");
    push_str(&mut t, if ok { "✔" } else { "✖" });
    push_str(&mut t, "  ");
    push_str(&mut t, msg);
    let color = if ok {
        rgb(46, 160, 90)
    } else {
        rgb(200, 80, 80)
    };
    let r = vec![
        blank(),
        one(bold_span_of(t, color)),
        blank(),
        one(fg_span("  Press Enter or Esc to close.", rgb(80, 90, 110))),
    ];
    assert(lines_view(r@) =~= auth_result_v(msg@));
    r
}

/// The parts of the screen that shows a device code.
pub struct CodeScreen {
    /// The line that asks to enter the code.
    pub label: StyledLine,
    /// The code in block letters, one line per row.
    pub code_rows: Vec<StyledLine>,
    /// The address to enter it at, when there is one.
    pub url: Option<StyledLine>,
    /// What is happening: the browser is about to open, or the spinner while waiting.
    pub status: StyledLine,
}

/// The status line of the code screen: a note before polling, the spinner at a frame
/// count while polling.
pub open spec fn code_status_v(spinner: Option<usize>) -> LineV {
    match spinner {
        None => seq![
            fg_v("  Browser will open in 5 seconds. Authorize in the browser to continue."@, auth_text_c()),
        ],
        Some(frame) => seq![
            bold_v("  "@ + spinner_frames()[(frame % 10) as int] + " "@, auth_accent_c()),
            fg_v("Waiting for authorization…"@, auth_text_c()),
        ],
    }
}

/// The screen that shows a device code `code` to enter at `url`.
pub open spec fn code_screen_ok(s: CodeScreen, code: Seq<char>, url: Seq<char>, spinner: Option<usize>) -> bool {
    &&& s.label@ == seq![fg_v("Enter this code at the URL below:"@, auth_text_c())]
    &&& s.code_rows.len() == 5
    &&& forall|r: int|
        0 <= r < 5 ==> #[trigger] s.code_rows@[r]@ == seq![
            bold_v(big_row(uppercase_of(code), r), Rgb { r: 80, g: 255, b: 140 }),
        ]
    &&& (if url.len() > 0 {
        s.url matches Some(l) && l@ == seq![
            fg_v("  URL: "@, Rgb { r: 110, g: 115, b: 130 }),
            (url, Some(Rgb { r: 100, g: 149, b: 237 }), false, true, None, false),
        ]
    } else {
        s.url is None
    })
    &&& s.status@ == code_status_v(spinner)
}

/// The screen that shows a device code (see `code_screen_ok`).
pub fn code_screen(code: &str, url: &str, spinner: Option<usize>) -> (s: CodeScreen)
    ensures
        code_screen_ok(s, code@, url@, spinner),
{
    let label = one(fg_span("Enter this code at the URL below:", rgb(160, 165, 185)));
    let rows = render_big_text(code);
    let mut code_rows: Vec<StyledLine> = Vec::new();
    let mut i: usize = 0;
    while i < rows.len()
        invariant
            i <= rows.len() == 5,
            code_rows.len() == i,
            forall|r: int| 0 <= r < 5 ==> #[trigger] rows@[r]@ == big_row(uppercase_of(code@), r),
            forall|r: int|
                0 <= r < i ==> #[trigger] code_rows@[r]@ == seq![
                    bold_v(big_row(uppercase_of(code@), r), Rgb { r: 80, g: 255, b: 140 }),
                ],
        decreases rows.len() - i,
    {
        let row = one(bold_span_of(string_of(&chars_of(rows[i].as_str())), rgb(80, 255, 140)));
        code_rows.push(row);
        i += 1;
    }
    let url_line = if chars_of(url).len() > 0 {
        Some(
            two(
                fg_span("  URL: ", rgb(110, 115, 130)),
                StyledSpan {
                    text: string_from(url),
                    fg: Some(rgb(100, 149, 237)),
                    bold: false,
                    underlined: true,
                    bg: None,
                    crossed_out: false,
                },
            ),
        )
    } else {
        None
    };
    let status = match spinner {
        None => one(
            fg_span("  Browser will open in 5 seconds. Authorize in the browser to continue.", rgb(160, 165, 185)),
        ),
        Some(frame) => {
            let f = match frame % 10 {
                0 => "⠋",
                1 => "⠙",
                2 => "⠹",
                3 => "⠸",
                4 => "⠼",
                5 => "⠴",
                6 => "⠦",
                7 => "⠧",
                8 => "⠇",
                _ => "⠏",
            };
            let mut t = string_from("  ");
            push_str(&mut t, f);
            push_str(&mut t, " ");
            two(bold_span_of(t, rgb(80, 180, 120)), fg_span("Waiting for authorization…", rgb(160, 165, 185)))
        },
    };
    CodeScreen { label, code_rows, url: url_line, status }
}

// ── The commit session window ───────────────────────────────────────────────
/// The commit session window's accent colour.
pub open spec fn prp_accent_c() -> Rgb {
    Rgb { r: 130, g: 90, b: 200 }
}

/// The title of the commit session window for each step.
pub open spec fn prp_title_v(s: PrpStep) -> Seq<char> {
    match s {
        PrpStep::SelectRepos => "  🔗 PRP Hub — Select Repositories  "@,
        PrpStep::EnterMessage => "  🔗 PRP Hub — Commit Message  "@,
        PrpStep::Result => "  🔗 PRP Hub — Result  "@,
    }
}

/// The key hints under the commit session window for each step.
pub open spec fn prp_hint_v(s: PrpStep) -> Seq<char> {
    match s {
        PrpStep::SelectRepos => "  ↑↓  navigate    Space  toggle    Enter  review changes    Esc  close  "@,
        PrpStep::EnterMessage => "  Type commit message    Enter  confirm    Esc  back  "@,
        PrpStep::Result => "  ↑↓ / PgUp PgDn  scroll    Enter / Esc  close  "@,
    }
}

/// The title and the key hints of the commit session window (see `prp_title_v` and
/// `prp_hint_v`).
pub fn prp_frame_texts(step: &PrpStep) -> (r: (String, String))
    ensures
        r.0@ == prp_title_v(*step),
        r.1@ == prp_hint_v(*step),
{
    match step {
        PrpStep::SelectRepos => (
            string_from("  🔗 PRP Hub — Select Repositories  "),
            string_from("  ↑↓  navigate    Space  toggle    Enter  review changes    Esc  close  "),
        ),
        PrpStep::EnterMessage => (
            string_from("  🔗 PRP Hub — Commit Message  "),
            string_from("  Type commit message    Enter  confirm    Esc  back  "),
        ),
        PrpStep::Result => (
            string_from("  🔗 PRP Hub — Result  "),
            string_from("  ↑↓ / PgUp PgDn  scroll    Enter / Esc  close  "),
        ),
    }
}

/// The last component of a Unix path, as `Path::file_name` reads it: the last of its
/// named components (see `normal_parts`), or none when there is none or it is "..".
pub open spec fn file_name_of(p: Seq<char>) -> Option<Seq<char>> {
    let ps = normal_parts(split_seq(p, '/'));
    if ps.len() == 0 || ps.last() == ".."@ {
        None
    } else {
        Some(ps.last())
    }
}

/// A path that Unix and Windows cut into the same components: it has no `\`, no
/// drive prefix (a second character ':') and does not start with `//` (which Windows
/// reads as a network share).
pub open spec fn portable_path(p: Seq<char>) -> bool {
    &&& !p.contains('\\')
    &&& !(p.len() >= 2 && p[1] == ':')
    &&& !(p.len() >= 2 && p[0] == '/' && p[1] == '/')
}

/// `std::path::Path::file_name` on a path given as text: its final component, or
/// `None` when the path ends in `..` or has no named component. How a path is cut
/// depends on the platform (Windows also cuts at `\` and reads drive and share
/// prefixes), so the result is stated only for portable paths (see `portable_path`),
/// which every platform cuts at '/' alone; of other paths nothing is stated.
#[verifier::external_body]
fn path_file_name(path: &str) -> (r: Option<String>)
    ensures
        portable_path(path@) ==> match r {
            Some(n) => file_name_of(path@) == Some(n@),
            None => file_name_of(path@) is None,
        },
{
    std::path::Path::new(path).file_name().map(|n| n.to_string_lossy().to_string())
}

/// The name the repository list shows for a path: its last component, or the whole
/// path when it has none.
pub open spec fn shown_repo_name(p: Seq<char>) -> Seq<char> {
    match file_name_of(p) {
        Some(n) => n,
        None => p,
    }
}

/// The names the repository list shows, one per repository: for a portable path (see
/// `portable_path`) the name `shown_repo_name` gives; for another path the platform
/// decides where its last component starts.
pub fn repo_names(ov: &PrpOverlay) -> (r: Vec<String>)
    ensures
        r.len() == ov.repos.len(),
        forall|i: int|
            0 <= i < r.len() && portable_path(ov.repos@[i]@) ==> #[trigger] r@[i]@ == shown_repo_name(
                ov.repos@[i]@,
            ),
{
    let mut r: Vec<String> = Vec::new();
    let mut i: usize = 0;
    while i < ov.repos.len()
        invariant
            i <= ov.repos.len(),
            r.len() == i,
            forall|k: int|
                0 <= k < i && portable_path(ov.repos@[k]@) ==> #[trigger] r@[k]@ == shown_repo_name(
                    ov.repos@[k]@,
                ),
        decreases ov.repos.len() - i,
    {
        let name = match path_file_name(ov.repos[i].as_str()) {
            Some(n) => n,
            None => string_of(&chars_of(ov.repos[i].as_str())),
        };
        r.push(name);
        i += 1;
    }
    r
}

/// A row of the repository list: a pointer at the cursor, a box ticked when the
/// repository takes part, and its name, bright at the cursor and dim when left out.
pub open spec fn repo_row_v(name: Seq<char>, cursor: bool, included: bool) -> LineV {
    seq![
        if cursor { fg_v("▶ "@, prp_accent_c()) } else { plain_v("  "@) },
        if included { bold_v("☑ "@, Rgb { r: 80, g: 210, b: 130 }) } else { fg_v("☐ "@, Rgb { r: 55, g: 60, b: 78 }) },
        if cursor {
            bold_v(name, white_c())
        } else if included {
            fg_v(name, Rgb { r: 200, g: 208, b: 230 })
        } else {
            fg_v(name, Rgb { r: 75, g: 80, b: 100 })
        },
    ]
}

/// The repository list for the names shown: a note when there is no repository, else a
/// row per repository.
pub open spec fn repo_list_v(names: Seq<Seq<char>>, included: Seq<bool>, selected: nat) -> Seq<LineV> {
    if names.len() == 0 {
        seq![empty_v(), seq![fg_v("No git repositories found."@, Rgb { r: 90, g: 95, b: 115 })]]
    } else {
        Seq::new(names.len(), |i: int| repo_row_v(names[i], i == selected, included[i]))
    }
}

/// The repository list for the names shown (see `repo_list_v`).
pub fn repo_list_lines(names: &Vec<String>, ov: &PrpOverlay) -> (r: Vec<StyledLine>)
    requires
        names.len() == ov.repos.len(),
        ov.included.len() == ov.repos.len(),
    ensures
        lines_view(r@) == repo_list_v(names.deep_view(), ov.included@, ov.selected as nat),
{
    let ghost ns = names.deep_view();
    let mut r: Vec<StyledLine> = Vec::new();
    if names.len() == 0 {
        r.push(blank());
        r.push(one(fg_span("No git repositories found.", rgb(90, 95, 115))));
        assert(lines_view(r@) =~= repo_list_v(ns, ov.included@, ov.selected as nat));
        return r;
    }
    let mut i: usize = 0;
    while i < names.len()
        invariant
            i <= names.len() == ov.included.len(),
            ns == names.deep_view(),
            r@.len() == i,
            forall|k: int| 0 <= k < i ==> #[trigger] r@[k]@ == repo_row_v(ns[k], k == ov.selected, ov.included@[k]),
        decreases names.len() - i,
    {
        let cursor = i == ov.selected;
        let inc = ov.included[i];
        let pointer = if cursor {
            fg_span("▶ ", rgb(130, 90, 200))
        } else {
            raw_span("  ")
        };
        let boxed = if inc {
            bold_span("☑ ", rgb(80, 210, 130))
        } else {
            fg_span("☐ ", rgb(55, 60, 78))
        };
        let text = string_of(&chars_of(names[i].as_str()));
        let name = if cursor {
            bold_span_of(text, rgb(255, 255, 255))
        } else if inc {
            fg_span_of(text, rgb(200, 208, 230))
        } else {
            fg_span_of(text, rgb(75, 80, 100))
        };
        r.push(three(pointer, boxed, name));
        i += 1;
    }
    assert(lines_view(r@) =~= repo_list_v(ns, ov.included@, ov.selected as nat));
    r
}

/// Number of `true` flags.
pub open spec fn count_true(bs: Seq<bool>) -> nat
    decreases bs.len(),
{
    if bs.len() == 0 {
        0
    } else {
        count_true(bs.drop_last()) + if bs.last() { 1nat } else { 0nat }
    }
}

/// The rule between the sections of the session pane.
pub open spec fn short_rule() -> Seq<char> {
    "  ──────────────────────────────────"@
}

/// A key and what it does, in the session window's colours.
pub open spec fn key_line_v(key: Seq<char>, what: Seq<char>) -> LineV {
    seq![fg_v(key, prp_accent_c()), fg_v(what, Rgb { r: 140, g: 148, b: 172 })]
}

/// The session pane beside the repository list: how many repositories are selected out
/// of how many, the keys, and a call to go on when some are selected.
pub open spec fn session_pane_v(count: nat, total: nat) -> Seq<LineV> {
    let green = Rgb { r: 80, g: 210, b: 130 };
    let grey = Rgb { r: 90, g: 100, b: 130 };
    seq![
        seq![fg_v("Select repositories for this commit session."@, Rgb { r: 150, g: 158, b: 185 })],
        empty_v(),
        seq![
            fg_v("  Selected  "@, grey),
            if count > 0 {
                bold_v(decimal(count) + " / "@ + decimal(total), green)
            } else {
                fg_v(decimal(count) + " / "@ + decimal(total), grey)
            },
        ],
        empty_v(),
        seq![fg_v(short_rule(), Rgb { r: 38, g: 42, b: 58 })],
        empty_v(),
        key_line_v("  Space  "@, "toggle repo"@),
        key_line_v("  Enter  "@, "review changes"@),
        key_line_v("  Esc    "@, "cancel session"@),
    ] + if count > 0 {
        seq![
            empty_v(),
            seq![fg_v(short_rule(), Rgb { r: 38, g: 42, b: 58 })],
            empty_v(),
            seq![bold_v("  "@ + decimal(count) + " repo"@ + (if count == 1 { ""@ } else { "s"@ }) + " ready"@, green)],
            seq![fg_v("  Press Enter to see changes →"@, green)],
        ]
    } else {
        Seq::empty()
    }
}

/// The session pane (see `session_pane_v`).
pub fn session_pane_lines(ov: &PrpOverlay) -> (r: Vec<StyledLine>)
    ensures
        lines_view(r@) == session_pane_v(count_true(ov.included@), ov.repos.len() as nat),
{
    let ghost inc = ov.included@;
    let mut count: usize = 0;
    let mut i: usize = 0;
    while i < ov.included.len()
        invariant
            i <= ov.included.len(),
            inc == ov.included@,
            count == count_true(inc.take(i as int)),
            count <= i,
        decreases ov.included.len() - i,
    {
        assert(inc.take(i + 1).drop_last() =~= inc.take(i as int));
        if ov.included[i] {
            count = count + 1;
        }
        i += 1;
    }
    assert(inc.take(ov.included.len() as int) =~= inc);
    let green = rgb(80, 210, 130);
    let grey = rgb(90, 100, 130);
    let mut sel = usize_text(count);
    push_str(&mut sel, " / ");
    push_str(&mut sel, usize_text(ov.repos.len()).as_str());
    let sel_span = if count > 0 {
        bold_span_of(sel, green)
    } else {
        fg_span_of(sel, grey)
    };
    let mut r: Vec<StyledLine> = Vec::new();
    r.push(one(fg_span("Select repositories for this commit session.", rgb(150, 158, 185))));
    r.push(blank());
    r.push(two(fg_span("  Selected  ", grey), sel_span));
    r.push(blank());
    r.push(one(fg_span("  ──────────────────────────────────", rgb(38, 42, 58))));
    r.push(blank());
    r.push(two(fg_span("  Space  ", rgb(130, 90, 200)), fg_span("toggle repo", rgb(140, 148, 172))));
    r.push(two(fg_span("  Enter  ", rgb(130, 90, 200)), fg_span("review changes", rgb(140, 148, 172))));
    r.push(two(fg_span("  Esc    ", rgb(130, 90, 200)), fg_span("cancel session", rgb(140, 148, 172))));
    if count > 0 {
        let mut ready = string_from("  ");
        push_str(&mut ready, usize_text(count).as_str());
        push_str(&mut ready, " repo");
        push_str(&mut ready, if count == 1 { "" } else { "s" });
        push_str(&mut ready, " ready");
        r.push(blank());
        r.push(one(fg_span("  ──────────────────────────────────", rgb(38, 42, 58))));
        r.push(blank());
        r.push(one(bold_span_of(ready, green)));
        r.push(one(fg_span("  Press Enter to see changes →", green)));
    }
    assert(lines_view(r@) =~= session_pane_v(count as nat, ov.repos.len() as nat));
    r
}

/// The colour of the count of characters typed: red past 72, amber past 50.
pub open spec fn count_c(n: nat) -> Rgb {
    if n > 72 {
        Rgb { r: 220, g: 80, b: 80 }
    } else if n > 50 {
        Rgb { r: 230, g: 180, b: 60 }
    } else {
        Rgb { r: 70, g: 78, b: 100 }
    }
}

/// The message pane: a prompt, the message with the cursor, the number of characters
/// typed and the keys.
pub open spec fn message_pane_v(buf: Seq<char>, cursor: nat) -> Seq<LineV> {
    seq![
        seq![fg_v("Describe what you changed:"@, Rgb { r: 140, g: 148, b: 175 })],
        empty_v(),
        seq![
            plain_v("  ❯ "@),
            fg_v(buf.take(cursor as int), white_c()),
            (under_cursor(buf, cursor), Some(Rgb { r: 10, g: 12, b: 18 }), false, false, Some(Rgb { r: 180, g: 140, b: 255 }), false),
            fg_v(after_cursor(buf, cursor), white_c()),
        ],
        empty_v(),
        seq![fg_v("  ─────────────────────────────────────────"@, Rgb { r: 38, g: 42, b: 58 })],
        empty_v(),
        seq![
            fg_v("  "@ + decimal(buf.len()) + " chars"@, count_c(buf.len())),
            fg_v("    (72 recommended max)"@, Rgb { r: 55, g: 60, b: 78 }),
        ],
        empty_v(),
        key_line_v("  Enter  "@, "next step"@),
        key_line_v("  Esc    "@, "back to diff"@),
    ]
}

/// The message pane (see `message_pane_v`).
pub fn message_pane_lines(ov: &PrpOverlay) -> (r: Vec<StyledLine>)
    requires
        ov.input_cursor <= ov.input_buf@.len(),
    ensures
        lines_view(r@) == message_pane_v(ov.input_buf@, ov.input_cursor as nat),
{
    let cs = chars_of(ov.input_buf.as_str());
    let (before, under, after) = split_at_cursor(&cs, ov.input_cursor);
    let n = cs.len();
    let color = if n > 72 {
        rgb(220, 80, 80)
    } else if n > 50 {
        rgb(230, 180, 60)
    } else {
        rgb(70, 78, 100)
    };
    let mut count_text = string_from("  ");
    push_str(&mut count_text, usize_text(n).as_str());
    push_str(&mut count_text, " chars");
    let input = four(
        raw_span("  ❯ "),
        fg_span_of(string_of(&before), rgb(255, 255, 255)),
        StyledSpan {
            text: string_of(&under),
            fg: Some(rgb(10, 12, 18)),
            bold: false,
            underlined: false,
            bg: Some(rgb(180, 140, 255)),
            crossed_out: false,
        },
        fg_span_of(string_of(&after), rgb(255, 255, 255)),
    );
    let r = vec![
        one(fg_span("Describe what you changed:", rgb(140, 148, 175))),
        blank(),
        input,
        blank(),
        one(fg_span("  ─────────────────────────────────────────", rgb(38, 42, 58))),
        blank(),
        two(fg_span_of(count_text, color), fg_span("    (72 recommended max)", rgb(55, 60, 78))),
        blank(),
        two(fg_span("  Enter  ", rgb(130, 90, 200)), fg_span("next step", rgb(140, 148, 172))),
        two(fg_span("  Esc    ", rgb(130, 90, 200)), fg_span("back to diff", rgb(140, 148, 172))),
    ];
    assert(lines_view(r@) =~= message_pane_v(ov.input_buf@, ov.input_cursor as nat));
    r
}

/// The style of a line of the session's result: green for success, red for failure,
/// amber for warnings, bold purple for a group id, blue for the message and the push,
/// dim for rules, else the body colour.
pub open spec fn result_style(t: Seq<char>) -> (Rgb, bool) {
    if contains_seq(t, "✔"@) {
        (Rgb { r: 80, g: 210, b: 130 }, false)
    } else if contains_seq(t, "✖"@) || contains_seq(t, "failed"@) || contains_seq(t, "error"@) {
        (Rgb { r: 220, g: 80, b: 80 }, false)
    } else if contains_seq(t, "⚠"@) {
        (Rgb { r: 230, g: 180, b: 60 }, false)
    } else if contains_seq(t, "▣"@) {
        (Rgb { r: 160, g: 120, b: 240 }, true)
    } else if contains_seq(t, "Message:"@) || contains_seq(t, "Push"@) {
        (Rgb { r: 100, g: 155, b: 245 }, false)
    } else if starts_with_seq(t, "─"@) || starts_with_seq(t, "  ─"@) {
        (Rgb { r: 40, g: 45, b: 60 }, false)
    } else {
        (Rgb { r: 170, g: 178, b: 210 }, false)
    }
}

/// A line of the result in its style.
pub open spec fn result_line_v(t: Seq<char>) -> LineV {
    if result_style(t).1 {
        seq![bold_v(t, result_style(t).0)]
    } else {
        seq![fg_v(t, result_style(t).0)]
    }
}

/// The first line shown of the result: `scroll`, kept within the lines that can be
/// scrolled past in an area `visible` rows high.
pub open spec fn result_first(len: nat, visible: nat, scroll: nat) -> nat {
    let max = if len > visible { (len - visible) as nat } else { 0nat };
    if scroll < max { scroll } else { max }
}

/// The lines of the result shown in an area `visible` rows high, from the scroll
/// position on, each in its style.
pub open spec fn result_pane_v(ls: Seq<Seq<char>>, visible: nat, scroll: nat) -> Seq<LineV> {
    let first = result_first(ls.len(), visible, scroll);
    let n = if visible < ls.len() - first { visible } else { (ls.len() - first) as nat };
    Seq::new(
        n,
        |k: int| result_line_v(ls[first + k]),
    )
}

fn result_line(t: &String) -> (l: StyledLine)
    ensures
        l@ == result_line_v(t@),
{
    let s = t.as_str();
    let (c, bold) = if str_contains(s, "✔") {
        (rgb(80, 210, 130), false)
    } else if str_contains(s, "✖") || str_contains(s, "failed") || str_contains(s, "error") {
        (rgb(220, 80, 80), false)
    } else if str_contains(s, "⚠") {
        (rgb(230, 180, 60), false)
    } else if str_contains(s, "▣") {
        (rgb(160, 120, 240), true)
    } else if str_contains(s, "Message:") || str_contains(s, "Push") {
        (rgb(100, 155, 245), false)
    } else if str_starts_with(s, "─") || str_starts_with(s, "  ─") {
        (rgb(40, 45, 60), false)
    } else {
        (rgb(170, 178, 210), false)
    };
    one(StyledSpan { text: string_of(&chars_of(s)), fg: Some(c), bold, underlined: false, bg: None, crossed_out: false })
}

/// The lines of the result shown in an area `visible` rows high (see `result_pane_v`).
pub fn result_pane_lines(ov: &PrpOverlay, visible: usize, scroll: usize) -> (r: Vec<StyledLine>)
    ensures
        lines_view(r@) == result_pane_v(ov.result_lines.deep_view(), visible as nat, scroll as nat),
{
    let ghost ls = ov.result_lines.deep_view();
    let len = ov.result_lines.len();
    let max = if len > visible {
        len - visible
    } else {
        0
    };
    let first = if scroll < max {
        scroll
    } else {
        max
    };
    let n = if visible < len - first {
        visible
    } else {
        len - first
    };
    let mut r: Vec<StyledLine> = Vec::new();
    let mut k: usize = 0;
    while k < n
        invariant
            k <= n,
            first + n <= len == ov.result_lines.len(),
            ls == ov.result_lines.deep_view(),
            r@.len() == k,
            forall|j: int|
                0 <= j < k ==> #[trigger] r@[j]@ == result_line_v(ls[first + j]),
        decreases n - k,
    {
        r.push(result_line(&ov.result_lines[first + k]));
        k += 1;
    }
    assert(first == result_first(len as nat, visible as nat, scroll as nat));
    assert(lines_view(r@) =~= result_pane_v(ls, visible as nat, scroll as nat));
    r
}

// ── Info pages ──────────────────────────────────────────────────────────────
/// The row an info page with `total` lines starts at in an area `visible` rows high:
/// `scroll`, kept within the lines that can be scrolled past.
pub open spec fn info_first(total: u16, visible: u16, scroll: u16) -> u16 {
    let max = if total > visible { (total - visible) as u16 } else { 0u16 };
    if scroll < max { scroll } else { max }
}

/// The scroll indicator of an info page longer than its area: the share of the page
/// still below, in percent.
pub open spec fn info_indicator_v(total: u16, visible: u16, scroll: u16) -> Option<Seq<char>> {
    let max = if total > visible { (total - visible) as int } else { 0 };
    let s = info_first(total, visible, scroll) as int;
    if total > visible {
        Some(" "@ + decimal((if max == 0 { 100 } else { 100 - s * 100 / max }) as nat) + "% ↕ "@)
    } else {
        None
    }
}

/// The row an info page starts at and its scroll indicator, in the frame's hint colour
/// (see `info_first` and `info_indicator_v`).
pub fn info_scroll(total: u16, visible: u16, scroll: u16) -> (r: (u16, Option<StyledLine>))
    requires
        info_first(total, visible, scroll) * 100 <= u16::MAX,
    ensures
        r.0 == info_first(total, visible, scroll),
        match info_indicator_v(total, visible, scroll) {
            Some(t) => r.1 matches Some(l) && l@ == seq![fg_v(t, Rgb { r: 80, g: 90, b: 110 })],
            None => r.1 is None,
        },
{
    let max: u16 = if total > visible {
        total - visible
    } else {
        0
    };
    let s: u16 = if scroll < max {
        scroll
    } else {
        max
    };
    if total > visible {
        let pct: u16 = if max == 0 {
            100
        } else {
            assert((s as int) * 100 / (max as int) <= 100) by (nonlinear_arith)
                requires
                    s <= max,
                    max > 0,
            ;
            100 - s * 100 / max
        };
        let mut t = string_from(" ");
        push_str(&mut t, usize_text(pct as usize).as_str());
        push_str(&mut t, "% ↕ ");
        (s, Some(one(fg_span_of(t, rgb(80, 90, 110)))))
    } else {
        (s, None)
    }
}

} // verus!
