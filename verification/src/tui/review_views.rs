//! What the finding review and the ignore list show, as styled lines.

use vstd::prelude::*;

use crate::scanner::ignore::{IgnoredItem, IgnoredItemView};
use crate::scanner::report::{Finding, FindingView};
use crate::text::{
    byte_prefix, chars_of, cut_is_ok, cut_ok, decimal, prefix_bytes, push_str, string_from,
    string_of, trim, trim_seq, usize_text,
};
use crate::tui::pages::{LineV, SpanV};
use crate::tui::planner_panels::{
    bold_span, bold_span_of, bold_v, fg_span, fg_span_of, fg_v, four, one, rgb, two, white_c,
};
use crate::tui::overlays::{IgnoreOverlay, ScanChoice, ScannerOverlay};
use crate::tui::styled::{lines_view, Rgb, StyledLine, StyledSpan};

verus! {

// ── The finding review ──────────────────────────────────────────────────────
/// The title of the review: which finding of how many is shown.
pub open spec fn review_title_v(index: nat, total: nat) -> Seq<char> {
    "  🔍 Secret Scanner — Finding "@ + decimal(index + 1) + "/"@ + decimal(total) + " "@
}

/// The title of the review (see `review_title_v`).
pub fn review_title(ov: &ScannerOverlay) -> (r: String)
    requires
        ov.current_index < usize::MAX,
    ensures
        r@ == review_title_v(ov.current_index as nat, ov.findings.len() as nat),
{
    let mut r = string_from("  🔍 Secret Scanner — Finding ");
    push_str(&mut r, usize_text(ov.current_index + 1).as_str());
    push_str(&mut r, "/");
    push_str(&mut r, usize_text(ov.total()).as_str());
    push_str(&mut r, " ");
    r
}

/// `s` right-aligned in at least `n` characters, as `{:>n}` formats it.
pub open spec fn right_aligned(s: Seq<char>, n: nat) -> Seq<char> {
    if s.len() < n {
        Seq::new((n - s.len()) as nat, |i: int| ' ') + s
    } else {
        s
    }
}

/// The terminal hyperlink to the finding's file (an OSC 8 sequence round the text
/// `file:line`), for a file whose absolute path is `abs`.
pub open spec fn file_link(abs: Seq<char>, file: Seq<char>, line: nat) -> Seq<char> {
    "\x1b]8;;file://"@ + abs + "\x1b\\"@ + file + ":"@ + decimal(line) + "\x1b]8;;\x1b\\"@
}

/// The side bar of the code excerpt.
pub open spec fn code_bar_v() -> LineV {
    seq![fg_v("    │"@, Rgb { r: 70, g: 70, b: 85 })]
}

/// The lines that describe a finding, for a file whose absolute path is `abs`: the
/// link to the place, the code line between two bars, what was detected, and the
/// commit for findings in history.
pub open spec fn finding_lines_v(f: FindingView, abs: Seq<char>) -> Seq<LineV> {
    seq![
        seq![
            (file_link(abs, f.file, f.line as nat), Some(Rgb { r: 100, g: 160, b: 255 }), true, true, None, false),
            fg_v(":"@ + decimal(f.line as nat) + ":"@ + decimal(f.column as nat), Rgb { r: 140, g: 140, b: 160 }),
        ],
        code_bar_v(),
        seq![
            fg_v(" "@ + right_aligned(decimal(f.line as nat), 4) + " "@, Rgb { r: 100, g: 100, b: 120 }),
            fg_v(trim_seq(f.content), Rgb { r: 240, g: 200, b: 100 }),
        ],
        code_bar_v(),
        seq![
            fg_v("    = detected: "@, Rgb { r: 120, g: 120, b: 140 }),
            bold_v(f.secret_type, Rgb { r: 255, g: 130, b: 80 }),
        ],
    ] + match f.commit {
        Some(c) => seq![
            seq![
                fg_v("    @ commit "@, Rgb { r: 100, g: 100, b: 120 }),
                fg_v(byte_prefix(c, 8), Rgb { r: 160, g: 120, b: 255 }),
            ],
        ],
        None => Seq::empty(),
    }
}

/// The commit of a finding, if any, can be cut to its first eight bytes.
pub open spec fn commit_cuts(f: FindingView) -> bool {
    f.commit matches Some(c) ==> cut_ok(c, 8)
}

/// Whether the commit of a finding can be shortened (see `commit_cuts`).
pub fn commit_cuts_cleanly(f: &Finding) -> (b: bool)
    ensures
        b == commit_cuts(f@),
{
    match &f.commit {
        Some(c) => cut_is_ok(c.as_str(), 8),
        None => true,
    }
}

fn right_aligned_chars(s: &Vec<char>, n: usize) -> (r: Vec<char>)
    ensures
        r@ == right_aligned(s@, n as nat),
{
    let mut r: Vec<char> = Vec::new();
    if s.len() < n {
        let k = n - s.len();
        let mut i: usize = 0;
        while i < k
            invariant
                i <= k,
                r@ =~= Seq::new(i as nat, |j: int| ' '),
            decreases k - i,
        {
            r.push(' ');
            i += 1;
        }
    }
    crate::text::append_chars(&mut r, s);
    r
}

/// The lines that describe a finding (see `finding_lines_v`).
pub fn finding_lines(f: &Finding, abs: &str) -> (r: Vec<StyledLine>)
    requires
        commit_cuts(f@),
    ensures
        lines_view(r@) == finding_lines_v(f@, abs@),
{
    let line_text = usize_text(f.line);
    let mut link = string_from("\x1b]8;;file://");
    push_str(&mut link, abs);
    push_str(&mut link, "\x1b\\");
    push_str(&mut link, f.file.as_str());
    push_str(&mut link, ":");
    push_str(&mut link, line_text.as_str());
    push_str(&mut link, "\x1b]8;;\x1b\\");
    let link_span = StyledSpan {
        text: link,
        fg: Some(rgb(100, 160, 255)),
        bold: true,
        underlined: true,
        bg: None,
        crossed_out: false,
    };
    let mut place = string_from(":");
    push_str(&mut place, line_text.as_str());
    push_str(&mut place, ":");
    push_str(&mut place, usize_text(f.column).as_str());
    let first = two(link_span, fg_span_of(place, rgb(140, 140, 160)));

    let mut num = chars_of(" ");
    crate::text::append_chars(&mut num, &right_aligned_chars(&chars_of(line_text.as_str()), 4));
    crate::text::append_chars(&mut num, &chars_of(" "));
    let code = two(
        fg_span_of(string_of(&num), rgb(100, 100, 120)),
        fg_span_of(trim(f.content.as_str()), rgb(240, 200, 100)),
    );
    let detected = two(
        fg_span("    = detected: ", rgb(120, 120, 140)),
        bold_span_of(string_of(&chars_of(f.secret_type.as_str())), rgb(255, 130, 80)),
    );
    let mut r: Vec<StyledLine> = Vec::new();
    r.push(first);
    r.push(one(fg_span("    │", rgb(70, 70, 85))));
    r.push(code);
    r.push(one(fg_span("    │", rgb(70, 70, 85))));
    r.push(detected);
    match &f.commit {
        Some(c) => {
            let cl = two(
                fg_span("    @ commit ", rgb(100, 100, 120)),
                fg_span_of(prefix_bytes(c.as_str(), 8), rgb(160, 120, 255)),
            );
            r.push(cl);
        },
        None => {},
    }
    assert(lines_view(r@) =~= finding_lines_v(f@, abs@));
    r
}

/// The label of the "ignore" button, lit when it is chosen, and the colour of its frame.
pub open spec fn ignore_button_v(c: ScanChoice) -> (SpanV, Rgb) {
    match c {
        ScanChoice::Ignore => (
            ("  ✖  Ignore permanently  "@, Some(Rgb { r: 10, g: 10, b: 14 }), true, false, Some(Rgb { r: 220, g: 80, b: 80 }), false),
            Rgb { r: 220, g: 80, b: 80 },
        ),
        ScanChoice::Keep => (
            fg_v("  ✖  Ignore permanently  "@, Rgb { r: 140, g: 140, b: 160 }),
            Rgb { r: 50, g: 50, b: 65 },
        ),
    }
}

/// The label of the "keep" button, lit when it is chosen, and the colour of its frame.
pub open spec fn keep_button_v(c: ScanChoice) -> (SpanV, Rgb) {
    match c {
        ScanChoice::Keep => (
            ("  ✔  Keep showing  "@, Some(Rgb { r: 10, g: 10, b: 14 }), true, false, Some(Rgb { r: 80, g: 200, b: 120 }), false),
            Rgb { r: 80, g: 200, b: 120 },
        ),
        ScanChoice::Ignore => (
            fg_v("  ✔  Keep showing  "@, Rgb { r: 140, g: 140, b: 160 }),
            Rgb { r: 50, g: 50, b: 65 },
        ),
    }
}

/// The "ignore" button (see `ignore_button_v`).
pub fn ignore_button(c: ScanChoice) -> (r: (StyledSpan, Rgb))
    ensures
        (r.0@, r.1) == ignore_button_v(c),
{
    match c {
        ScanChoice::Ignore => (
            StyledSpan {
                text: string_from("  ✖  Ignore permanently  "),
                fg: Some(rgb(10, 10, 14)),
                bold: true,
                underlined: false,
                bg: Some(rgb(220, 80, 80)),
                crossed_out: false,
            },
            rgb(220, 80, 80),
        ),
        ScanChoice::Keep => (fg_span("  ✖  Ignore permanently  ", rgb(140, 140, 160)), rgb(50, 50, 65)),
    }
}

/// The "keep" button (see `keep_button_v`).
pub fn keep_button(c: ScanChoice) -> (r: (StyledSpan, Rgb))
    ensures
        (r.0@, r.1) == keep_button_v(c),
{
    match c {
        ScanChoice::Keep => (
            StyledSpan {
                text: string_from("  ✔  Keep showing  "),
                fg: Some(rgb(10, 10, 14)),
                bold: true,
                underlined: false,
                bg: Some(rgb(80, 200, 120)),
                crossed_out: false,
            },
            rgb(80, 200, 120),
        ),
        ScanChoice::Ignore => (fg_span("  ✔  Keep showing  ", rgb(140, 140, 160)), rgb(50, 50, 65)),
    }
}

/// Key hints: pairs of a key, in the key colour, and what it does, in grey.
pub open spec fn hint_v(pairs: Seq<(Seq<char>, Seq<char>)>) -> LineV
    decreases pairs.len(),
{
    if pairs.len() == 0 {
        Seq::empty()
    } else {
        hint_v(pairs.drop_last()) + seq![
            fg_v(pairs.last().0, Rgb { r: 160, g: 120, b: 255 }),
            fg_v(pairs.last().1, Rgb { r: 100, g: 100, b: 120 }),
        ]
    }
}

/// The key hints under the review.
pub open spec fn review_hint_v() -> LineV {
    hint_v(seq![("  ←/→ "@, "select  "@), ("Enter "@, "confirm  "@), ("Esc/q "@, "skip all"@)])
}

fn hint_line(keys: Vec<&str>, words: Vec<&str>) -> (l: StyledLine)
    requires
        keys.len() == words.len(),
    ensures
        l@ == hint_v(Seq::new(keys.len() as nat, |i: int| (keys@[i]@, words@[i]@))),
{
    let ghost pairs = Seq::new(keys.len() as nat, |i: int| (keys@[i]@, words@[i]@));
    let mut spans: Vec<StyledSpan> = Vec::new();
    let mut i: usize = 0;
    while i < keys.len()
        invariant
            i <= keys.len() == words.len(),
            pairs == Seq::new(keys.len() as nat, |i: int| (keys@[i]@, words@[i]@)),
            spans@.map_values(|s: StyledSpan| s@) =~= hint_v(pairs.take(i as int)),
        decreases keys.len() - i,
    {
        let k = fg_span(keys[i], rgb(160, 120, 255));
        let w = fg_span(words[i], rgb(100, 100, 120));
        let ghost before = spans@;
        spans.push(k);
        spans.push(w);
        assert(pairs.take(i + 1).drop_last() =~= pairs.take(i as int));
        assert(spans@.map_values(|s: StyledSpan| s@) =~= before.map_values(|s: StyledSpan| s@) + seq![k@, w@]);
        i += 1;
    }
    assert(pairs.take(keys.len() as int) =~= pairs);
    StyledLine { spans }
}

/// The key hints under the review (see `review_hint_v`).
pub fn review_hint() -> (l: StyledLine)
    ensures
        l@ == review_hint_v(),
{
    let l = hint_line(vec!["  ←/→ ", "Enter ", "Esc/q "], vec!["select  ", "confirm  ", "skip all"]);
    assert(Seq::new(3nat, |i: int| (seq!["  ←/→ ", "Enter ", "Esc/q "][i]@, seq!["select  ", "confirm  ", "skip all"][i]@))
        =~= seq![("  ←/→ "@, "select  "@), ("Enter "@, "confirm  "@), ("Esc/q "@, "skip all"@)]);
    l
}

// ── The ignore list ─────────────────────────────────────────────────────────
/// The row of an ignored item: a pointer when selected, its short id, its variable
/// (bright when selected) and where it was found.
pub open spec fn ignored_row_v(it: IgnoredItemView, selected: bool) -> LineV {
    seq![
        fg_v(if selected { "> "@ } else { "  "@ }, Rgb { r: 220, g: 80, b: 80 }),
        fg_v("["@ + it.short_id + "] "@, Rgb { r: 160, g: 120, b: 255 }),
        if selected {
            (it.variable, Some(white_c()), false, false, Some(Rgb { r: 30, g: 30, b: 45 }), false)
        } else {
            fg_v(it.variable, Rgb { r: 140, g: 140, b: 160 })
        },
        fg_v(" ("@ + it.source + ")"@, Rgb { r: 80, g: 80, b: 100 }),
    ]
}

/// The rows of the ignore list, one per item.
pub open spec fn ignored_rows_v(items: Seq<IgnoredItemView>, selected: nat) -> Seq<LineV> {
    Seq::new(items.len(), |i: int| ignored_row_v(items[i], i == selected))
}

/// The rows of the ignore list (see `ignored_rows_v`); the list is empty when there are
/// no items.
pub fn ignored_rows(ov: &IgnoreOverlay) -> (r: Vec<StyledLine>)
    ensures
        lines_view(r@) == ignored_rows_v(ov.items@.map_values(|it: IgnoredItem| it@), ov.selected as nat),
{
    let ghost items = ov.items@.map_values(|it: IgnoredItem| it@);
    let mut r: Vec<StyledLine> = Vec::new();
    let mut i: usize = 0;
    while i < ov.items.len()
        invariant
            i <= ov.items.len(),
            items == ov.items@.map_values(|it: IgnoredItem| it@),
            r@.len() == i,
            forall|k: int| 0 <= k < i ==> #[trigger] r@[k]@ == ignored_row_v(items[k], k == ov.selected),
        decreases ov.items.len() - i,
    {
        let it = &ov.items[i];
        let sel = i == ov.selected;
        let pointer = fg_span(if sel { "> " } else { "  " }, rgb(220, 80, 80));
        let mut id = string_from("[");
        push_str(&mut id, it.short_id.as_str());
        push_str(&mut id, "] ");
        let var_text = string_of(&chars_of(it.variable.as_str()));
        let var = if sel {
            StyledSpan {
                text: var_text,
                fg: Some(rgb(255, 255, 255)),
                bold: false,
                underlined: false,
                bg: Some(rgb(30, 30, 45)),
                crossed_out: false,
            }
        } else {
            fg_span_of(var_text, rgb(140, 140, 160))
        };
        let mut src = string_from(" (");
        push_str(&mut src, it.source.as_str());
        push_str(&mut src, ")");
        let row = four(pointer, fg_span_of(id, rgb(160, 120, 255)), var, fg_span_of(src, rgb(80, 80, 100)));
        assert(items[i as int] == it@);
        r.push(row);
        i += 1;
    }
    assert(lines_view(r@) =~= ignored_rows_v(items, ov.selected as nat));
    r
}

/// The "clear all" row: lit, with a pointer, when selected.
pub open spec fn clear_all_v(selected: bool) -> LineV {
    if selected {
        seq![bold_v("> "@, Rgb { r: 220, g: 80, b: 80 }), bold_v("Clear ALL ignored findings"@, Rgb { r: 220, g: 80, b: 80 })]
    } else {
        seq![fg_v("  "@, Rgb { r: 100, g: 100, b: 120 }), fg_v("Clear ALL ignored findings"@, Rgb { r: 100, g: 100, b: 120 })]
    }
}

/// The "clear all" row of the ignore list (see `clear_all_v`).
pub fn clear_all_row(ov: &IgnoreOverlay) -> (l: StyledLine)
    ensures
        l@ == clear_all_v(ov.selected == ov.items.len()),
{
    if ov.is_clear_all_selected() {
        two(bold_span("> ", rgb(220, 80, 80)), bold_span("Clear ALL ignored findings", rgb(220, 80, 80)))
    } else {
        two(fg_span("  ", rgb(100, 100, 120)), fg_span("Clear ALL ignored findings", rgb(100, 100, 120)))
    }
}

/// The key hints under the ignore list.
pub open spec fn ignore_hint_v() -> LineV {
    hint_v(seq![("  ↑/↓ "@, "navigate  "@), ("Enter "@, "remove  "@), ("Esc "@, "exit"@)])
}

/// The key hints under the ignore list (see `ignore_hint_v`).
pub fn ignore_hint() -> (l: StyledLine)
    ensures
        l@ == ignore_hint_v(),
{
    let l = hint_line(vec!["  ↑/↓ ", "Enter ", "Esc "], vec!["navigate  ", "remove  ", "exit"]);
    assert(Seq::new(3nat, |i: int| (seq!["  ↑/↓ ", "Enter ", "Esc "][i]@, seq!["navigate  ", "remove  ", "exit"][i]@))
        =~= seq![("  ↑/↓ "@, "navigate  "@), ("Enter "@, "remove  "@), ("Esc "@, "exit"@)]);
    l
}

} // verus!
