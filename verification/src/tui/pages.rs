use vstd::prelude::*;

use crate::text::{
    all_digits, append_chars, chars_eq, chars_of, find_chars, parse_i32, parse_i32_seq, split_chars,
    split_seq, split_str_chars, split_str_seq, trim_start_chars, trim_start_seq, words_chars,
    words_seq, find_seq, lemma_find_seq_props, lines_chars, lines_seq,
    occurs_at, pad_chars, pad_to, slice_chars, starts_with_chars, starts_with_seq, string_of,
    trim_chars, trim_end_chars, trim_end_seq, trim_seq, trim_start_matches_chars,
    trim_start_matches_seq,
};
use crate::tui::styled::{lines_view, spans_view, Rgb, StyledLine, StyledSpan};

verus! {

/// What a span shows: its text, its colour, whether it is bold, whether it is
/// underlined, its background colour and whether it is crossed out.
pub type SpanV = (Seq<char>, Option<Rgb>, bool, bool, Option<Rgb>, bool);

/// What a line shows: its spans in order.
pub type LineV = Seq<SpanV>;

// ── Palette ─────────────────────────────────────────────────────────────────
pub open spec fn header_c() -> Rgb {
    Rgb { r: 210, g: 218, b: 255 }
}

pub open spec fn label_c() -> Rgb {
    Rgb { r: 100, g: 110, b: 150 }
}

pub open spec fn value_c() -> Rgb {
    Rgb { r: 218, g: 224, b: 245 }
}

pub open spec fn dim_c() -> Rgb {
    Rgb { r: 50, g: 55, b: 72 }
}

pub open spec fn green_c() -> Rgb {
    Rgb { r: 80, g: 210, b: 130 }
}

pub open spec fn yellow_c() -> Rgb {
    Rgb { r: 230, g: 180, b: 60 }
}

pub open spec fn red_c() -> Rgb {
    Rgb { r: 220, g: 80, b: 80 }
}

pub open spec fn blue_c() -> Rgb {
    Rgb { r: 100, g: 155, b: 245 }
}

pub open spec fn purple_c() -> Rgb {
    Rgb { r: 160, g: 120, b: 240 }
}

pub open spec fn teal_c() -> Rgb {
    Rgb { r: 80, g: 195, b: 200 }
}

pub open spec fn body_c() -> Rgb {
    Rgb { r: 185, g: 192, b: 218 }
}

fn header_rgb() -> (c: Rgb)
    ensures
        c == header_c(),
{
    Rgb { r: 210, g: 218, b: 255 }
}

fn label_rgb() -> (c: Rgb)
    ensures
        c == label_c(),
{
    Rgb { r: 100, g: 110, b: 150 }
}

fn value_rgb() -> (c: Rgb)
    ensures
        c == value_c(),
{
    Rgb { r: 218, g: 224, b: 245 }
}

fn dim_rgb() -> (c: Rgb)
    ensures
        c == dim_c(),
{
    Rgb { r: 50, g: 55, b: 72 }
}

fn green_rgb() -> (c: Rgb)
    ensures
        c == green_c(),
{
    Rgb { r: 80, g: 210, b: 130 }
}

fn yellow_rgb() -> (c: Rgb)
    ensures
        c == yellow_c(),
{
    Rgb { r: 230, g: 180, b: 60 }
}

fn red_rgb() -> (c: Rgb)
    ensures
        c == red_c(),
{
    Rgb { r: 220, g: 80, b: 80 }
}

fn blue_rgb() -> (c: Rgb)
    ensures
        c == blue_c(),
{
    Rgb { r: 100, g: 155, b: 245 }
}

fn purple_rgb() -> (c: Rgb)
    ensures
        c == purple_c(),
{
    Rgb { r: 160, g: 120, b: 240 }
}

fn teal_rgb() -> (c: Rgb)
    ensures
        c == teal_c(),
{
    Rgb { r: 80, g: 195, b: 200 }
}

fn body_rgb() -> (c: Rgb)
    ensures
        c == body_c(),
{
    Rgb { r: 185, g: 192, b: 218 }
}

// ── Spans and lines ─────────────────────────────────────────────────────────
/// A span in colour `c`.
pub open spec fn span_v(text: Seq<char>, c: Rgb, bold: bool) -> SpanV {
    (text, Some(c), bold, false, None, false)
}

/// A span in the terminal's default style.
pub open spec fn plain_v(text: Seq<char>) -> SpanV {
    (text, None, false, false, None, false)
}

/// A line with nothing on it.
pub open spec fn empty_v() -> LineV {
    Seq::empty()
}

/// The dim horizontal rule between sections.
pub open spec fn sep_v() -> LineV {
    seq![span_v("  ─────────────────────────────────────────────────────────"@, dim_c(), false)]
}

/// A bold section title.
pub open spec fn header_v(text: Seq<char>) -> LineV {
    seq![span_v(text, header_c(), true)]
}

/// A line shown as it came, in the body colour.
pub open spec fn body_v(l: Seq<char>) -> LineV {
    seq![span_v(l, body_c(), false)]
}

fn span(text: &Vec<char>, c: Rgb, bold: bool) -> (s: StyledSpan)
    ensures
        s@ == span_v(text@, c, bold),
{
    StyledSpan { text: string_of(text), fg: Some(c), bold, underlined: false, bg: None, crossed_out: false }
}

fn lit_span(text: &str, c: Rgb, bold: bool) -> (s: StyledSpan)
    ensures
        s@ == span_v(text@, c, bold),
{
    StyledSpan { text: string_of(&chars_of(text)), fg: Some(c), bold, underlined: false, bg: None, crossed_out: false }
}

fn plain_span(text: &str) -> (s: StyledSpan)
    ensures
        s@ == plain_v(text@),
{
    StyledSpan { text: string_of(&chars_of(text)), fg: None, bold: false, underlined: false, bg: None, crossed_out: false }
}

fn line1(a: StyledSpan) -> (l: StyledLine)
    ensures
        l@ == seq![a@],
{
    let l = StyledLine { spans: vec![a] };
    assert(l@ =~= seq![a@]);
    l
}

fn line2(a: StyledSpan, b: StyledSpan) -> (l: StyledLine)
    ensures
        l@ == seq![a@, b@],
{
    let l = StyledLine { spans: vec![a, b] };
    assert(l@ =~= seq![a@, b@]);
    l
}

fn line3(a: StyledSpan, b: StyledSpan, c: StyledSpan) -> (l: StyledLine)
    ensures
        l@ == seq![a@, b@, c@],
{
    let l = StyledLine { spans: vec![a, b, c] };
    assert(l@ =~= seq![a@, b@, c@]);
    l
}

fn line4(a: StyledSpan, b: StyledSpan, c: StyledSpan, d: StyledSpan) -> (l: StyledLine)
    ensures
        l@ == seq![a@, b@, c@, d@],
{
    let l = StyledLine { spans: vec![a, b, c, d] };
    assert(l@ =~= seq![a@, b@, c@, d@]);
    l
}

fn empty_line() -> (l: StyledLine)
    ensures
        l@ == empty_v(),
{
    let l = StyledLine { spans: Vec::new() };
    assert(l@ =~= empty_v());
    l
}

fn sep_line() -> (l: StyledLine)
    ensures
        l@ == sep_v(),
{
    line1(lit_span("  ─────────────────────────────────────────────────────────", dim_rgb(), false))
}

fn header_line(text: &Vec<char>) -> (l: StyledLine)
    ensures
        l@ == header_v(text@),
{
    line1(span(text, header_rgb(), true))
}

fn body_line(text: &Vec<char>) -> (l: StyledLine)
    ensures
        l@ == body_v(text@),
{
    line1(span(text, body_rgb(), false))
}

/// `a` followed by `b`.
fn cat(a: &str, b: &Vec<char>) -> (r: Vec<char>)
    ensures
        r@ == a@ + b@,
{
    let mut r = chars_of(a);
    append_chars(&mut r, b);
    r
}

// ── Splitting a line ────────────────────────────────────────────────────────
/// `p` occurs in `s`.
pub open spec fn has_seq(s: Seq<char>, p: Seq<char>) -> bool {
    find_seq(s, p) >= 0
}

/// What comes before the first `p` in `s` (all of `s` where there is none).
pub open spec fn before_seq(s: Seq<char>, p: Seq<char>) -> Seq<char> {
    if has_seq(s, p) {
        s.take(find_seq(s, p))
    } else {
        s
    }
}

/// What comes after the first `p` in `s`.
pub open spec fn after_seq(s: Seq<char>, p: Seq<char>) -> Seq<char> {
    s.skip(find_seq(s, p) + p.len())
}

/// Whether every character of `s` is a box-drawing horizontal line.
pub open spec fn all_rule(s: Seq<char>) -> bool {
    forall|i: int| 0 <= i < s.len() ==> s[i] == '─'
}

fn is_all_rule(s: &Vec<char>) -> (b: bool)
    ensures
        b == all_rule(s@),
{
    let mut i: usize = 0;
    while i < s.len()
        invariant
            i <= s.len(),
            forall|j: int| 0 <= j < i ==> s@[j] == '─',
        decreases s.len() - i,
    {
        if s[i] != '─' {
            return false;
        }
        i += 1;
    }
    true
}

/// The parts of `s` before and after the first `p`, as `split_once`.
fn split_first(s: &Vec<char>, p: &Vec<char>) -> (r: (Vec<char>, Option<Vec<char>>))
    ensures
        r.0@ == before_seq(s@, p@),
        r.1.is_some() == has_seq(s@, p@),
        r.1 matches Some(a) ==> a@ == after_seq(s@, p@),
{
    proof {
        lemma_find_seq_props(s@, p@);
    }
    match find_chars(s, p) {
        Some(i) => {
            let a = slice_chars(s, 0, i);
            let b = slice_chars(s, i + p.len(), s.len());
            assert(a@ =~= s@.take(i as int));
            assert(b@ =~= s@.skip(i + p@.len()));
            (a, Some(b))
        },
        None => (slice_chars(s, 0, s.len()), None),
    }
}

/// `"  {:w}"` applied to `k:`, the label column of a key/value row.
pub open spec fn label_col(k: Seq<char>, w: nat) -> Seq<char> {
    "  "@ + pad_to(k + ":"@, w)
}

fn label_text(k: &Vec<char>, w: usize) -> (r: Vec<char>)
    ensures
        r@ == label_col(k@, w as nat),
{
    let mut kc = copy_of(k);
    append_chars(&mut kc, &chars_of(":"));
    cat("  ", &pad_chars(&kc, w))
}

fn copy_of(k: &Vec<char>) -> (r: Vec<char>)
    ensures
        r@ == k@,
{
    slice_chars(k, 0, k.len())
}

/// The content split into lines, each with trailing whitespace removed,
/// as `content.lines()` followed by `trim_end()`.
pub open spec fn raw_lines(content: Seq<char>) -> Seq<Seq<char>> {
    lines_seq(content).map_values(|l: Seq<char>| trim_end_seq(l))
}

fn raw_lines_of(content: &str) -> (r: Vec<Vec<char>>)
    ensures
        r@.map_values(|l: Vec<char>| l@) == raw_lines(content@),
{
    let ls = lines_chars(&chars_of(content));
    let mut r: Vec<Vec<char>> = Vec::new();
    let mut i: usize = 0;
    while i < ls.len()
        invariant
            i <= ls.len(),
            r.len() == i,
            ls@.map_values(|l: Vec<char>| l@) == lines_seq(content@),
            r@.map_values(|l: Vec<char>| l@) =~= raw_lines(content@).take(i as int),
        decreases ls.len() - i,
    {
        let t = trim_end_chars(&ls[i]);
        proof {
            assert(ls@.map_values(|l: Vec<char>| l@).len() == ls@.len());
            assert(ls@.map_values(|l: Vec<char>| l@)[i as int] == ls@[i as int]@);
            assert(raw_lines(content@)[i as int] == trim_end_seq(ls@[i as int]@));
        }
        let ghost tv = t@;
        r.push(t);
        assert(r@[i as int]@ == tv);
        assert(r@.map_values(|l: Vec<char>| l@)[i as int] == r@[i as int]@);
        assert(r@.map_values(|l: Vec<char>| l@)[i as int] == raw_lines(content@)[i as int]);
        assert(r@.map_values(|l: Vec<char>| l@) =~= raw_lines(content@).take(i + 1));
        i += 1;
    }
    assert(raw_lines(content@).take(ls.len() as int) =~= raw_lines(content@));
    r
}


fn starts(s: &Vec<char>, p: &str) -> (b: bool)
    ensures
        b == starts_with_seq(s@, p@),
{
    starts_with_chars(s, &chars_of(p))
}

fn has(s: &Vec<char>, p: &str) -> (b: bool)
    ensures
        b == has_seq(s@, p@),
{
    find_chars(s, &chars_of(p)).is_some()
}

fn strip(s: &Vec<char>, p: &str) -> (r: Vec<char>)
    ensures
        r@ == trim_start_matches_seq(s@, p@),
{
    trim_start_matches_chars(s, &chars_of(p))
}

/// The part of `s` from the first `p` on, where `p` occurs.
fn from_first(s: &Vec<char>, p: &str) -> (r: Option<Vec<char>>)
    ensures
        r.is_some() == has_seq(s@, p@),
        r matches Some(a) ==> a@ == s@.skip(find_seq(s@, p@)),
{
    let pc = chars_of(p);
    proof {
        lemma_find_seq_props(s@, p@);
    }
    match find_chars(s, &pc) {
        Some(i) => {
            let a = slice_chars(s, i, s.len());
            assert(a@ =~= s@.skip(i as int));
            Some(a)
        },
        None => None,
    }
}

/// Appends `more` to `out`.
fn append_lines(out: &mut Vec<StyledLine>, more: Vec<StyledLine>)
    ensures
        lines_view(final(out)@) == lines_view(old(out)@) + lines_view(more@),
{
    let mut m = more;
    out.append(&mut m);
    assert(lines_view(out@) =~= lines_view(old(out)@) + lines_view(more@));
}

// ── push-check / push-verify ────────────────────────────────────────────────
/// The message of a status row: what follows the icon, its variation selector
/// and the spaces around them.
pub open spec fn status_msg(t: Seq<char>, icon: Seq<char>) -> Seq<char> {
    trim_start_matches_seq(
        trim_seq(trim_start_matches_seq(trim_seq(trim_start_matches_seq(t, icon)), "\u{fe0f}"@)),
        " "@,
    )
}

/// Colour and weight of the value of a detail row.
pub open spec fn detail_tone(v: Seq<char>) -> (Rgb, bool) {
    if has_seq(v, "Yes"@) || has_seq(v, "No "@) || starts_with_seq(v, "✅"@) {
        if has_seq(v, "✅"@) {
            (green_c(), true)
        } else if has_seq(v, "⚠"@) {
            (yellow_c(), true)
        } else if has_seq(v, "❌"@) {
            (red_c(), true)
        } else {
            (value_c(), false)
        }
    } else {
        (value_c(), false)
    }
}

/// The lines that one line `l` of a push report (trailing whitespace removed) becomes.
pub open spec fn push_line_v(l: Seq<char>) -> Seq<LineV> {
    let t = trim_seq(l);
    if t.len() == 0 {
        seq![empty_v()]
    } else if all_rule(t) {
        seq![sep_v()]
    } else if starts_with_seq(t, "Push Status"@) || starts_with_seq(t, "Push Verify"@) {
        seq![header_v("  "@ + before_seq(t, " — "@))] + (if has_seq(t, " — "@) {
            seq![
                seq![
                    span_v("  branch  "@, label_c(), false),
                    span_v(
                        trim_start_matches_seq(after_seq(t, " — "@), "branch: "@),
                        purple_c(),
                        true,
                    ),
                ],
            ]
        } else {
            Seq::empty()
        }) + seq![sep_v()]
    } else if starts_with_seq(t, "✅"@) || starts_with_seq(t, "⚠"@) {
        let icon = if starts_with_seq(t, "✅"@) {
            "✅"@
        } else {
            "⚠"@
        };
        let color = if starts_with_seq(t, "✅"@) {
            green_c()
        } else {
            yellow_c()
        };
        seq![seq![span_v("  "@ + icon + " "@, color, false), span_v(status_msg(t, icon), color, true)]]
    } else if starts_with_seq(t, "📌"@) || starts_with_seq(t, "🌐"@) {
        let rest = trim_seq(
            trim_start_matches_seq(trim_seq(trim_start_matches_seq(t, "📌"@)), "🌐"@),
        );
        if has_seq(rest, ":"@) {
            seq![
                seq![
                    span_v(label_col(trim_seq(before_seq(rest, ":"@)), 18), label_c(), false),
                    span_v(trim_seq(after_seq(rest, ":"@)), purple_c(), true),
                ],
            ]
        } else {
            Seq::empty()
        }
    } else if starts_with_seq(t, "📊"@) {
        seq![empty_v(), header_v("  Details"@)]
    } else if starts_with_seq(l, "   "@) && has_seq(t, ":"@) {
        let v = trim_seq(after_seq(t, ":"@));
        seq![
            seq![
                span_v(label_col(trim_seq(before_seq(t, ":"@)), 26), label_c(), false),
                span_v(v, detail_tone(v).0, detail_tone(v).1),
            ],
        ]
    } else if starts_with_seq(t, "🚀"@) {
        seq![empty_v(), sep_v(), header_v("  "@ + trim_seq(trim_start_matches_seq(t, "🚀"@)))]
    } else if starts_with_seq(t, "🔑"@) {
        let rest = trim_seq(trim_start_matches_seq(t, "🔑"@));
        let hash = if has_seq(rest, "💬"@) {
            trim_seq(before_seq(rest, "💬"@))
        } else {
            rest
        };
        let msg = if has_seq(rest, "💬"@) {
            trim_seq(trim_start_matches_seq(rest.skip(find_seq(rest, "💬"@)), "💬"@))
        } else {
            Seq::empty()
        };
        seq![
            seq![
                span_v("  #"@, dim_c(), false),
                span_v(hash, purple_c(), false),
                plain_v("  "@),
                span_v(msg, value_c(), false),
            ],
        ]
    } else if starts_with_seq(t, "•"@) {
        seq![seq![span_v("    "@ + t, yellow_c(), false)]]
    } else if starts_with_seq(t, "TOTAL:"@) {
        seq![header_v("  "@ + t)]
    } else {
        seq![body_v(l)]
    }
}

fn detail_value_span(v: &Vec<char>) -> (s: StyledSpan)
    ensures
        s@ == span_v(v@, detail_tone(v@).0, detail_tone(v@).1),
{
    if has(v, "Yes") || has(v, "No ") || starts(v, "✅") {
        if has(v, "✅") {
            span(v, green_rgb(), true)
        } else if has(v, "⚠") {
            span(v, yellow_rgb(), true)
        } else if has(v, "❌") {
            span(v, red_rgb(), true)
        } else {
            span(v, value_rgb(), false)
        }
    } else {
        span(v, value_rgb(), false)
    }
}

/// The lines that one line `l` of a push report becomes (see `push_line_v`).
pub fn push_line(l: &Vec<char>) -> (r: Vec<StyledLine>)
    ensures
        lines_view(r@) == push_line_v(l@),
{
    let t = trim_chars(l);
    let mut out: Vec<StyledLine> = Vec::new();
    if t.len() == 0 {
        out.push(empty_line());
    } else if is_all_rule(&t) {
        out.push(sep_line());
    } else if starts(&t, "Push Status") || starts(&t, "Push Verify") {
        let (head, rest) = split_first(&t, &chars_of(" — "));
        out.push(header_line(&cat("  ", &head)));
        match rest {
            Some(b) => {
                out.push(
                    line2(
                        lit_span("  branch  ", label_rgb(), false),
                        span(&strip(&b, "branch: "), purple_rgb(), true),
                    ),
                );
            },
            None => {},
        }
        out.push(sep_line());
    } else if starts(&t, "✅") || starts(&t, "⚠") {
        let ok = starts(&t, "✅");
        let icon = if ok {
            "✅"
        } else {
            "⚠"
        };
        let color = if ok {
            green_rgb()
        } else {
            yellow_rgb()
        };
        let m1 = trim_chars(&strip(&t, icon));
        let m2 = trim_chars(&strip(&m1, "\u{fe0f}"));
        let msg = strip(&m2, " ");
        let mut head = cat("  ", &chars_of(icon));
        append_chars(&mut head, &chars_of(" "));
        out.push(line2(span(&head, color, false), span(&msg, color, true)));
    } else if starts(&t, "📌") || starts(&t, "🌐") {
        let rest = trim_chars(&strip(&trim_chars(&strip(&t, "📌")), "🌐"));
        let (k, v) = split_first(&rest, &chars_of(":"));
        match v {
            Some(v) => {
                out.push(
                    line2(
                        span(&label_text(&trim_chars(&k), 18), label_rgb(), false),
                        span(&trim_chars(&v), purple_rgb(), true),
                    ),
                );
            },
            None => {},
        }
    } else if starts(&t, "📊") {
        out.push(empty_line());
        out.push(header_line(&chars_of("  Details")));
    } else if starts(l, "   ") && has(&t, ":") {
        let (k, v) = split_first(&t, &chars_of(":"));
        match v {
            Some(v) => {
                let v = trim_chars(&v);
                out.push(
                    line2(
                        span(&label_text(&trim_chars(&k), 26), label_rgb(), false),
                        detail_value_span(&v),
                    ),
                );
            },
            None => {},
        }
    } else if starts(&t, "🚀") {
        out.push(empty_line());
        out.push(sep_line());
        out.push(header_line(&cat("  ", &trim_chars(&strip(&t, "🚀")))));
    } else if starts(&t, "🔑") {
        let rest = trim_chars(&strip(&t, "🔑"));
        let (h, _) = split_first(&rest, &chars_of("💬"));
        let (hash, msg) = match from_first(&rest, "💬") {
            Some(m) => (trim_chars(&h), trim_chars(&strip(&m, "💬"))),
            None => (rest, Vec::new()),
        };
        out.push(
            line4(
                lit_span("  #", dim_rgb(), false),
                span(&hash, purple_rgb(), false),
                plain_span("  "),
                span(&msg, value_rgb(), false),
            ),
        );
    } else if starts(&t, "•") {
        out.push(line1(span(&cat("    ", &t), yellow_rgb(), false)));
    } else if starts(&t, "TOTAL:") {
        out.push(header_line(&cat("  ", &t)));
    } else {
        out.push(body_line(l));
    }
    assert(lines_view(out@) =~= push_line_v(l@));
    out
}


// ── show-activity ───────────────────────────────────────────────────────────
/// The part of an activity report being read: the figures after the title, the
/// recent days after their heading, or neither.
#[derive(Debug, Clone, Copy, PartialEq, Eq, Structural)]
pub enum ActivitySection {
    Top,
    Stats,
    Days,
}

/// Colour and icon of a figure of the activity summary.
pub open spec fn stat_style(key: Seq<char>) -> (Rgb, Seq<char>) {
    if key == "Total contributions"@ {
        (green_c(), "⬡"@)
    } else if key == "Commits"@ {
        (blue_c(), "◎"@)
    } else if key == "Pull requests"@ {
        (purple_c(), "⎇"@)
    } else if key == "Issues"@ {
        (yellow_c(), "⊙"@)
    } else if key == "Repos created"@ {
        (teal_c(), "▣"@)
    } else {
        (value_c(), "·"@)
    }
}

/// Position of the last `c` in `s`, or -1.
pub open spec fn last_index(s: Seq<char>, c: char) -> int
    decreases s.len(),
{
    if s.len() == 0 {
        -1
    } else if s.last() == c {
        s.len() - 1
    } else {
        last_index(s.drop_last(), c)
    }
}

/// How many times `c` occurs in `s`.
pub open spec fn count_char(s: Seq<char>, c: char) -> nat
    decreases s.len(),
{
    if s.len() == 0 {
        0
    } else {
        count_char(s.drop_last(), c) + (if s.last() == c {
            1nat
        } else {
            0nat
        })
    }
}

/// Colour of a day's bar: the more blocks, the brighter the green.
pub open spec fn bar_color(blocks: nat) -> Rgb {
    if blocks >= 10 {
        green_c()
    } else if blocks >= 4 {
        Rgb { r: 60, g: 180, b: 110 }
    } else if blocks >= 1 {
        Rgb { r: 40, g: 150, b: 90 }
    } else {
        dim_c()
    }
}

/// The row of one recent day: its date, its bar and the count in brackets after it.
pub open spec fn day_bar_v(date: Seq<char>, rest: Seq<char>) -> LineV {
    let p = last_index(rest, '(');
    let bar = if p >= 0 {
        trim_end_seq(rest.take(p))
    } else {
        rest
    };
    let count = if p >= 0 {
        rest.skip(p)
    } else {
        Seq::empty()
    };
    seq![
        span_v("  "@ + date + " "@, teal_c(), false),
        span_v(bar, bar_color(count_char(bar, '█')), true),
        span_v(" "@ + count, label_c(), false),
    ]
}

/// The numbers among the pieces, in order, each read as `str::parse::<i32>` reads it;
/// pieces that are not numbers are skipped.
pub open spec fn parsed_counts(ps: Seq<Seq<char>>) -> Seq<i32>
    decreases ps.len(),
{
    if ps.len() == 0 {
        Seq::empty()
    } else {
        let r = parsed_counts(ps.drop_last());
        match parse_i32_seq(ps.last()) {
            Some(v) => r.push(v),
            None => r,
        }
    }
}

/// The weeks of a contribution grid: pieces between `|`, each a list of daily counts
/// between `,`.
pub open spec fn weeks_of(ws: Seq<Seq<char>>) -> Seq<Seq<i32>>
    decreases ws.len(),
{
    if ws.len() == 0 {
        Seq::empty()
    } else {
        weeks_of(ws.drop_last()).push(parsed_counts(split_seq(ws.last(), ',')))
    }
}

/// The largest of `m` and the numbers in `xs`.
pub open spec fn max_from(xs: Seq<i32>, m: int) -> int
    decreases xs.len(),
{
    if xs.len() == 0 {
        m
    } else {
        let r = max_from(xs.drop_last(), m);
        if xs.last() > r {
            xs.last() as int
        } else {
            r
        }
    }
}

/// The largest count of the grid, and at least 1.
pub open spec fn grid_max(ws: Seq<Seq<i32>>) -> int
    decreases ws.len(),
{
    if ws.len() == 0 {
        1
    } else {
        max_from(ws.last(), grid_max(ws.drop_last()))
    }
}

/// The count of day `row` of a week, 0 where the week has no such day.
pub open spec fn count_at(w: Seq<i32>, row: int) -> int {
    if 0 <= row < w.len() {
        w[row] as int
    } else {
        0
    }
}

/// Heat level 0 to 4 of a count, relative to the largest count `mx`.
pub open spec fn heat_level(count: int, mx: int) -> int {
    if count == 0 {
        0
    } else if count <= mx / 4 {
        1
    } else if count <= mx / 2 {
        2
    } else if count <= (mx * 3) / 4 {
        3
    } else {
        4
    }
}

/// Colour of a heat level.
pub open spec fn heat_c(level: int) -> Rgb {
    if level == 0 {
        Rgb { r: 22, g: 27, b: 34 }
    } else if level == 1 {
        Rgb { r: 14, g: 68, b: 41 }
    } else if level == 2 {
        Rgb { r: 0, g: 109, b: 50 }
    } else if level == 3 {
        Rgb { r: 38, g: 166, b: 65 }
    } else {
        Rgb { r: 57, g: 211, b: 83 }
    }
}

/// Short name of a day of the week, Sunday first.
pub open spec fn day_label(row: int) -> Seq<char> {
    if row == 0 {
        "Sun"@
    } else if row == 1 {
        "Mon"@
    } else if row == 2 {
        "Tue"@
    } else if row == 3 {
        "Wed"@
    } else if row == 4 {
        "Thu"@
    } else if row == 5 {
        "Fri"@
    } else {
        "Sat"@
    }
}

/// Short name of a month, January first.
pub open spec fn month_name(m: int) -> Seq<char> {
    if m == 0 {
        "Jan"@
    } else if m == 1 {
        "Feb"@
    } else if m == 2 {
        "Mar"@
    } else if m == 3 {
        "Apr"@
    } else if m == 4 {
        "May"@
    } else if m == 5 {
        "Jun"@
    } else if m == 6 {
        "Jul"@
    } else if m == 7 {
        "Aug"@
    } else if m == 8 {
        "Sep"@
    } else if m == 9 {
        "Oct"@
    } else if m == 10 {
        "Nov"@
    } else {
        "Dec"@
    }
}

/// The cells of day `row` across the weeks: a block coloured by heat, then a space.
pub open spec fn row_cells(ws: Seq<Seq<i32>>, row: int, mx: int) -> Seq<SpanV>
    decreases ws.len(),
{
    if ws.len() == 0 {
        Seq::empty()
    } else {
        row_cells(ws.drop_last(), row, mx) + seq![
            span_v("█"@, heat_c(heat_level(count_at(ws.last(), row), mx)), false),
            plain_v(" "@),
        ]
    }
}

/// One row of the grid: the day's name, then its cells.
pub open spec fn grid_row_v(ws: Seq<Seq<i32>>, row: int, mx: int) -> LineV {
    seq![span_v("  "@ + day_label(row) + " "@, label_c(), false)] + row_cells(ws, row, mx)
}

/// The first `n` rows of the grid.
pub open spec fn grid_rows(ws: Seq<Seq<i32>>, mx: int, n: nat) -> Seq<LineV>
    decreases n,
{
    if n == 0 {
        Seq::empty()
    } else {
        grid_rows(ws, mx, (n - 1) as nat).push(grid_row_v(ws, n - 1, mx))
    }
}

/// The month a week falls in, estimated from its position among 53.
pub open spec fn month_of_week(wi: int) -> int {
    if (wi * 12) / 53 < 11 {
        (wi * 12) / 53
    } else {
        11
    }
}

/// The month row for the first `k` weeks, and the month last named: a month's name
/// under the first week estimated to fall in it, two spaces under the others.
pub open spec fn month_fold(k: nat) -> (Seq<SpanV>, int)
    decreases k,
{
    if k == 0 {
        (seq![plain_v("       "@)], -1)
    } else {
        let (sp, last) = month_fold((k - 1) as nat);
        let m = month_of_week(k - 1);
        if m != last {
            (sp.push(span_v(month_name(m), label_c(), false)), m)
        } else {
            (sp.push(plain_v("  "@)), last)
        }
    }
}

/// The legend under the grid, from the coldest colour to the hottest.
pub open spec fn legend_v() -> LineV {
    seq![
        span_v("  Less "@, label_c(), false),
        span_v("█"@, heat_c(0), false),
        plain_v(" "@),
        span_v("█"@, heat_c(1), false),
        plain_v(" "@),
        span_v("█"@, heat_c(2), false),
        plain_v(" "@),
        span_v("█"@, heat_c(3), false),
        plain_v(" "@),
        span_v("█"@, heat_c(4), false),
        span_v(" More"@, label_c(), false),
    ]
}

/// The lines of the contribution grid read from `data`, the text after `GRID:`.
pub open spec fn grid_lines_v(data: Seq<char>) -> Seq<LineV> {
    let ws = weeks_of(split_seq(data, '|'));
    let mx = grid_max(ws);
    seq![empty_v(), sep_v(), header_v("  Contribution Activity — Last 365 days"@), empty_v()]
        + grid_rows(ws, mx, 7) + seq![empty_v(), month_fold(ws.len()).0, empty_v(), legend_v()]
}

/// The lines that one line `l` of an activity report becomes while reading `sec`, and
/// the part read after it.
pub open spec fn activity_step(sec: ActivitySection, l: Seq<char>) -> (Seq<LineV>, ActivitySection) {
    let t = trim_seq(l);
    if t.len() == 0 {
        (seq![empty_v()], sec)
    } else if starts_with_seq(t, "GitHub Activity"@) {
        let who = if has_seq(t, " — "@) {
            before_seq(after_seq(t, " — "@), " — "@)
        } else {
            t
        };
        (
            seq![
                seq![span_v("  ◈  "@, green_c(), true), span_v(who, header_c(), true)],
                sep_v(),
                empty_v(),
            ],
            ActivitySection::Stats,
        )
    } else if sec == ActivitySection::Stats && has_seq(t, " : "@) {
        let key = trim_seq(before_seq(t, " : "@));
        let val = trim_seq(after_seq(t, " : "@));
        let st = stat_style(key);
        (
            seq![
                seq![
                    span_v("  "@ + st.1 + " "@, st.0, false),
                    span_v(pad_to(key, 22), label_c(), false),
                    span_v(val, st.0, true),
                ],
            ],
            sec,
        )
    } else if t == "Last 3 days:"@ {
        (
            seq![empty_v(), sep_v(), header_v("  Last 3 days"@), empty_v()],
            ActivitySection::Days,
        )
    } else if sec == ActivitySection::Days && has_seq(t, " : "@) {
        (seq![day_bar_v(trim_seq(before_seq(t, " : "@)), trim_seq(after_seq(t, " : "@)))], sec)
    } else if starts_with_seq(t, "GRID:"@) {
        (grid_lines_v(t.skip(5)), sec)
    } else {
        (seq![body_v(l)], sec)
    }
}

/// The lines of the report's lines `ls` read in order from the top, and the part
/// read after the last.
pub open spec fn activity_fold(ls: Seq<Seq<char>>) -> (Seq<LineV>, ActivitySection)
    decreases ls.len(),
{
    if ls.len() == 0 {
        (Seq::empty(), ActivitySection::Top)
    } else {
        let (out, sec) = activity_fold(ls.drop_last());
        let (more, next) = activity_step(sec, ls.last());
        (out + more, next)
    }
}

/// The page an activity report is shown as: its lines between two empty lines.
pub open spec fn activity_page(content: Seq<char>) -> Seq<LineV> {
    seq![empty_v()] + activity_fold(raw_lines(content)).0 + seq![empty_v()]
}

fn line_of(v: Vec<StyledSpan>) -> (l: StyledLine)
    ensures
        l@ == spans_view(v@),
{
    StyledLine { spans: v }
}

fn push_span(v: &mut Vec<StyledSpan>, x: StyledSpan)
    ensures
        spans_view(final(v)@) == spans_view(old(v)@).push(x@),
{
    v.push(x);
    assert(spans_view(v@) =~= spans_view(old(v)@).push(x@));
}

fn stat_style_of(key: &Vec<char>) -> (r: (Rgb, &'static str))
    ensures
        r.0 == stat_style(key@).0,
        r.1@ == stat_style(key@).1,
{
    if chars_eq(key, &chars_of("Total contributions")) {
        (green_rgb(), "⬡")
    } else if chars_eq(key, &chars_of("Commits")) {
        (blue_rgb(), "◎")
    } else if chars_eq(key, &chars_of("Pull requests")) {
        (purple_rgb(), "⎇")
    } else if chars_eq(key, &chars_of("Issues")) {
        (yellow_rgb(), "⊙")
    } else if chars_eq(key, &chars_of("Repos created")) {
        (teal_rgb(), "▣")
    } else {
        (value_rgb(), "·")
    }
}

fn last_index_of(s: &Vec<char>, c: char) -> (r: Option<usize>)
    ensures
        match r {
            Some(i) => i < s.len() && last_index(s@, c) == i,
            None => last_index(s@, c) == -1,
        },
{
    let mut k: usize = s.len();
    assert(s@.take(k as int) =~= s@);
    while k > 0
        invariant
            k <= s.len(),
            last_index(s@, c) == last_index(s@.take(k as int), c),
        decreases k,
    {
        assert(s@.take(k as int).drop_last() =~= s@.take(k - 1));
        if s[k - 1] == c {
            return Some(k - 1);
        }
        k -= 1;
    }
    None
}

fn count_of(s: &Vec<char>, c: char) -> (n: usize)
    ensures
        n == count_char(s@, c),
{
    let mut n: usize = 0;
    let mut i: usize = 0;
    while i < s.len()
        invariant
            i <= s.len(),
            n <= i,
            n == count_char(s@.take(i as int), c),
        decreases s.len() - i,
    {
        assert(s@.take(i + 1).drop_last() =~= s@.take(i as int));
        if s[i] == c {
            n += 1;
        }
        i += 1;
    }
    assert(s@.take(s.len() as int) =~= s@);
    n
}

fn bar_rgb(blocks: usize) -> (c: Rgb)
    ensures
        c == bar_color(blocks as nat),
{
    if blocks >= 10 {
        green_rgb()
    } else if blocks >= 4 {
        Rgb { r: 60, g: 180, b: 110 }
    } else if blocks >= 1 {
        Rgb { r: 40, g: 150, b: 90 }
    } else {
        dim_rgb()
    }
}

fn day_bar(date: &Vec<char>, rest: &Vec<char>) -> (l: StyledLine)
    ensures
        l@ == day_bar_v(date@, rest@),
{
    let (bar, count) = match last_index_of(rest, '(') {
        Some(p) => (trim_end_chars(&slice_chars(rest, 0, p)), slice_chars(rest, p, rest.len())),
        None => (copy_of(rest), Vec::new()),
    };
    proof {
        let p = last_index(rest@, '(');
        if p >= 0 {
            assert(rest@.subrange(0, p) =~= rest@.take(p));
            assert(rest@.subrange(p, rest@.len() as int) =~= rest@.skip(p));
        } else {
            assert(count@ =~= Seq::<char>::empty());
        }
    }
    let mut d = cat("  ", date);
    append_chars(&mut d, &chars_of(" "));
    let l = line3(
        span(&d, teal_rgb(), false),
        span(&bar, bar_rgb(count_of(&bar, '█')), true),
        span(&cat(" ", &count), label_rgb(), false),
    );
    l
}

fn parse_counts(ps: &Vec<Vec<char>>) -> (r: Vec<i32>)
    ensures
        r@ == parsed_counts(ps@.map_values(|p: Vec<char>| p@)),
{
    let ghost pv = ps@.map_values(|p: Vec<char>| p@);
    let mut r: Vec<i32> = Vec::new();
    let mut i: usize = 0;
    assert(pv.take(0) =~= Seq::<Seq<char>>::empty());
    while i < ps.len()
        invariant
            i <= ps.len(),
            pv == ps@.map_values(|p: Vec<char>| p@),
            r@ == parsed_counts(pv.take(i as int)),
        decreases ps.len() - i,
    {
        assert(pv.take(i + 1).drop_last() =~= pv.take(i as int));
        assert(pv[i as int] == ps@[i as int]@);
        match parse_i32(&ps[i]) {
            Some(v) => r.push(v),
            None => {},
        }
        i += 1;
    }
    assert(pv.take(ps.len() as int) =~= pv);
    r
}

fn grid_weeks(data: &Vec<char>) -> (r: Vec<Vec<i32>>)
    ensures
        r@.map_values(|w: Vec<i32>| w@) == weeks_of(split_seq(data@, '|')),
{
    let pieces = split_chars(data, '|');
    let ghost pv = pieces@.map_values(|p: Vec<char>| p@);
    let mut r: Vec<Vec<i32>> = Vec::new();
    let mut i: usize = 0;
    assert(pv.take(0) =~= Seq::<Seq<char>>::empty());
    assert(r@.map_values(|w: Vec<i32>| w@) =~= weeks_of(pv.take(0)));
    while i < pieces.len()
        invariant
            i <= pieces.len(),
            pv == pieces@.map_values(|p: Vec<char>| p@),
            r@.map_values(|w: Vec<i32>| w@) == weeks_of(pv.take(i as int)),
        decreases pieces.len() - i,
    {
        assert(pv.take(i + 1).drop_last() =~= pv.take(i as int));
        assert(pv[i as int] == pieces@[i as int]@);
        let w = parse_counts(&split_chars(&pieces[i], ','));
        let ghost before = r@;
        let ghost wv = w@;
        r.push(w);
        assert(r@.map_values(|w: Vec<i32>| w@) =~= before.map_values(|w: Vec<i32>| w@).push(wv));
        i += 1;
    }
    assert(pv.take(pieces.len() as int) =~= pv);
    r
}

fn week_max(xs: &Vec<i32>, m: i32) -> (r: i32)
    ensures
        r == max_from(xs@, m as int),
{
    let mut r = m;
    let mut i: usize = 0;
    assert(xs@.take(0) =~= Seq::<i32>::empty());
    while i < xs.len()
        invariant
            i <= xs.len(),
            r == max_from(xs@.take(i as int), m as int),
        decreases xs.len() - i,
    {
        assert(xs@.take(i + 1).drop_last() =~= xs@.take(i as int));
        if xs[i] > r {
            r = xs[i];
        }
        i += 1;
    }
    assert(xs@.take(xs.len() as int) =~= xs@);
    r
}

proof fn lemma_max_from_at_least(xs: Seq<i32>, m: int)
    ensures
        max_from(xs, m) >= m,
    decreases xs.len(),
{
    if xs.len() > 0 {
        lemma_max_from_at_least(xs.drop_last(), m);
    }
}

fn max_count(ws: &Vec<Vec<i32>>) -> (r: i32)
    ensures
        r == grid_max(ws@.map_values(|w: Vec<i32>| w@)),
        r >= 1,
{
    let ghost wv = ws@.map_values(|w: Vec<i32>| w@);
    let mut r: i32 = 1;
    let mut i: usize = 0;
    assert(wv.take(0) =~= Seq::<Seq<i32>>::empty());
    while i < ws.len()
        invariant
            i <= ws.len(),
            wv == ws@.map_values(|w: Vec<i32>| w@),
            r == grid_max(wv.take(i as int)),
            r >= 1,
        decreases ws.len() - i,
    {
        assert(wv.take(i + 1).drop_last() =~= wv.take(i as int));
        assert(wv[i as int] == ws@[i as int]@);
        proof {
            lemma_max_from_at_least(ws@[i as int]@, r as int);
        }
        r = week_max(&ws[i], r);
        i += 1;
    }
    assert(wv.take(ws.len() as int) =~= wv);
    r
}

fn heat_level_of(count: i32, mx: i32) -> (r: usize)
    requires
        mx >= 1,
    ensures
        r as int == heat_level(count as int, mx as int),
        r <= 4,
{
    let m = mx as u64;
    let c = count as i64;
    if count == 0 {
        0
    } else if c <= (m / 4) as i64 {
        1
    } else if c <= (m / 2) as i64 {
        2
    } else if c <= ((m * 3) / 4) as i64 {
        3
    } else {
        4
    }
}

fn heat_rgb(level: usize) -> (c: Rgb)
    ensures
        c == heat_c(level as int),
{
    if level == 0 {
        Rgb { r: 22, g: 27, b: 34 }
    } else if level == 1 {
        Rgb { r: 14, g: 68, b: 41 }
    } else if level == 2 {
        Rgb { r: 0, g: 109, b: 50 }
    } else if level == 3 {
        Rgb { r: 38, g: 166, b: 65 }
    } else {
        Rgb { r: 57, g: 211, b: 83 }
    }
}

fn day_name(row: usize) -> (r: &'static str)
    ensures
        r@ == day_label(row as int),
{
    if row == 0 {
        "Sun"
    } else if row == 1 {
        "Mon"
    } else if row == 2 {
        "Tue"
    } else if row == 3 {
        "Wed"
    } else if row == 4 {
        "Thu"
    } else if row == 5 {
        "Fri"
    } else {
        "Sat"
    }
}

fn month_label(m: usize) -> (r: &'static str)
    ensures
        r@ == month_name(m as int),
{
    if m == 0 {
        "Jan"
    } else if m == 1 {
        "Feb"
    } else if m == 2 {
        "Mar"
    } else if m == 3 {
        "Apr"
    } else if m == 4 {
        "May"
    } else if m == 5 {
        "Jun"
    } else if m == 6 {
        "Jul"
    } else if m == 7 {
        "Aug"
    } else if m == 8 {
        "Sep"
    } else if m == 9 {
        "Oct"
    } else if m == 10 {
        "Nov"
    } else {
        "Dec"
    }
}

fn grid_row(ws: &Vec<Vec<i32>>, row: usize, mx: i32) -> (l: StyledLine)
    requires
        mx >= 1,
    ensures
        l@ == grid_row_v(ws@.map_values(|w: Vec<i32>| w@), row as int, mx as int),
{
    let ghost wv = ws@.map_values(|w: Vec<i32>| w@);
    let mut head = cat("  ", &chars_of(day_name(row)));
    append_chars(&mut head, &chars_of(" "));
    let mut spans: Vec<StyledSpan> = vec![span(&head, label_rgb(), false)];
    let ghost first = spans_view(spans@);
    assert(first =~= seq![span_v("  "@ + day_label(row as int) + " "@, label_c(), false)]);
    let mut j: usize = 0;
    assert(wv.take(0) =~= Seq::<Seq<i32>>::empty());
    assert(spans_view(spans@) =~= first + row_cells(wv.take(0), row as int, mx as int));
    while j < ws.len()
        invariant
            j <= ws.len(),
            mx >= 1,
            wv == ws@.map_values(|w: Vec<i32>| w@),
            first == seq![span_v("  "@ + day_label(row as int) + " "@, label_c(), false)],
            spans_view(spans@) == first + row_cells(wv.take(j as int), row as int, mx as int),
        decreases ws.len() - j,
    {
        assert(wv.take(j + 1).drop_last() =~= wv.take(j as int));
        assert(wv[j as int] == ws@[j as int]@);
        let w = &ws[j];
        let count: i32 = if row < w.len() {
            w[row]
        } else {
            0
        };
        assert(count as int == count_at(wv[j as int], row as int));
        let lv = heat_level_of(count, mx);
        push_span(&mut spans, lit_span("█", heat_rgb(lv), false));
        push_span(&mut spans, plain_span(" "));
        j += 1;
    }
    assert(wv.take(ws.len() as int) =~= wv);
    line_of(spans)
}

fn month_index(wi: usize) -> (m: usize)
    ensures
        m as int == month_of_week(wi as int),
{
    if wi >= 53 {
        assert((wi * 12) / 53 >= 12) by (nonlinear_arith)
            requires
                wi >= 53,
        ;
        11
    } else {
        let q = (wi * 12) / 53;
        if q < 11 {
            q
        } else {
            11
        }
    }
}

fn month_row(n: usize) -> (l: StyledLine)
    ensures
        l@ == month_fold(n as nat).0,
{
    let mut spans: Vec<StyledSpan> = vec![plain_span("       ")];
    let mut last: i64 = -1;
    let mut wi: usize = 0;
    assert(spans_view(spans@) =~= month_fold(0).0);
    while wi < n
        invariant
            wi <= n,
            -1 <= last <= 11,
            (spans_view(spans@), last as int) == month_fold(wi as nat),
        decreases n - wi,
    {
        let m = month_index(wi);
        if m as i64 != last {
            push_span(&mut spans, lit_span(month_label(m), label_rgb(), false));
            last = m as i64;
        } else {
            push_span(&mut spans, plain_span("  "));
        }
        wi += 1;
    }
    line_of(spans)
}

fn legend_line() -> (l: StyledLine)
    ensures
        l@ == legend_v(),
{
    let spans: Vec<StyledSpan> = vec![
        lit_span("  Less ", label_rgb(), false),
        lit_span("█", heat_rgb(0), false),
        plain_span(" "),
        lit_span("█", heat_rgb(1), false),
        plain_span(" "),
        lit_span("█", heat_rgb(2), false),
        plain_span(" "),
        lit_span("█", heat_rgb(3), false),
        plain_span(" "),
        lit_span("█", heat_rgb(4), false),
        lit_span(" More", label_rgb(), false),
    ];
    let l = line_of(spans);
    assert(l@ =~= legend_v());
    l
}

fn grid_lines(data: &Vec<char>) -> (r: Vec<StyledLine>)
    ensures
        lines_view(r@) == grid_lines_v(data@),
{
    let ws = grid_weeks(data);
    let ghost wv = ws@.map_values(|w: Vec<i32>| w@);
    let mx = max_count(&ws);
    let mut out: Vec<StyledLine> = Vec::new();
    out.push(empty_line());
    out.push(sep_line());
    out.push(header_line(&chars_of("  Contribution Activity — Last 365 days")));
    out.push(empty_line());
    let ghost head = lines_view(out@);
    let mut row: usize = 0;
    assert(lines_view(out@) =~= head + grid_rows(wv, mx as int, 0));
    while row < 7
        invariant
            row <= 7,
            mx >= 1,
            wv == ws@.map_values(|w: Vec<i32>| w@),
            lines_view(out@) == head + grid_rows(wv, mx as int, row as nat),
        decreases 7 - row,
    {
        let l = grid_row(&ws, row, mx);
        let ghost before = out@;
        out.push(l);
        assert(lines_view(out@) =~= lines_view(before).push(l@));
        row += 1;
    }
    let ghost mid = out@;
    out.push(empty_line());
    out.push(month_row(ws.len()));
    out.push(empty_line());
    out.push(legend_line());
    assert(wv.len() == ws.len());
    assert(lines_view(out@) =~= lines_view(mid) + seq![
        empty_v(),
        month_fold(ws.len() as nat).0,
        empty_v(),
        legend_v(),
    ]);
    assert(lines_view(out@) =~= grid_lines_v(data@));
    out
}

/// The lines that one line `l` of an activity report becomes while reading `sec`, and
/// the part read after it (see `activity_step`).
pub fn activity_line(sec: ActivitySection, l: &Vec<char>) -> (r: (Vec<StyledLine>, ActivitySection))
    ensures
        (lines_view(r.0@), r.1) == activity_step(sec, l@),
{
    let t = trim_chars(l);
    let mut out: Vec<StyledLine> = Vec::new();
    let mut next = sec;
    if t.len() == 0 {
        out.push(empty_line());
    } else if starts(&t, "GitHub Activity") {
        let (_, rest) = split_first(&t, &chars_of(" — "));
        let who = match rest {
            Some(r) => split_first(&r, &chars_of(" — ")).0,
            None => copy_of(&t),
        };
        out.push(line2(lit_span("  ◈  ", green_rgb(), true), span(&who, header_rgb(), true)));
        out.push(sep_line());
        out.push(empty_line());
        next = ActivitySection::Stats;
    } else if sec == ActivitySection::Stats && has(&t, " : ") {
        let (k, v) = split_first(&t, &chars_of(" : "));
        let key = trim_chars(&k);
        let val = match v {
            Some(v) => trim_chars(&v),
            None => Vec::new(),
        };
        let (c, icon) = stat_style_of(&key);
        let mut head = cat("  ", &chars_of(icon));
        append_chars(&mut head, &chars_of(" "));
        out.push(
            line3(span(&head, c, false), span(&pad_chars(&key, 22), label_rgb(), false), span(&val, c, true)),
        );
    } else if chars_eq(&t, &chars_of("Last 3 days:")) {
        out.push(empty_line());
        out.push(sep_line());
        out.push(header_line(&chars_of("  Last 3 days")));
        out.push(empty_line());
        next = ActivitySection::Days;
    } else if sec == ActivitySection::Days && has(&t, " : ") {
        let (k, v) = split_first(&t, &chars_of(" : "));
        let rest = match v {
            Some(v) => trim_chars(&v),
            None => Vec::new(),
        };
        out.push(day_bar(&trim_chars(&k), &rest));
    } else if starts(&t, "GRID:") {
        proof {
            reveal_strlit("GRID:");
        }
        let data = slice_chars(&t, 5, t.len());
        assert(data@ =~= t@.skip(5));
        out = grid_lines(&data);
    } else {
        out.push(body_line(l));
    }
    assert(lines_view(out@) =~= activity_step(sec, l@).0);
    (out, next)
}

/// Lays out an activity report for its page: the summary figures, the bars of the
/// recent days and the contribution grid, each in its colours.
pub fn build_activity_lines(content: &str) -> (r: Vec<StyledLine>)
    ensures
        lines_view(r@) == activity_page(content@),
{
    let ls = raw_lines_of(content);
    let ghost lv = ls@.map_values(|l: Vec<char>| l@);
    let mut out: Vec<StyledLine> = vec![empty_line()];
    let mut sec = ActivitySection::Top;
    let mut i: usize = 0;
    assert(lv.take(0) =~= Seq::<Seq<char>>::empty());
    assert(lines_view(out@) =~= seq![empty_v()] + activity_fold(lv.take(0)).0);
    while i < ls.len()
        invariant
            i <= ls.len(),
            lv == ls@.map_values(|l: Vec<char>| l@),
            lines_view(out@) == seq![empty_v()] + activity_fold(lv.take(i as int)).0,
            sec == activity_fold(lv.take(i as int)).1,
        decreases ls.len() - i,
    {
        assert(lv.take(i + 1).drop_last() =~= lv.take(i as int));
        assert(lv[i as int] == ls@[i as int]@);
        let (more, next) = activity_line(sec, &ls[i]);
        append_lines(&mut out, more);
        sec = next;
        i += 1;
    }
    assert(lv.take(ls.len() as int) =~= lv);
    out.push(empty_line());
    assert(lines_view(out@) =~= activity_page(content@));
    out
}

// ── Shared pieces of the other pages ────────────────────────────────────────
/// Colour of a word of a diff summary: insertions green, deletions red.
pub open spec fn diff_word_c(w: Seq<char>) -> Rgb {
    if starts_with_seq(w, "+"@) {
        green_c()
    } else if starts_with_seq(w, "-"@) {
        red_c()
    } else {
        label_c()
    }
}

/// The words of a diff summary, each followed by a space and coloured by its sign.
pub open spec fn diff_spans(ws: Seq<Seq<char>>) -> Seq<SpanV>
    decreases ws.len(),
{
    if ws.len() == 0 {
        Seq::empty()
    } else {
        diff_spans(ws.drop_last()).push(span_v(ws.last() + " "@, diff_word_c(ws.last()), false))
    }
}

fn diff_word_rgb(w: &Vec<char>) -> (c: Rgb)
    ensures
        c == diff_word_c(w@),
{
    if starts(w, "+") {
        green_rgb()
    } else if starts(w, "-") {
        red_rgb()
    } else {
        label_rgb()
    }
}

/// Appends the spans of the words of `text` (see `diff_spans`).
fn push_diff_spans(spans: &mut Vec<StyledSpan>, text: &Vec<char>)
    ensures
        spans_view(final(spans)@) == spans_view(old(spans)@) + diff_spans(words_seq(text@)),
{
    let ws = words_chars(text);
    let ghost wv = ws@.map_values(|w: Vec<char>| w@);
    let ghost start = spans_view(spans@);
    let mut i: usize = 0;
    assert(wv.take(0) =~= Seq::<Seq<char>>::empty());
    assert(spans_view(spans@) =~= start + diff_spans(wv.take(0)));
    while i < ws.len()
        invariant
            i <= ws.len(),
            wv == ws@.map_values(|w: Vec<char>| w@),
            start == spans_view(old(spans)@),
            spans_view(spans@) == start + diff_spans(wv.take(i as int)),
        decreases ws.len() - i,
    {
        assert(wv.take(i + 1).drop_last() =~= wv.take(i as int));
        assert(wv[i as int] == ws@[i as int]@);
        let mut w = copy_of(&ws[i]);
        append_chars(&mut w, &chars_of(" "));
        push_span(spans, span(&w, diff_word_rgb(&ws[i]), false));
        i += 1;
    }
    assert(wv.take(ws.len() as int) =~= wv);
}

/// How many characters at the start of `s` are not ASCII (an emoji icon).
pub open spec fn icon_len(s: Seq<char>) -> int
    decreases s.len(),
{
    if s.len() == 0 || (s[0] as u32) < 128 {
        0
    } else {
        1 + icon_len(s.drop_first())
    }
}

fn icon_len_of(s: &Vec<char>) -> (n: usize)
    ensures
        n as int == icon_len(s@),
        n <= s.len(),
{
    let mut i: usize = 0;
    assert(s@.skip(0) =~= s@);
    while i < s.len() && (s[i] as u32) >= 128
        invariant
            i <= s.len(),
            icon_len(s@) == i + icon_len(s@.skip(i as int)),
        decreases s.len() - i,
    {
        assert(s@.skip(i as int).drop_first() =~= s@.skip(i + 1));
        i += 1;
    }
    i
}

/// The spaces at the start of `s`.
pub open spec fn indent_of(s: Seq<char>) -> Seq<char>
    decreases s.len(),
{
    if s.len() > 0 && s[0] == ' ' {
        seq![' '] + indent_of(s.drop_first())
    } else {
        Seq::empty()
    }
}

fn indent_chars(s: &Vec<char>) -> (r: Vec<char>)
    ensures
        r@ == indent_of(s@),
{
    let mut i: usize = 0;
    let mut r: Vec<char> = Vec::new();
    assert(s@.skip(0) =~= s@);
    assert(r@ + indent_of(s@.skip(0)) =~= indent_of(s@));
    while i < s.len() && s[i] == ' '
        invariant
            i <= s.len(),
            r@.len() == i,
            forall|j: int| 0 <= j < i ==> r@[j] == ' ',
            indent_of(s@) == r@ + indent_of(s@.skip(i as int)),
        decreases s.len() - i,
    {
        assert(s@.skip(i as int).drop_first() =~= s@.skip(i + 1));
        let ghost before = r@;
        r.push(' ');
        assert(before + indent_of(s@.skip(i as int)) =~= r@ + indent_of(s@.skip(i + 1)));
        i += 1;
    }
    assert(indent_of(s@.skip(i as int)) =~= Seq::<char>::empty());
    assert(r@ =~= indent_of(s@));
    r
}

/// Lines of a report between two empty lines.
pub open spec fn framed(body: Seq<LineV>) -> Seq<LineV> {
    seq![empty_v()] + body + seq![empty_v()]
}

// ── commits ─────────────────────────────────────────────────────────────────
/// The lines that one line `l` of a commits report becomes.
pub open spec fn commits_line_v(l: Seq<char>) -> Seq<LineV> {
    let t = trim_seq(l);
    if t.len() == 0 {
        seq![empty_v()]
    } else if all_rule(t) {
        seq![sep_v()]
    } else if starts_with_seq(t, "3 Most Recent"@) {
        seq![header_v("  "@ + before_seq(t, " — "@))] + (if has_seq(t, " — "@) {
            seq![seq![span_v("  @"@, label_c(), false), span_v(after_seq(t, " — "@), blue_c(), false)]]
        } else {
            Seq::empty()
        }) + seq![sep_v()]
    } else if starts_with_seq(t, "📦"@) {
        seq![
            empty_v(),
            seq![
                span_v("  📦 "@, teal_c(), false),
                span_v(trim_seq(trim_start_matches_seq(t, "📦"@)), header_c(), true),
            ],
        ]
    } else if starts_with_seq(t, "📝"@) {
        let rest = trim_seq(trim_start_matches_seq(t, "📝"@));
        let date = if has_seq(rest, "🔑"@) {
            trim_seq(before_seq(rest, "🔑"@))
        } else {
            rest
        };
        let hash = if has_seq(rest, "🔑"@) {
            trim_seq(trim_start_matches_seq(rest.skip(find_seq(rest, "🔑"@)), "🔑"@))
        } else {
            Seq::empty()
        };
        seq![
            seq![
                plain_v("    "@),
                span_v(date, teal_c(), false),
                span_v("  #"@, dim_c(), false),
                span_v(hash, purple_c(), false),
            ],
        ]
    } else if starts_with_seq(t, "💬"@) {
        seq![
            seq![
                span_v("    💬 "@, label_c(), false),
                span_v(trim_seq(trim_start_matches_seq(t, "💬"@)), value_c(), false),
            ],
        ]
    } else if starts_with_seq(t, "👤"@) {
        let rest = trim_seq(trim_start_matches_seq(t, "👤"@));
        let author = if has_seq(rest, "📊"@) {
            trim_seq(before_seq(rest, "📊"@))
        } else {
            rest
        };
        let stats = if has_seq(rest, "📊"@) {
            trim_seq(rest.skip(find_seq(rest, "📊"@)))
        } else {
            Seq::empty()
        };
        seq![
            seq![plain_v("    "@), span_v(author, label_c(), false)] + (if stats.len() > 0 {
                seq![plain_v("   "@)] + diff_spans(
                    words_seq(trim_seq(trim_start_matches_seq(stats, "📊"@))),
                )
            } else {
                Seq::empty()
            }),
        ]
    } else {
        seq![body_v(l)]
    }
}

/// The lines that one line `l` of a commits report becomes (see `commits_line_v`).
pub fn commits_line(l: &Vec<char>) -> (r: Vec<StyledLine>)
    ensures
        lines_view(r@) == commits_line_v(l@),
{
    let t = trim_chars(l);
    let mut out: Vec<StyledLine> = Vec::new();
    if t.len() == 0 {
        out.push(empty_line());
    } else if is_all_rule(&t) {
        out.push(sep_line());
    } else if starts(&t, "3 Most Recent") {
        let (head, rest) = split_first(&t, &chars_of(" — "));
        out.push(header_line(&cat("  ", &head)));
        match rest {
            Some(who) => {
                out.push(line2(lit_span("  @", label_rgb(), false), span(&who, blue_rgb(), false)));
            },
            None => {},
        }
        out.push(sep_line());
    } else if starts(&t, "📦") {
        out.push(empty_line());
        out.push(
            line2(
                lit_span("  📦 ", teal_rgb(), false),
                span(&trim_chars(&strip(&t, "📦")), header_rgb(), true),
            ),
        );
    } else if starts(&t, "📝") {
        let rest = trim_chars(&strip(&t, "📝"));
        let (d, _) = split_first(&rest, &chars_of("🔑"));
        let (date, hash) = match from_first(&rest, "🔑") {
            Some(h) => (trim_chars(&d), trim_chars(&strip(&h, "🔑"))),
            None => (rest, Vec::new()),
        };
        out.push(
            line4(
                plain_span("    "),
                span(&date, teal_rgb(), false),
                lit_span("  #", dim_rgb(), false),
                span(&hash, purple_rgb(), false),
            ),
        );
        assert(lines_view(out@) =~= commits_line_v(l@));
    } else if starts(&t, "💬") {
        out.push(
            line2(
                lit_span("    💬 ", label_rgb(), false),
                span(&trim_chars(&strip(&t, "💬")), value_rgb(), false),
            ),
        );
    } else if starts(&t, "👤") {
        let rest = trim_chars(&strip(&t, "👤"));
        let (a, _) = split_first(&rest, &chars_of("📊"));
        let (author, stats) = match from_first(&rest, "📊") {
            Some(st) => (trim_chars(&a), trim_chars(&st)),
            None => (rest, Vec::new()),
        };
        let mut spans: Vec<StyledSpan> = vec![plain_span("    "), span(&author, label_rgb(), false)];
        assert(spans_view(spans@) =~= seq![plain_v("    "@), span_v(author@, label_c(), false)]);
        let ghost base = spans_view(spans@);
        if stats.len() > 0 {
            push_span(&mut spans, plain_span("   "));
            let words = trim_chars(&strip(&stats, "📊"));
            push_diff_spans(&mut spans, &words);
            assert(spans_view(spans@) =~= base + (seq![plain_v("   "@)] + diff_spans(
                words_seq(words@),
            )));
        } else {
            assert(spans_view(spans@) =~= base + Seq::<SpanV>::empty());
        }
        out.push(line_of(spans));
        assert(lines_view(out@) =~= commits_line_v(l@));
    } else {
        out.push(body_line(l));
    }
    assert(lines_view(out@) =~= commits_line_v(l@));
    out
}

// ── pull-requests ───────────────────────────────────────────────────────────
/// Colour of the value of a field of a pull request.
pub open spec fn pr_field_c(k: Seq<char>, v: Seq<char>) -> Rgb {
    if k == "State"@ {
        if v == "OPEN"@ {
            green_c()
        } else {
            label_c()
        }
    } else if k == "Mergeable"@ {
        if v == "MERGEABLE"@ {
            green_c()
        } else {
            yellow_c()
        }
    } else {
        value_c()
    }
}

/// The row of one `key: value` field of a pull request's status line; none where the
/// piece holds no colon.
pub open spec fn pr_field_v(part: Seq<char>) -> Seq<LineV> {
    let p = trim_seq(part);
    if has_seq(p, ":"@) {
        let k = before_seq(p, ":"@);
        let v = trim_seq(after_seq(p, ":"@));
        seq![
            seq![
                span_v("     "@ + pad_to(k + ":"@, 12), label_c(), false),
                span_v(v, pr_field_c(k, v), true),
            ],
        ]
    } else {
        Seq::empty()
    }
}

/// The rows of the fields of a status line, cut at double spaces.
pub open spec fn pr_fields_v(parts: Seq<Seq<char>>) -> Seq<LineV>
    decreases parts.len(),
{
    if parts.len() == 0 {
        Seq::empty()
    } else {
        pr_fields_v(parts.drop_last()) + pr_field_v(parts.last())
    }
}

/// The lines that one line `l` of a pull request report becomes.
pub open spec fn prs_line_v(l: Seq<char>) -> Seq<LineV> {
    let t = trim_seq(l);
    if t.len() == 0 {
        seq![empty_v()]
    } else if all_rule(t) {
        seq![sep_v()]
    } else if starts_with_seq(t, "Open Pull Requests"@) {
        seq![header_v("  "@ + before_seq(t, " — "@))] + (if has_seq(t, " — "@) {
            seq![
                seq![
                    span_v("  Total  "@, label_c(), false),
                    span_v(
                        trim_start_matches_seq(after_seq(t, " — "@), "Total: "@),
                        purple_c(),
                        true,
                    ),
                ],
            ]
        } else {
            Seq::empty()
        }) + seq![sep_v()]
    } else if starts_with_seq(t, "🔀"@) {
        let rest = trim_seq(trim_start_matches_seq(t, "🔀"@));
        let num = if has_seq(rest, " — "@) {
            trim_seq(before_seq(rest, " — "@))
        } else {
            rest
        };
        let title = if has_seq(rest, " — "@) {
            trim_seq(after_seq(rest, " — "@))
        } else {
            Seq::empty()
        };
        seq![
            empty_v(),
            seq![
                span_v("  🔀 "@, purple_c(), false),
                span_v(num, label_c(), false),
                plain_v("  "@),
                span_v(title, header_c(), true),
            ],
        ]
    } else if starts_with_seq(t, "📦"@) {
        seq![
            seq![
                span_v("     📦 "@, teal_c(), false),
                span_v(trim_seq(trim_start_matches_seq(t, "📦"@)), value_c(), false),
            ],
        ]
    } else if starts_with_seq(t, "State:"@) || starts_with_seq(trim_start_seq(l), "State:"@) {
        pr_fields_v(split_str_seq(t, "  "@))
    } else if starts_with_seq(t, "Reviews:"@) {
        seq![
            seq![
                span_v("     Reviews  "@, label_c(), false),
                span_v(trim_seq(trim_start_matches_seq(t, "Reviews:"@)), value_c(), false),
            ],
        ]
    } else if starts_with_seq(t, "•"@) {
        seq![seq![span_v("       "@ + t, label_c(), false)]]
    } else {
        seq![body_v(l)]
    }
}

fn pr_field_rgb(k: &Vec<char>, v: &Vec<char>) -> (c: Rgb)
    ensures
        c == pr_field_c(k@, v@),
{
    if chars_eq(k, &chars_of("State")) {
        if chars_eq(v, &chars_of("OPEN")) {
            green_rgb()
        } else {
            label_rgb()
        }
    } else if chars_eq(k, &chars_of("Mergeable")) {
        if chars_eq(v, &chars_of("MERGEABLE")) {
            green_rgb()
        } else {
            yellow_rgb()
        }
    } else {
        value_rgb()
    }
}

fn pr_fields(t: &Vec<char>) -> (r: Vec<StyledLine>)
    ensures
        lines_view(r@) == pr_fields_v(split_str_seq(t@, "  "@)),
{
    let sp = chars_of("  ");
    proof {
        reveal_strlit("  ");
    }
    let parts = split_str_chars(t, &sp);
    let ghost pv = parts@.map_values(|p: Vec<char>| p@);
    let mut out: Vec<StyledLine> = Vec::new();
    let mut i: usize = 0;
    assert(pv.take(0) =~= Seq::<Seq<char>>::empty());
    assert(lines_view(out@) =~= pr_fields_v(pv.take(0)));
    while i < parts.len()
        invariant
            i <= parts.len(),
            pv == parts@.map_values(|p: Vec<char>| p@),
            lines_view(out@) == pr_fields_v(pv.take(i as int)),
        decreases parts.len() - i,
    {
        assert(pv.take(i + 1).drop_last() =~= pv.take(i as int));
        assert(pv[i as int] == parts@[i as int]@);
        let p = trim_chars(&parts[i]);
        let (k, v) = split_first(&p, &chars_of(":"));
        let ghost before = out@;
        match v {
            Some(v) => {
                let v = trim_chars(&v);
                let mut kc = copy_of(&k);
                append_chars(&mut kc, &chars_of(":"));
                let l = line2(
                    span(&cat("     ", &pad_chars(&kc, 12)), label_rgb(), false),
                    span(&v, pr_field_rgb(&k, &v), true),
                );
                out.push(l);
                assert(lines_view(out@) =~= lines_view(before) + seq![l@]);
            },
            None => {
                assert(lines_view(out@) =~= lines_view(before) + Seq::<LineV>::empty());
            },
        }
        i += 1;
    }
    assert(pv.take(parts.len() as int) =~= pv);
    out
}

/// The lines that one line `l` of a pull request report becomes (see `prs_line_v`).
pub fn prs_line(l: &Vec<char>) -> (r: Vec<StyledLine>)
    ensures
        lines_view(r@) == prs_line_v(l@),
{
    let t = trim_chars(l);
    let mut out: Vec<StyledLine> = Vec::new();
    if t.len() == 0 {
        out.push(empty_line());
    } else if is_all_rule(&t) {
        out.push(sep_line());
    } else if starts(&t, "Open Pull Requests") {
        let (head, rest) = split_first(&t, &chars_of(" — "));
        out.push(header_line(&cat("  ", &head)));
        match rest {
            Some(total) => {
                out.push(
                    line2(
                        lit_span("  Total  ", label_rgb(), false),
                        span(&strip(&total, "Total: "), purple_rgb(), true),
                    ),
                );
            },
            None => {},
        }
        out.push(sep_line());
    } else if starts(&t, "🔀") {
        let rest = trim_chars(&strip(&t, "🔀"));
        let (n, ti) = split_first(&rest, &chars_of(" — "));
        let (num, title) = match ti {
            Some(ti) => (trim_chars(&n), trim_chars(&ti)),
            None => (rest, Vec::new()),
        };
        out.push(empty_line());
        out.push(
            line4(
                lit_span("  🔀 ", purple_rgb(), false),
                span(&num, label_rgb(), false),
                plain_span("  "),
                span(&title, header_rgb(), true),
            ),
        );
    } else if starts(&t, "📦") {
        out.push(
            line2(
                lit_span("     📦 ", teal_rgb(), false),
                span(&trim_chars(&strip(&t, "📦")), value_rgb(), false),
            ),
        );
    } else if starts(&t, "State:") || starts(&trim_start_chars(l), "State:") {
        out = pr_fields(&t);
    } else if starts(&t, "Reviews:") {
        out.push(
            line2(
                lit_span("     Reviews  ", label_rgb(), false),
                span(&trim_chars(&strip(&t, "Reviews:")), value_rgb(), false),
            ),
        );
    } else if starts(&t, "•") {
        out.push(line1(span(&cat("       ", &t), label_rgb(), false)));
    } else {
        out.push(body_line(l));
    }
    assert(lines_view(out@) =~= prs_line_v(l@));
    out
}

// ── multi-sync ──────────────────────────────────────────────────────────────
/// Whether a line of a multi-repository report starts with one of the status icons.
pub open spec fn sync_icon_start(t: Seq<char>) -> bool {
    starts_with_seq(t, "✅"@) || starts_with_seq(t, "⬆"@) || starts_with_seq(t, "⬇"@)
        || starts_with_seq(t, "🔀"@) || starts_with_seq(t, "❌"@) || starts_with_seq(t, "🔄"@)
        || starts_with_seq(t, "⚠"@)
}

/// Colour of a repository's sync description.
pub open spec fn sync_desc_c(desc: Seq<char>) -> Rgb {
    if has_seq(desc, "In sync"@) {
        green_c()
    } else if has_seq(desc, "ahead"@) {
        yellow_c()
    } else if has_seq(desc, "Diverged"@) {
        red_c()
    } else {
        body_c()
    }
}

/// The lines that one line `l` of a multi-repository sync report becomes.
pub open spec fn multisync_line_v(l: Seq<char>) -> Seq<LineV> {
    let t = trim_seq(l);
    if t.len() == 0 {
        seq![empty_v()]
    } else if all_rule(t) {
        seq![sep_v()]
    } else if starts_with_seq(t, "Multi-Repo"@) {
        seq![header_v("  "@ + t), sep_v()]
    } else if sync_icon_start(t) && has_seq(t, " — "@) {
        let left = trim_seq(before_seq(t, " — "@));
        let desc = trim_seq(after_seq(t, " — "@));
        let n = icon_len(left);
        seq![
            seq![
                span_v("  "@ + trim_seq(left.take(n)) + " "@, value_c(), false),
                span_v(pad_to(trim_seq(left.skip(n)), 35), value_c(), false),
                span_v(desc, sync_desc_c(desc), false),
            ],
        ]
    } else {
        seq![body_v(l)]
    }
}

fn sync_desc_rgb(desc: &Vec<char>) -> (c: Rgb)
    ensures
        c == sync_desc_c(desc@),
{
    if has(desc, "In sync") {
        green_rgb()
    } else if has(desc, "ahead") {
        yellow_rgb()
    } else if has(desc, "Diverged") {
        red_rgb()
    } else {
        body_rgb()
    }
}

/// The lines that one line `l` of a multi-repository sync report becomes (see
/// `multisync_line_v`).
pub fn multisync_line(l: &Vec<char>) -> (r: Vec<StyledLine>)
    ensures
        lines_view(r@) == multisync_line_v(l@),
{
    let t = trim_chars(l);
    let mut out: Vec<StyledLine> = Vec::new();
    let icon_start = starts(&t, "✅") || starts(&t, "⬆") || starts(&t, "⬇") || starts(&t, "🔀")
        || starts(&t, "❌") || starts(&t, "🔄") || starts(&t, "⚠");
    if t.len() == 0 {
        out.push(empty_line());
    } else if is_all_rule(&t) {
        out.push(sep_line());
    } else if starts(&t, "Multi-Repo") {
        out.push(header_line(&cat("  ", &t)));
        out.push(sep_line());
    } else if icon_start && has(&t, " — ") {
        let (a, b) = split_first(&t, &chars_of(" — "));
        let left = trim_chars(&a);
        let desc = match b {
            Some(b) => trim_chars(&b),
            None => Vec::new(),
        };
        let n = icon_len_of(&left);
        let icon = trim_chars(&slice_chars(&left, 0, n));
        let repo = trim_chars(&slice_chars(&left, n, left.len()));
        proof {
            assert(left@.subrange(0, n as int) =~= left@.take(n as int));
            assert(left@.subrange(n as int, left@.len() as int) =~= left@.skip(n as int));
        }
        let mut head = cat("  ", &icon);
        append_chars(&mut head, &chars_of(" "));
        out.push(
            line3(
                span(&head, value_rgb(), false),
                span(&pad_chars(&repo, 35), value_rgb(), false),
                span(&desc, sync_desc_rgb(&desc), false),
            ),
        );
    } else {
        out.push(body_line(l));
    }
    assert(lines_view(out@) =~= multisync_line_v(l@));
    out
}

// ── user-info ───────────────────────────────────────────────────────────────
/// Colour of the value of a profile field.
pub open spec fn profile_c(k: Seq<char>) -> Rgb {
    if k == "Username"@ {
        blue_c()
    } else if k == "Name"@ {
        header_c()
    } else if k == "Public repos"@ {
        purple_c()
    } else if k == "Followers"@ || k == "Following"@ {
        green_c()
    } else if k == "Member since"@ {
        teal_c()
    } else {
        value_c()
    }
}

/// Whether a profile line is an icon, then `key: value`.
pub open spec fn is_profile_row(l: Seq<char>, t: Seq<char>) -> bool {
    starts_with_seq(l, "  "@) && t.len() > 0 && (t[0] as u32) >= 128 && has_seq(
        trim_seq(t.skip(icon_len(t))),
        ":"@,
    )
}

/// The lines that one line `l` of a user profile becomes.
pub open spec fn userinfo_line_v(l: Seq<char>) -> Seq<LineV> {
    let t = trim_seq(l);
    if t.len() == 0 {
        seq![empty_v()]
    } else if all_rule(t) {
        seq![sep_v()]
    } else if t == "GitHub User Info"@ {
        seq![header_v("  GitHub User Info"@), sep_v()]
    } else if is_profile_row(l, t) {
        let n = icon_len(t);
        let rest = trim_seq(t.skip(n));
        let k = trim_seq(before_seq(rest, ":"@));
        seq![
            seq![
                span_v("  "@ + t.take(n) + " "@, Rgb { r: 200, g: 210, b: 255 }, false),
                span_v(pad_to(k + ":"@, 16), label_c(), false),
                span_v(trim_seq(after_seq(rest, ":"@)), profile_c(k), true),
            ],
        ]
    } else if starts_with_seq(t, "💬"@) || starts_with_seq(t, "Bio:"@) {
        seq![empty_v(), seq![span_v("  Bio"@, label_c(), true)]]
    } else if starts_with_seq(l, "     "@) {
        seq![seq![span_v("    "@ + t, value_c(), false)]]
    } else {
        seq![body_v(l)]
    }
}

fn profile_rgb(k: &Vec<char>) -> (c: Rgb)
    ensures
        c == profile_c(k@),
{
    if chars_eq(k, &chars_of("Username")) {
        blue_rgb()
    } else if chars_eq(k, &chars_of("Name")) {
        header_rgb()
    } else if chars_eq(k, &chars_of("Public repos")) {
        purple_rgb()
    } else if chars_eq(k, &chars_of("Followers")) || chars_eq(k, &chars_of("Following")) {
        green_rgb()
    } else if chars_eq(k, &chars_of("Member since")) {
        teal_rgb()
    } else {
        value_rgb()
    }
}

/// The lines that one line `l` of a user profile becomes (see `userinfo_line_v`).
pub fn userinfo_line(l: &Vec<char>) -> (r: Vec<StyledLine>)
    ensures
        lines_view(r@) == userinfo_line_v(l@),
{
    let t = trim_chars(l);
    let mut out: Vec<StyledLine> = Vec::new();
    if t.len() == 0 {
        out.push(empty_line());
        assert(lines_view(out@) =~= userinfo_line_v(l@));
        return out;
    }
    let n = icon_len_of(&t);
    let rest = trim_chars(&slice_chars(&t, n, t.len()));
    assert(t@.subrange(n as int, t@.len() as int) =~= t@.skip(n as int));
    let profile = starts(l, "  ") && (t[0] as u32) >= 128 && has(&rest, ":");
    if is_all_rule(&t) {
        out.push(sep_line());
    } else if chars_eq(&t, &chars_of("GitHub User Info")) {
        out.push(header_line(&chars_of("  GitHub User Info")));
        out.push(sep_line());
    } else if profile {
        let (k0, v) = split_first(&rest, &chars_of(":"));
        let k = trim_chars(&k0);
        let v = match v {
            Some(v) => trim_chars(&v),
            None => Vec::new(),
        };
        let icon = slice_chars(&t, 0, n);
        assert(icon@ =~= t@.take(n as int));
        let mut head = cat("  ", &icon);
        append_chars(&mut head, &chars_of(" "));
        let mut kc = copy_of(&k);
        append_chars(&mut kc, &chars_of(":"));
        out.push(
            line3(
                span(&head, Rgb { r: 200, g: 210, b: 255 }, false),
                span(&pad_chars(&kc, 16), label_rgb(), false),
                span(&v, profile_rgb(&k), true),
            ),
        );
    } else if starts(&t, "💬") || starts(&t, "Bio:") {
        out.push(empty_line());
        out.push(line1(lit_span("  Bio", label_rgb(), true)));
    } else if starts(l, "     ") {
        out.push(line1(span(&cat("    ", &t), value_rgb(), false)));
    } else {
        out.push(body_line(l));
    }
    assert(lines_view(out@) =~= userinfo_line_v(l@));
    out
}

// ── any other page ──────────────────────────────────────────────────────────
/// Whether every character of `s` is a single or double horizontal line.
pub open spec fn all_rules(s: Seq<char>) -> bool {
    forall|i: int| 0 <= i < s.len() ==> s[i] == '─' || s[i] == '═'
}

fn is_all_rules(s: &Vec<char>) -> (b: bool)
    ensures
        b == all_rules(s@),
{
    let mut i: usize = 0;
    while i < s.len()
        invariant
            i <= s.len(),
            forall|j: int| 0 <= j < i ==> s@[j] == '─' || s@[j] == '═',
        decreases s.len() - i,
    {
        if s[i] != '─' && s[i] != '═' {
            return false;
        }
        i += 1;
    }
    true
}

/// Colour of the value of a `key: value` row of a report.
pub open spec fn generic_value_c(v: Seq<char>) -> Rgb {
    if has_seq(v, "✅"@) || v == "Yes"@ {
        green_c()
    } else if has_seq(v, "⚠"@) || has_seq(v, "No"@) {
        yellow_c()
    } else if has_seq(v, "❌"@) {
        red_c()
    } else {
        value_c()
    }
}

/// Colour of a bullet or status line.
pub open spec fn mark_c(t: Seq<char>) -> Rgb {
    if starts_with_seq(t, "✅"@) {
        green_c()
    } else if starts_with_seq(t, "⚠"@) {
        yellow_c()
    } else if starts_with_seq(t, "❌"@) {
        red_c()
    } else {
        body_c()
    }
}

/// The lines that one line `l` of a report with no layout of its own becomes.
pub open spec fn generic_line_v(l: Seq<char>) -> Seq<LineV> {
    let t = trim_seq(l);
    let emoji = t.len() > 0 && (t[0] as u32) >= 128;
    if t.len() == 0 {
        seq![empty_v()]
    } else if all_rules(t) {
        seq![sep_v()]
    } else if !starts_with_seq(l, " "@) && !emoji {
        seq![header_v("  "@ + t)]
    } else if (starts_with_seq(l, "  "@) || starts_with_seq(l, "   "@)) && has_seq(t, ":"@) && !emoji {
        let c = find_seq(t, ":"@);
        let v = trim_seq(t.skip(c + 1));
        seq![
            seq![
                plain_v(indent_of(l)),
                span_v(pad_to(t.take(c + 1), 26) + " "@, label_c(), false),
                span_v(v, generic_value_c(v), true),
            ],
        ]
    } else if emoji {
        let n = icon_len(t);
        let rest = trim_start_seq(t.skip(n));
        if has_seq(rest, ":"@) {
            let c = find_seq(rest, ":"@);
            seq![
                seq![
                    plain_v(indent_of(l)),
                    span_v(t.take(n) + " "@, value_c(), false),
                    span_v(rest.take(c) + ": "@, label_c(), false),
                    span_v(trim_seq(rest.skip(c + 1)), value_c(), true),
                ],
            ]
        } else {
            seq![
                seq![
                    plain_v(indent_of(l)),
                    span_v(t.take(n) + " "@, value_c(), false),
                    span_v(rest, value_c(), false),
                ],
            ]
        }
    } else if starts_with_seq(t, "•"@) || starts_with_seq(t, "✅"@) || starts_with_seq(t, "⚠"@)
        || starts_with_seq(t, "❌"@) {
        seq![seq![span_v("  "@ + t, mark_c(t), false)]]
    } else {
        seq![body_v(l)]
    }
}

fn generic_value_rgb(v: &Vec<char>) -> (c: Rgb)
    ensures
        c == generic_value_c(v@),
{
    if has(v, "✅") || chars_eq(v, &chars_of("Yes")) {
        green_rgb()
    } else if has(v, "⚠") || has(v, "No") {
        yellow_rgb()
    } else if has(v, "❌") {
        red_rgb()
    } else {
        value_rgb()
    }
}

fn mark_rgb(t: &Vec<char>) -> (c: Rgb)
    ensures
        c == mark_c(t@),
{
    if starts(t, "✅") {
        green_rgb()
    } else if starts(t, "⚠") {
        yellow_rgb()
    } else if starts(t, "❌") {
        red_rgb()
    } else {
        body_rgb()
    }
}

/// The lines that one line `l` of a report with no layout of its own becomes (see
/// `generic_line_v`).
pub fn generic_line(l: &Vec<char>) -> (r: Vec<StyledLine>)
    ensures
        lines_view(r@) == generic_line_v(l@),
{
    let t = trim_chars(l);
    let mut out: Vec<StyledLine> = Vec::new();
    let emoji = t.len() > 0 && (t[0] as u32) >= 128;
    if t.len() == 0 {
        out.push(empty_line());
    } else if is_all_rules(&t) {
        out.push(sep_line());
    } else if !starts(l, " ") && !emoji {
        out.push(header_line(&cat("  ", &t)));
    } else if (starts(l, "  ") || starts(l, "   ")) && has(&t, ":") && !emoji {
        let c = match find_chars(&t, &chars_of(":")) {
            Some(c) => c,
            None => 0,
        };
        proof {
            lemma_find_seq_props(t@, ":"@);
            reveal_strlit(":");
        }
        let k = slice_chars(&t, 0, c + 1);
        let v = trim_chars(&slice_chars(&t, c + 1, t.len()));
        assert(k@ =~= t@.take(c + 1));
        assert(t@.subrange(c + 1, t@.len() as int) =~= t@.skip(c + 1));
        let mut kc = pad_chars(&k, 26);
        append_chars(&mut kc, &chars_of(" "));
        let spans: Vec<StyledSpan> = vec![
            StyledSpan { text: string_of(&indent_chars(l)), fg: None, bold: false, underlined: false, bg: None, crossed_out: false },
            span(&kc, label_rgb(), false),
            span(&v, generic_value_rgb(&v), true),
        ];
        assert(spans_view(spans@) =~= seq![spans@[0]@, spans@[1]@, spans@[2]@]);
        out.push(line_of(spans));
        assert(lines_view(out@) =~= generic_line_v(l@));
    } else if emoji {
        let n = icon_len_of(&t);
        let icon = slice_chars(&t, 0, n);
        let rest = trim_start_chars(&slice_chars(&t, n, t.len()));
        assert(icon@ =~= t@.take(n as int));
        assert(t@.subrange(n as int, t@.len() as int) =~= t@.skip(n as int));
        let mut ic = copy_of(&icon);
        append_chars(&mut ic, &chars_of(" "));
        let indent = StyledSpan {
            text: string_of(&indent_chars(l)),
            fg: None,
            bold: false,
            underlined: false,
            bg: None,
            crossed_out: false,
        };
        let colon = chars_of(":");
        proof {
            lemma_find_seq_props(rest@, ":"@);
            reveal_strlit(":");
        }
        match find_chars(&rest, &colon) {
            Some(c) => {
                assert(occurs_at(rest@, ":"@, c as int));
                assert(":"@.len() == 1);
                assert(c + 1 <= rest.len());
                let mut k = slice_chars(&rest, 0, c);
                append_chars(&mut k, &chars_of(": "));
                let v = trim_chars(&slice_chars(&rest, c + 1, rest.len()));
                assert(rest@.subrange(0, c as int) =~= rest@.take(c as int));
                assert(rest@.subrange(c + 1, rest@.len() as int) =~= rest@.skip(c + 1));
                let spans: Vec<StyledSpan> = vec![
                    indent,
                    span(&ic, value_rgb(), false),
                    span(&k, label_rgb(), false),
                    span(&v, value_rgb(), true),
                ];
                assert(spans_view(spans@) =~= seq![spans@[0]@, spans@[1]@, spans@[2]@, spans@[3]@]);
                out.push(line_of(spans));
                assert(lines_view(out@) =~= generic_line_v(l@));
            },
            None => {
                let spans: Vec<StyledSpan> = vec![
                    indent,
                    span(&ic, value_rgb(), false),
                    span(&rest, value_rgb(), false),
                ];
                assert(spans_view(spans@) =~= seq![spans@[0]@, spans@[1]@, spans@[2]@]);
                out.push(line_of(spans));
            },
        }
    } else if starts(&t, "•") || starts(&t, "✅") || starts(&t, "⚠") || starts(&t, "❌") {
        out.push(line1(span(&cat("  ", &t), mark_rgb(&t), false)));
    } else {
        out.push(body_line(l));
    }
    assert(lines_view(out@) =~= generic_line_v(l@));
    out
}

// ── branches ────────────────────────────────────────────────────────────────
/// `s` without the copies of `c` at its end, as `trim_end_matches(c)`.
pub open spec fn trim_end_char(s: Seq<char>, c: char) -> Seq<char>
    decreases s.len(),
{
    if s.len() > 0 && s.last() == c {
        trim_end_char(s.drop_last(), c)
    } else {
        s
    }
}

fn trim_end_char_of(s: &Vec<char>, c: char) -> (r: Vec<char>)
    ensures
        r@ == trim_end_char(s@, c),
{
    let mut k: usize = s.len();
    assert(s@.take(k as int) =~= s@);
    while k > 0 && s[k - 1] == c
        invariant
            k <= s.len(),
            trim_end_char(s@, c) == trim_end_char(s@.take(k as int), c),
        decreases k,
    {
        assert(s@.take(k as int).drop_last() =~= s@.take(k - 1));
        k -= 1;
    }
    let r = slice_chars(s, 0, k);
    assert(r@ =~= s@.take(k as int));
    r
}

/// The row of one `key: value` field of a branch; none where the piece holds no colon.
pub open spec fn branch_field_v(part: Seq<char>) -> Seq<LineV> {
    let p = trim_seq(part);
    if has_seq(p, ":"@) {
        let k = trim_seq(before_seq(p, ":"@));
        let commit = k == "Commit"@;
        seq![
            seq![
                span_v("     "@ + pad_to(k + ":"@, 16), label_c(), false),
                span_v(if commit { "#"@ } else { ""@ }, dim_c(), false),
                span_v(trim_seq(after_seq(p, ":"@)), if commit { purple_c() } else { teal_c() }, false),
            ],
        ]
    } else {
        Seq::empty()
    }
}

/// The rows of the fields of a branch's commit line, cut at double spaces.
pub open spec fn branch_fields_v(parts: Seq<Seq<char>>) -> Seq<LineV>
    decreases parts.len(),
{
    if parts.len() == 0 {
        Seq::empty()
    } else {
        branch_fields_v(parts.drop_last()) + branch_field_v(parts.last())
    }
}

/// The lines that one line `l` of a branches report becomes.
pub open spec fn branches_line_v(l: Seq<char>) -> Seq<LineV> {
    let t = trim_seq(l);
    if t.len() == 0 {
        seq![empty_v()]
    } else if all_rule(t) {
        seq![sep_v()]
    } else if starts_with_seq(t, "Branches"@) {
        let repo = before_seq(after_seq(t, " — "@), " — "@);
        let name = if has_seq(repo, " (Total:"@) {
            trim_seq(before_seq(repo, " (Total:"@))
        } else {
            repo
        };
        let total = if has_seq(repo, " (Total:"@) {
            trim_seq(
                trim_end_char(
                    trim_start_matches_seq(repo.skip(find_seq(repo, " (Total:"@)), " (Total:"@),
                    ')',
                ),
            )
        } else {
            Seq::empty()
        };
        seq![header_v("  Branches"@)] + (if has_seq(t, " — "@) {
            seq![
                seq![
                    span_v("  📦 "@, teal_c(), false),
                    span_v(name, value_c(), false),
                    span_v("  ("@ + total + " branches)"@, label_c(), false),
                ],
            ]
        } else {
            Seq::empty()
        }) + seq![sep_v()]
    } else if starts_with_seq(t, "🌿"@) {
        seq![
            empty_v(),
            seq![
                span_v("  🌿 "@, green_c(), false),
                span_v(trim_seq(trim_start_matches_seq(t, "🌿"@)), header_c(), true),
            ],
        ]
    } else if starts_with_seq(l, "   "@) && has_seq(t, "Commit:"@) {
        branch_fields_v(split_str_seq(t, "  "@))
    } else if starts_with_seq(l, "   "@) && starts_with_seq(t, "Author:"@) {
        seq![
            seq![
                span_v("     Author:          "@, label_c(), false),
                span_v(trim_seq(trim_start_matches_seq(t, "Author:"@)), value_c(), false),
            ],
        ]
    } else {
        seq![body_v(l)]
    }
}

fn branch_fields(t: &Vec<char>) -> (r: Vec<StyledLine>)
    ensures
        lines_view(r@) == branch_fields_v(split_str_seq(t@, "  "@)),
{
    let sp = chars_of("  ");
    proof {
        reveal_strlit("  ");
    }
    let parts = split_str_chars(t, &sp);
    let ghost pv = parts@.map_values(|p: Vec<char>| p@);
    let mut out: Vec<StyledLine> = Vec::new();
    let mut i: usize = 0;
    assert(pv.take(0) =~= Seq::<Seq<char>>::empty());
    assert(lines_view(out@) =~= branch_fields_v(pv.take(0)));
    while i < parts.len()
        invariant
            i <= parts.len(),
            pv == parts@.map_values(|p: Vec<char>| p@),
            lines_view(out@) == branch_fields_v(pv.take(i as int)),
        decreases parts.len() - i,
    {
        assert(pv.take(i + 1).drop_last() =~= pv.take(i as int));
        assert(pv[i as int] == parts@[i as int]@);
        let p = trim_chars(&parts[i]);
        let (k0, v) = split_first(&p, &chars_of(":"));
        let ghost before = out@;
        match v {
            Some(v) => {
                let k = trim_chars(&k0);
                let commit = chars_eq(&k, &chars_of("Commit"));
                let mut kc = copy_of(&k);
                append_chars(&mut kc, &chars_of(":"));
                let l = line3(
                    span(&cat("     ", &pad_chars(&kc, 16)), label_rgb(), false),
                    lit_span(
                        if commit {
                            "#"
                        } else {
                            ""
                        },
                        dim_rgb(),
                        false,
                    ),
                    span(
                        &trim_chars(&v),
                        if commit {
                            purple_rgb()
                        } else {
                            teal_rgb()
                        },
                        false,
                    ),
                );
                out.push(l);
                assert(lines_view(out@) =~= lines_view(before) + seq![l@]);
            },
            None => {
                assert(lines_view(out@) =~= lines_view(before) + Seq::<LineV>::empty());
            },
        }
        i += 1;
    }
    assert(pv.take(parts.len() as int) =~= pv);
    out
}

/// The lines that one line `l` of a branches report becomes (see `branches_line_v`).
pub fn branches_line(l: &Vec<char>) -> (r: Vec<StyledLine>)
    ensures
        lines_view(r@) == branches_line_v(l@),
{
    let t = trim_chars(l);
    let mut out: Vec<StyledLine> = Vec::new();
    if t.len() == 0 {
        out.push(empty_line());
    } else if is_all_rule(&t) {
        out.push(sep_line());
    } else if starts(&t, "Branches") {
        out.push(header_line(&chars_of("  Branches")));
        let (_, after) = split_first(&t, &chars_of(" — "));
        match after {
            Some(a) => {
                let repo = split_first(&a, &chars_of(" — ")).0;
                let (n, _) = split_first(&repo, &chars_of(" (Total:"));
                let (name, total) = match from_first(&repo, " (Total:") {
                    Some(rest) => (
                        trim_chars(&n),
                        trim_chars(&trim_end_char_of(&strip(&rest, " (Total:"), ')')),
                    ),
                    None => (copy_of(&repo), Vec::new()),
                };
                let mut tail = cat("  (", &total);
                append_chars(&mut tail, &chars_of(" branches)"));
                out.push(
                    line3(
                        lit_span("  📦 ", teal_rgb(), false),
                        span(&name, value_rgb(), false),
                        span(&tail, label_rgb(), false),
                    ),
                );
            },
            None => {},
        }
        out.push(sep_line());
    } else if starts(&t, "🌿") {
        out.push(empty_line());
        out.push(
            line2(
                lit_span("  🌿 ", green_rgb(), false),
                span(&trim_chars(&strip(&t, "🌿")), header_rgb(), true),
            ),
        );
    } else if starts(l, "   ") && has(&t, "Commit:") {
        out = branch_fields(&t);
    } else if starts(l, "   ") && starts(&t, "Author:") {
        out.push(
            line2(
                lit_span("     Author:          ", label_rgb(), false),
                span(&trim_chars(&strip(&t, "Author:")), value_rgb(), false),
            ),
        );
    } else {
        out.push(body_line(l));
    }
    assert(lines_view(out@) =~= branches_line_v(l@));
    out
}

// ── issues ──────────────────────────────────────────────────────────────────
/// Colour of the value of a field of an issue.
pub open spec fn issue_field_c(k: Seq<char>, v: Seq<char>) -> Rgb {
    if k == "State"@ {
        if v == "OPEN"@ {
            green_c()
        } else {
            label_c()
        }
    } else if k == "Created"@ {
        teal_c()
    } else if k == "Author"@ {
        blue_c()
    } else {
        value_c()
    }
}

/// The row of one `key: value` field of an issue; none where the piece holds no colon.
pub open spec fn issue_field_v(part: Seq<char>) -> Seq<LineV> {
    let p = trim_seq(part);
    if has_seq(p, ":"@) {
        let k = trim_seq(before_seq(p, ":"@));
        let v = trim_seq(after_seq(p, ":"@));
        seq![
            seq![
                span_v("     "@ + pad_to(k + ":"@, 10), label_c(), false),
                span_v(v, issue_field_c(k, v), false),
            ],
        ]
    } else {
        Seq::empty()
    }
}

/// The rows of the fields of an issue's status line, cut at double spaces.
pub open spec fn issue_fields_v(parts: Seq<Seq<char>>) -> Seq<LineV>
    decreases parts.len(),
{
    if parts.len() == 0 {
        Seq::empty()
    } else {
        issue_fields_v(parts.drop_last()) + issue_field_v(parts.last())
    }
}

/// The lines that one line `l` of an issues report becomes.
pub open spec fn issues_line_v(l: Seq<char>) -> Seq<LineV> {
    let t = trim_seq(l);
    if t.len() == 0 {
        seq![empty_v()]
    } else if all_rule(t) {
        seq![sep_v()]
    } else if starts_with_seq(t, "Open Issues"@) {
        let n = if has_seq(t, "Total: "@) {
            after_seq(t, "Total: "@)
        } else {
            "0"@
        };
        seq![
            header_v("  Issues"@),
            seq![span_v("  Total open  "@, label_c(), false), span_v(n, yellow_c(), true)],
            sep_v(),
        ]
    } else if starts_with_seq(t, "📝"@) {
        let rest = trim_seq(trim_start_matches_seq(t, "📝"@));
        let num = if has_seq(rest, " — "@) {
            trim_seq(before_seq(rest, " — "@))
        } else {
            rest
        };
        let title = if has_seq(rest, " — "@) {
            trim_seq(after_seq(rest, " — "@))
        } else {
            Seq::empty()
        };
        seq![
            empty_v(),
            seq![
                span_v("  📝 "@, yellow_c(), false),
                span_v(num, label_c(), false),
                plain_v("  "@),
                span_v(title, header_c(), true),
            ],
        ]
    } else if starts_with_seq(l, "   "@) && (starts_with_seq(t, "State:"@) || has_seq(t, "Created:"@)
        || has_seq(t, "Author:"@)) {
        issue_fields_v(split_str_seq(t, "  "@))
    } else if starts_with_seq(t, "🔗"@) {
        seq![
            seq![
                span_v("     🔗 "@, dim_c(), false),
                (trim_seq(trim_start_matches_seq(t, "🔗"@)), Some(blue_c()), false, true, None, false),
            ],
        ]
    } else {
        seq![body_v(l)]
    }
}

fn issue_field_rgb(k: &Vec<char>, v: &Vec<char>) -> (c: Rgb)
    ensures
        c == issue_field_c(k@, v@),
{
    if chars_eq(k, &chars_of("State")) {
        if chars_eq(v, &chars_of("OPEN")) {
            green_rgb()
        } else {
            label_rgb()
        }
    } else if chars_eq(k, &chars_of("Created")) {
        teal_rgb()
    } else if chars_eq(k, &chars_of("Author")) {
        blue_rgb()
    } else {
        value_rgb()
    }
}

fn issue_fields(t: &Vec<char>) -> (r: Vec<StyledLine>)
    ensures
        lines_view(r@) == issue_fields_v(split_str_seq(t@, "  "@)),
{
    let sp = chars_of("  ");
    proof {
        reveal_strlit("  ");
    }
    let parts = split_str_chars(t, &sp);
    let ghost pv = parts@.map_values(|p: Vec<char>| p@);
    let mut out: Vec<StyledLine> = Vec::new();
    let mut i: usize = 0;
    assert(pv.take(0) =~= Seq::<Seq<char>>::empty());
    assert(lines_view(out@) =~= issue_fields_v(pv.take(0)));
    while i < parts.len()
        invariant
            i <= parts.len(),
            pv == parts@.map_values(|p: Vec<char>| p@),
            lines_view(out@) == issue_fields_v(pv.take(i as int)),
        decreases parts.len() - i,
    {
        assert(pv.take(i + 1).drop_last() =~= pv.take(i as int));
        assert(pv[i as int] == parts@[i as int]@);
        let p = trim_chars(&parts[i]);
        let (k0, v) = split_first(&p, &chars_of(":"));
        let ghost before = out@;
        match v {
            Some(v) => {
                let k = trim_chars(&k0);
                let v = trim_chars(&v);
                let mut kc = copy_of(&k);
                append_chars(&mut kc, &chars_of(":"));
                let l = line2(
                    span(&cat("     ", &pad_chars(&kc, 10)), label_rgb(), false),
                    span(&v, issue_field_rgb(&k, &v), false),
                );
                out.push(l);
                assert(lines_view(out@) =~= lines_view(before) + seq![l@]);
            },
            None => {
                assert(lines_view(out@) =~= lines_view(before) + Seq::<LineV>::empty());
            },
        }
        i += 1;
    }
    assert(pv.take(parts.len() as int) =~= pv);
    out
}

/// The lines that one line `l` of an issues report becomes (see `issues_line_v`).
pub fn issues_line(l: &Vec<char>) -> (r: Vec<StyledLine>)
    ensures
        lines_view(r@) == issues_line_v(l@),
{
    let t = trim_chars(l);
    let mut out: Vec<StyledLine> = Vec::new();
    if t.len() == 0 {
        out.push(empty_line());
    } else if is_all_rule(&t) {
        out.push(sep_line());
    } else if starts(&t, "Open Issues") {
        let n = match split_first(&t, &chars_of("Total: ")).1 {
            Some(n) => n,
            None => chars_of("0"),
        };
        out.push(header_line(&chars_of("  Issues")));
        out.push(line2(lit_span("  Total open  ", label_rgb(), false), span(&n, yellow_rgb(), true)));
        out.push(sep_line());
    } else if starts(&t, "📝") {
        let rest = trim_chars(&strip(&t, "📝"));
        let (n, ti) = split_first(&rest, &chars_of(" — "));
        let (num, title) = match ti {
            Some(ti) => (trim_chars(&n), trim_chars(&ti)),
            None => (rest, Vec::new()),
        };
        out.push(empty_line());
        out.push(
            line4(
                lit_span("  📝 ", yellow_rgb(), false),
                span(&num, label_rgb(), false),
                plain_span("  "),
                span(&title, header_rgb(), true),
            ),
        );
    } else if starts(l, "   ") && (starts(&t, "State:") || has(&t, "Created:") || has(&t, "Author:")) {
        out = issue_fields(&t);
    } else if starts(&t, "🔗") {
        let url = trim_chars(&strip(&t, "🔗"));
        out.push(
            line2(
                lit_span("     🔗 ", dim_rgb(), false),
                StyledSpan { text: string_of(&url), fg: Some(blue_rgb()), bold: false, underlined: true, bg: None, crossed_out: false },
            ),
        );
    } else {
        out.push(body_line(l));
    }
    assert(lines_view(out@) =~= issues_line_v(l@));
    out
}

// ── Choosing the layout of a page ───────────────────────────────────────────
/// How the text of a page is laid out.
#[derive(Debug, Clone, Copy, PartialEq, Eq, Structural)]
pub enum PageLayout {
    Activity,
    Commits,
    PullRequests,
    MultiSync,
    Push,
    Branches,
    Issues,
    UserInfo,
    Generic,
}

/// The layout of the page a command's result is shown on.
pub open spec fn layout_for(cmd: Seq<char>) -> PageLayout {
    if cmd == "show-activity"@ {
        PageLayout::Activity
    } else if cmd == "commits"@ {
        PageLayout::Commits
    } else if cmd == "pull-requests"@ {
        PageLayout::PullRequests
    } else if cmd == "multi-sync"@ {
        PageLayout::MultiSync
    } else if cmd == "push-check"@ || cmd == "push-verify"@ {
        PageLayout::Push
    } else if cmd == "branches"@ {
        PageLayout::Branches
    } else if cmd == "issues"@ {
        PageLayout::Issues
    } else if cmd == "user-info"@ {
        PageLayout::UserInfo
    } else {
        PageLayout::Generic
    }
}

/// The layout of the page a command's result is shown on (see `layout_for`).
pub fn page_layout(cmd: &str) -> (k: PageLayout)
    ensures
        k == layout_for(cmd@),
{
    let c = chars_of(cmd);
    if chars_eq(&c, &chars_of("show-activity")) {
        PageLayout::Activity
    } else if chars_eq(&c, &chars_of("commits")) {
        PageLayout::Commits
    } else if chars_eq(&c, &chars_of("pull-requests")) {
        PageLayout::PullRequests
    } else if chars_eq(&c, &chars_of("multi-sync")) {
        PageLayout::MultiSync
    } else if chars_eq(&c, &chars_of("push-check")) || chars_eq(&c, &chars_of("push-verify")) {
        PageLayout::Push
    } else if chars_eq(&c, &chars_of("branches")) {
        PageLayout::Branches
    } else if chars_eq(&c, &chars_of("issues")) {
        PageLayout::Issues
    } else if chars_eq(&c, &chars_of("user-info")) {
        PageLayout::UserInfo
    } else {
        PageLayout::Generic
    }
}

/// The lines that one line of a report becomes in a layout that reads each line
/// on its own.
pub open spec fn layout_line_v(k: PageLayout, l: Seq<char>) -> Seq<LineV> {
    match k {
        PageLayout::Commits => commits_line_v(l),
        PageLayout::PullRequests => prs_line_v(l),
        PageLayout::MultiSync => multisync_line_v(l),
        PageLayout::Push => push_line_v(l),
        PageLayout::Branches => branches_line_v(l),
        PageLayout::Issues => issues_line_v(l),
        PageLayout::UserInfo => userinfo_line_v(l),
        _ => generic_line_v(l),
    }
}

/// The lines that the lines `ls` of a report become, one after the other.
pub open spec fn layout_body(k: PageLayout, ls: Seq<Seq<char>>) -> Seq<LineV>
    decreases ls.len(),
{
    if ls.len() == 0 {
        Seq::empty()
    } else {
        layout_body(k, ls.drop_last()) + layout_line_v(k, ls.last())
    }
}

/// The page a report is shown as in layout `k`: its lines between two empty lines.
pub open spec fn page_v(k: PageLayout, content: Seq<char>) -> Seq<LineV> {
    if k == PageLayout::Activity {
        activity_page(content)
    } else {
        framed(layout_body(k, raw_lines(content)))
    }
}

fn layout_line(k: PageLayout, l: &Vec<char>) -> (r: Vec<StyledLine>)
    ensures
        lines_view(r@) == layout_line_v(k, l@),
{
    match k {
        PageLayout::Commits => commits_line(l),
        PageLayout::PullRequests => prs_line(l),
        PageLayout::MultiSync => multisync_line(l),
        PageLayout::Push => push_line(l),
        PageLayout::Branches => branches_line(l),
        PageLayout::Issues => issues_line(l),
        PageLayout::UserInfo => userinfo_line(l),
        _ => generic_line(l),
    }
}

/// Lays out a report for its page in layout `k` (see `page_v`).
pub fn build_page_lines(k: PageLayout, content: &str) -> (r: Vec<StyledLine>)
    ensures
        lines_view(r@) == page_v(k, content@),
{
    if k == PageLayout::Activity {
        return build_activity_lines(content);
    }
    let ls = raw_lines_of(content);
    let ghost lv = ls@.map_values(|l: Vec<char>| l@);
    let mut out: Vec<StyledLine> = vec![empty_line()];
    let mut i: usize = 0;
    assert(lv.take(0) =~= Seq::<Seq<char>>::empty());
    assert(lines_view(out@) =~= seq![empty_v()] + layout_body(k, lv.take(0)));
    while i < ls.len()
        invariant
            i <= ls.len(),
            lv == ls@.map_values(|l: Vec<char>| l@),
            lines_view(out@) == seq![empty_v()] + layout_body(k, lv.take(i as int)),
        decreases ls.len() - i,
    {
        assert(lv.take(i + 1).drop_last() =~= lv.take(i as int));
        assert(lv[i as int] == ls@[i as int]@);
        let more = layout_line(k, &ls[i]);
        append_lines(&mut out, more);
        i += 1;
    }
    assert(lv.take(ls.len() as int) =~= lv);
    out.push(empty_line());
    assert(lines_view(out@) =~= page_v(k, content@));
    out
}

/// Lays out the result of command `cmd` for the page it is shown on.
pub fn build_overlay_lines(cmd: &str, content: &str) -> (r: Vec<StyledLine>)
    ensures
        lines_view(r@) == page_v(layout_for(cmd@), content@),
{
    build_page_lines(page_layout(cmd), content)
}

/// Lays out a push check or push verification report for its page.
pub fn build_push_lines(content: &str) -> (r: Vec<StyledLine>)
    ensures
        lines_view(r@) == page_v(PageLayout::Push, content@),
{
    build_page_lines(PageLayout::Push, content)
}

/// Lays out a commits report for its page.
pub fn build_commits_lines(content: &str) -> (r: Vec<StyledLine>)
    ensures
        lines_view(r@) == page_v(PageLayout::Commits, content@),
{
    build_page_lines(PageLayout::Commits, content)
}

/// Lays out a pull request report for its page.
pub fn build_prs_lines(content: &str) -> (r: Vec<StyledLine>)
    ensures
        lines_view(r@) == page_v(PageLayout::PullRequests, content@),
{
    build_page_lines(PageLayout::PullRequests, content)
}

/// Lays out a multi-repository sync report for its page.
pub fn build_multisync_lines(content: &str) -> (r: Vec<StyledLine>)
    ensures
        lines_view(r@) == page_v(PageLayout::MultiSync, content@),
{
    build_page_lines(PageLayout::MultiSync, content)
}

/// Lays out a branches report for its page.
pub fn build_branches_lines(content: &str) -> (r: Vec<StyledLine>)
    ensures
        lines_view(r@) == page_v(PageLayout::Branches, content@),
{
    build_page_lines(PageLayout::Branches, content)
}

/// Lays out an issues report for its page.
pub fn build_issues_lines(content: &str) -> (r: Vec<StyledLine>)
    ensures
        lines_view(r@) == page_v(PageLayout::Issues, content@),
{
    build_page_lines(PageLayout::Issues, content)
}

/// Lays out a user profile for its page.
pub fn build_userinfo_lines(content: &str) -> (r: Vec<StyledLine>)
    ensures
        lines_view(r@) == page_v(PageLayout::UserInfo, content@),
{
    build_page_lines(PageLayout::UserInfo, content)
}

/// Lays out a report with no layout of its own for its page.
pub fn build_generic_lines(content: &str) -> (r: Vec<StyledLine>)
    ensures
        lines_view(r@) == page_v(PageLayout::Generic, content@),
{
    build_page_lines(PageLayout::Generic, content)
}

/// Lays out a repository sync report for its page.
pub fn build_reposync_lines(content: &str) -> (r: Vec<StyledLine>)
    ensures
        lines_view(r@) == page_v(PageLayout::Generic, content@),
{
    build_page_lines(PageLayout::Generic, content)
}

// ── Help and PRP pages ──────────────────────────────────────────────────────
/// The two lines of one command on the help page: the command and its description,
/// then an empty line.
pub open spec fn help_entry_v(e: (Seq<char>, Seq<char>)) -> Seq<LineV> {
    seq![
        seq![
            span_v("  "@ + pad_to(e.0, 20), Rgb { r: 100, g: 149, b: 237 }, true),
            span_v(e.1, Rgb { r: 170, g: 175, b: 195 }, false),
        ],
        empty_v(),
    ]
}

/// The keys line at the foot of the help page.
pub open spec fn help_keys_v() -> LineV {
    let key = Rgb { r: 100, g: 149, b: 237 };
    let what = Rgb { r: 130, g: 135, b: 155 };
    seq![
        span_v("  ↑↓ "@, key, false),
        span_v("navigate suggestions   "@, what, false),
        span_v("Tab "@, key, false),
        span_v("autocomplete   "@, what, false),
        span_v("Ctrl+C "@, key, false),
        span_v("quit"@, what, false),
    ]
}

/// The help page: its title, each command with its description, and the keys.
pub open spec fn help_page_v() -> Seq<LineV> {
    seq![empty_v(), seq![span_v("  Available Commands"@, Rgb { r: 200, g: 210, b: 255 }, true)], empty_v()]
        + help_entry_v(("/auth"@, "Manage GitHub authentication — login / logout / status"@))
        + help_entry_v(("/scan"@, "Scan working directory for secrets (interactive overlay)"@))
        + help_entry_v(("/scan history"@, "Scan git history for exposed secrets"@))
        + help_entry_v(("/scan ignored"@, "Manage permanently ignored findings"@))
        + help_entry_v(("/plan"@, "Open the task planner overlay"@))
        + help_entry_v(("/prp"@, "Start an interactive poly-repo commit session"@))
        + help_entry_v(("/prp list"@, "View PRP session groups"@))
        + help_entry_v(("/show-activity"@, "Show your GitHub contribution activity"@))
        + help_entry_v(("/commits"@, "Show recent commits"@))
        + help_entry_v(("/pull-requests"@, "Show open pull requests"@))
        + help_entry_v(("/repo-sync"@, "Select a repository and check sync status"@))
        + help_entry_v(("/multi-sync"@, "Check sync across multiple repositories"@))
        + help_entry_v(("/push-check"@, "Check if latest commit is pushed to remote"@))
        + help_entry_v(("/push-verify"@, "Verify if pushing is currently possible"@))
        + help_entry_v(("/branches"@, "Show local and remote branches"@))
        + help_entry_v(("/issues"@, "Show issues and GitHub Actions status"@))
        + help_entry_v(("/user-info"@, "Show basic GitHub user info"@))
        + help_entry_v(("/clear"@, "Clear the output history"@))
        + help_entry_v(("/quit"@, "Exit GitLink TUI"@))
        + seq![empty_v(), help_keys_v()]
}

fn help_entry(out: &mut Vec<StyledLine>, cmd: &str, desc: &str)
    ensures
        lines_view(final(out)@) == lines_view(old(out)@) + help_entry_v((cmd@, desc@)),
{
    let l = line2(
        span(&cat("  ", &pad_chars(&chars_of(cmd), 20)), Rgb { r: 100, g: 149, b: 237 }, true),
        lit_span(desc, Rgb { r: 170, g: 175, b: 195 }, false),
    );
    out.push(l);
    out.push(empty_line());
    assert(lines_view(out@) =~= lines_view(old(out)@) + help_entry_v((cmd@, desc@)));
}

/// The lines of the help page (see `help_page_v`).
pub fn build_help_lines() -> (r: Vec<StyledLine>)
    ensures
        lines_view(r@) == help_page_v(),
{
    let mut out: Vec<StyledLine> = Vec::new();
    out.push(empty_line());
    out.push(line1(lit_span("  Available Commands", Rgb { r: 200, g: 210, b: 255 }, true)));
    out.push(empty_line());
    assert(lines_view(out@) =~= seq![
        empty_v(),
        seq![span_v("  Available Commands"@, Rgb { r: 200, g: 210, b: 255 }, true)],
        empty_v(),
    ]);
    help_entry(&mut out, "/auth", "Manage GitHub authentication — login / logout / status");
    help_entry(&mut out, "/scan", "Scan working directory for secrets (interactive overlay)");
    help_entry(&mut out, "/scan history", "Scan git history for exposed secrets");
    help_entry(&mut out, "/scan ignored", "Manage permanently ignored findings");
    help_entry(&mut out, "/plan", "Open the task planner overlay");
    help_entry(&mut out, "/prp", "Start an interactive poly-repo commit session");
    help_entry(&mut out, "/prp list", "View PRP session groups");
    help_entry(&mut out, "/show-activity", "Show your GitHub contribution activity");
    help_entry(&mut out, "/commits", "Show recent commits");
    help_entry(&mut out, "/pull-requests", "Show open pull requests");
    help_entry(&mut out, "/repo-sync", "Select a repository and check sync status");
    help_entry(&mut out, "/multi-sync", "Check sync across multiple repositories");
    help_entry(&mut out, "/push-check", "Check if latest commit is pushed to remote");
    help_entry(&mut out, "/push-verify", "Verify if pushing is currently possible");
    help_entry(&mut out, "/branches", "Show local and remote branches");
    help_entry(&mut out, "/issues", "Show issues and GitHub Actions status");
    help_entry(&mut out, "/user-info", "Show basic GitHub user info");
    help_entry(&mut out, "/clear", "Clear the output history");
    help_entry(&mut out, "/quit", "Exit GitLink TUI");
    let ghost mid = lines_view(out@);
    out.push(empty_line());
    let key = Rgb { r: 100, g: 149, b: 237 };
    let what = Rgb { r: 130, g: 135, b: 155 };
    let spans: Vec<StyledSpan> = vec![
        lit_span("  ↑↓ ", key, false),
        lit_span("navigate suggestions   ", what, false),
        lit_span("Tab ", key, false),
        lit_span("autocomplete   ", what, false),
        lit_span("Ctrl+C ", key, false),
        lit_span("quit", what, false),
    ];
    let keys = line_of(spans);
    assert(keys@ =~= help_keys_v());
    out.push(keys);
    assert(lines_view(out@) =~= mid + seq![empty_v(), help_keys_v()]);
    assert(lines_view(out@) =~= help_page_v());
    out
}

/// The page that tells where PRP session groups are kept.
pub open spec fn prp_list_page_v() -> Seq<LineV> {
    seq![
        empty_v(),
        seq![span_v("  PRP Session Groups"@, Rgb { r: 200, g: 200, b: 220 }, true)],
        empty_v(),
        seq![
            span_v(
                "  Group history is stored in ~/.gitlink/prp_groups.json"@,
                Rgb { r: 150, g: 155, b: 175 },
                false,
            ),
        ],
        empty_v(),
        seq![span_v("  Use /prp to start a new session."@, Rgb { r: 100, g: 149, b: 237 }, false)],
    ]
}

/// The lines of the PRP list page (see `prp_list_page_v`).
pub fn build_prp_list_lines() -> (r: Vec<StyledLine>)
    ensures
        lines_view(r@) == prp_list_page_v(),
{
    let mut out: Vec<StyledLine> = Vec::new();
    out.push(empty_line());
    out.push(line1(lit_span("  PRP Session Groups", Rgb { r: 200, g: 200, b: 220 }, true)));
    out.push(empty_line());
    out.push(
        line1(
            lit_span(
                "  Group history is stored in ~/.gitlink/prp_groups.json",
                Rgb { r: 150, g: 155, b: 175 },
                false,
            ),
        ),
    );
    out.push(empty_line());
    out.push(line1(lit_span("  Use /prp to start a new session.", Rgb { r: 100, g: 149, b: 237 }, false)));
    assert(lines_view(out@) =~= prp_list_page_v());
    out
}

} // verus!
