//! What the planner window shows: its heading, the task list, the detail of the
//! selected task, the task form and the delete prompt, as styled lines.

use vstd::prelude::*;

use crate::planner::task::{Task, TaskView};
use crate::text::{
    append_chars, byte_prefix, lines_chars, lines_seq, chars_of, cut_is_ok, cut_ok, decimal, join_chars, join_seq,
    prefix_bytes, push_str, string_from, string_of, usize_text, utf8_len, utf8_len_at_least,
};
use crate::tui::pages::{empty_v, plain_v, LineV, SpanV};
use crate::tui::planner_overlay::{InputField, PlannerFocus, PlannerMode, PlannerOverlay, PlannerView};
use crate::tui::styled::{lines_view, Rgb, StyledLine, StyledSpan};

verus! {

// ── Colours ─────────────────────────────────────────────────────────────────
pub open spec fn accent_c() -> Rgb {
    Rgb { r: 160, g: 130, b: 255 }
}

pub open spec fn faint_c() -> Rgb {
    Rgb { r: 70, g: 70, b: 90 }
}

pub open spec fn prompt_c() -> Rgb {
    Rgb { r: 100, g: 80, b: 200 }
}

pub open spec fn done_c() -> Rgb {
    Rgb { r: 80, g: 200, b: 120 }
}

pub open spec fn muted_c() -> Rgb {
    Rgb { r: 100, g: 100, b: 130 }
}

pub open spec fn struck_c() -> Rgb {
    Rgb { r: 80, g: 80, b: 100 }
}

pub open spec fn white_c() -> Rgb {
    Rgb { r: 255, g: 255, b: 255 }
}

pub open spec fn black_c() -> Rgb {
    Rgb { r: 0, g: 0, b: 0 }
}

pub open spec fn text_c() -> Rgb {
    Rgb { r: 200, g: 200, b: 215 }
}

pub open spec fn tag_c() -> Rgb {
    Rgb { r: 120, g: 100, b: 200 }
}

pub open spec fn date_c() -> Rgb {
    Rgb { r: 180, g: 180, b: 200 }
}

pub open spec fn badge_c() -> Rgb {
    Rgb { r: 200, g: 180, b: 255 }
}

pub open spec fn badge_bg_c() -> Rgb {
    Rgb { r: 40, g: 30, b: 70 }
}

pub open spec fn id_c() -> Rgb {
    Rgb { r: 50, g: 50, b: 70 }
}

pub open spec fn label_off_c() -> Rgb {
    Rgb { r: 70, g: 60, b: 100 }
}

pub open spec fn text_off_c() -> Rgb {
    Rgb { r: 100, g: 90, b: 130 }
}

pub open spec fn warn_c() -> Rgb {
    Rgb { r: 220, g: 80, b: 80 }
}

pub open spec fn warn_dim_c() -> Rgb {
    Rgb { r: 100, g: 80, b: 80 }
}

pub open spec fn grey_c() -> Rgb {
    Rgb { r: 100, g: 100, b: 120 }
}

pub(crate) fn rgb(r: u8, g: u8, b: u8) -> (c: Rgb)
    ensures
        c == (Rgb { r, g, b }),
{
    Rgb { r, g, b }
}

// ── Spans ───────────────────────────────────────────────────────────────────
/// A span in colour `c`.
pub open spec fn fg_v(text: Seq<char>, c: Rgb) -> SpanV {
    (text, Some(c), false, false, None, false)
}

/// A bold span in colour `c`.
pub open spec fn bold_v(text: Seq<char>, c: Rgb) -> SpanV {
    (text, Some(c), true, false, None, false)
}

pub(crate) fn fg_span(text: &str, c: Rgb) -> (s: StyledSpan)
    ensures
        s@ == fg_v(text@, c),
{
    StyledSpan { text: string_from(text), fg: Some(c), bold: false, underlined: false, bg: None, crossed_out: false }
}

pub(crate) fn fg_span_of(text: String, c: Rgb) -> (s: StyledSpan)
    ensures
        s@ == fg_v(text@, c),
{
    StyledSpan { text, fg: Some(c), bold: false, underlined: false, bg: None, crossed_out: false }
}

pub(crate) fn bold_span(text: &str, c: Rgb) -> (s: StyledSpan)
    ensures
        s@ == bold_v(text@, c),
{
    StyledSpan { text: string_from(text), fg: Some(c), bold: true, underlined: false, bg: None, crossed_out: false }
}

pub(crate) fn bold_span_of(text: String, c: Rgb) -> (s: StyledSpan)
    ensures
        s@ == bold_v(text@, c),
{
    StyledSpan { text, fg: Some(c), bold: true, underlined: false, bg: None, crossed_out: false }
}

pub(crate) fn raw_span(text: &str) -> (s: StyledSpan)
    ensures
        s@ == plain_v(text@),
{
    StyledSpan { text: string_from(text), fg: None, bold: false, underlined: false, bg: None, crossed_out: false }
}

pub(crate) fn line_of(spans: Vec<StyledSpan>) -> (l: StyledLine)
    ensures
        l@ == spans@.map_values(|s: StyledSpan| s@),
{
    StyledLine { spans }
}

pub(crate) fn blank() -> (l: StyledLine)
    ensures
        l@ == empty_v(),
{
    let l = StyledLine { spans: Vec::new() };
    assert(l@ =~= empty_v());
    l
}

pub(crate) fn three(a: StyledSpan, b: StyledSpan, c: StyledSpan) -> (l: StyledLine)
    ensures
        l@ == seq![a@, b@, c@],
{
    let l = StyledLine { spans: vec![a, b, c] };
    assert(l@ =~= seq![a@, b@, c@]);
    l
}

pub(crate) fn four(a: StyledSpan, b: StyledSpan, c: StyledSpan, d: StyledSpan) -> (l: StyledLine)
    ensures
        l@ == seq![a@, b@, c@, d@],
{
    let l = StyledLine { spans: vec![a, b, c, d] };
    assert(l@ =~= seq![a@, b@, c@, d@]);
    l
}

pub(crate) fn two(a: StyledSpan, b: StyledSpan) -> (l: StyledLine)
    ensures
        l@ == seq![a@, b@],
{
    let l = StyledLine { spans: vec![a, b] };
    assert(l@ =~= seq![a@, b@]);
    l
}

pub(crate) fn one(s: StyledSpan) -> (l: StyledLine)
    ensures
        l@ == seq![s@],
{
    let l = StyledLine { spans: vec![s] };
    assert(l@ =~= seq![s@]);
    l
}

/// `a - b`, or 0 where `b` is the larger.
pub open spec fn sat_sub(a: nat, b: nat) -> nat {
    if a >= b {
        (a - b) as nat
    } else {
        0
    }
}

// ── The heading ─────────────────────────────────────────────────────────────
/// Number of completed tasks.
pub open spec fn done_count(ts: Seq<TaskView>) -> nat
    decreases ts.len(),
{
    if ts.len() == 0 {
        0
    } else {
        done_count(ts.drop_last()) + if ts.last().completed {
            1nat
        } else {
            0nat
        }
    }
}

proof fn lemma_done_count_bound(ts: Seq<TaskView>)
    ensures
        done_count(ts) <= ts.len(),
    decreases ts.len(),
{
    if ts.len() > 0 {
        lemma_done_count_bound(ts.drop_last());
    }
}

/// The planner's title: how many tasks are done out of how many.
pub open spec fn heading_v(ts: Seq<TaskView>) -> Seq<char> {
    "  📋 GitLink Planner  ·  "@ + decimal(done_count(ts)) + "/"@ + decimal(ts.len()) + " done  "@
}

/// The planner's title: how many of its tasks are done out of how many.
pub fn planner_heading(ov: &PlannerOverlay) -> (r: String)
    ensures
        r@ == heading_v(ov@.tasks),
{
    let ghost ts = ov@.tasks;
    let mut done: usize = 0;
    let mut i: usize = 0;
    while i < ov.tasks.len()
        invariant
            i <= ov.tasks.len(),
            ts == ov@.tasks,
            ts.len() == ov.tasks.len(),
            done == done_count(ts.take(i as int)),
            done <= i,
        decreases ov.tasks.len() - i,
    {
        assert(ts.take(i + 1).drop_last() =~= ts.take(i as int));
        if ov.tasks[i].completed {
            done = done + 1;
        }
        i += 1;
    }
    assert(ts.take(ov.tasks.len() as int) =~= ts);
    let mut r = string_from("  📋 GitLink Planner  ·  ");
    push_str(&mut r, usize_text(done).as_str());
    push_str(&mut r, "/");
    push_str(&mut r, usize_text(ov.tasks.len()).as_str());
    push_str(&mut r, " done  ");
    r
}

// ── The task list ───────────────────────────────────────────────────────────
/// A task's title as a list row `max` bytes wide shows it: cut, with an ellipsis, when
/// its text is longer than that.
pub open spec fn shown_title(title: Seq<char>, max: nat) -> Seq<char> {
    if utf8_len(title) > max {
        byte_prefix(title, sat_sub(max, 1)) + "…"@
    } else {
        title
    }
}

/// Cutting the title for a row `max` bytes wide keeps every character whole (the
/// cut is made on the bytes of its text, which panics inside a character).
pub open spec fn title_cuts_cleanly(title: Seq<char>, max: nat) -> bool {
    utf8_len(title) > max ==> cut_ok(title, sat_sub(max, 1))
}

/// A tag as its badge shows it.
pub open spec fn padded(t: Seq<char>) -> Seq<char> {
    " "@ + t + " "@
}

/// The tags after a task's title in the list.
pub open spec fn tags_text(tags: Seq<Seq<char>>) -> Seq<char> {
    "  "@ + join_seq(tags.map_values(|t: Seq<char>| padded(t)), " "@)
}

/// The title span of a row: struck through when done, bright when selected.
pub open spec fn title_span_v(text: Seq<char>, completed: bool, selected: bool) -> SpanV {
    if completed {
        (text, Some(struck_c()), false, false, None, true)
    } else if selected {
        bold_v(text, white_c())
    } else {
        fg_v(text, text_c())
    }
}

/// The list row of a task: pointer, check mark, title and tags.
pub open spec fn row_v(t: TaskView, selected: bool, focused: bool, max: nat) -> LineV {
    seq![
        if selected && focused {
            fg_v("▶ "@, accent_c())
        } else {
            plain_v("  "@)
        },
        if t.completed {
            fg_v("✔ "@, done_c())
        } else {
            fg_v("○ "@, muted_c())
        },
        title_span_v(shown_title(t.title, max), t.completed, selected),
        if t.tags.len() > 0 {
            fg_v(tags_text(t.tags), tag_c())
        } else {
            plain_v(""@)
        },
    ]
}

/// One past the last row shown when the list area is `height` rows high.
pub open spec fn visible_end(v: PlannerView, height: nat) -> nat {
    if v.scroll + height < v.tasks.len() {
        (v.scroll + height) as nat
    } else {
        v.tasks.len()
    }
}

/// The lines of the task list in an area `width` columns wide and `height` rows high:
/// a hint when there is no task, else the rows from the scroll position on.
pub open spec fn list_panel_v(v: PlannerView, width: nat, height: nat) -> Seq<LineV> {
    if v.tasks.len() == 0 {
        seq![
            empty_v(),
            seq![fg_v("No tasks yet."@, faint_c())],
            empty_v(),
            seq![fg_v("Press 'a' to add one."@, prompt_c())],
        ]
    } else {
        Seq::new(
            (visible_end(v, height) - v.scroll) as nat,
            |i: int|
                row_v(
                    v.tasks[v.scroll + i],
                    v.scroll + i == v.selected,
                    v.focus == PlannerFocus::List,
                    sat_sub(width, 6),
                ),
        )
    }
}

/// The list can be drawn: the scroll position lies within the list and every title
/// shown cuts cleanly.
pub open spec fn list_fits(v: PlannerView, width: nat, height: nat) -> bool {
    v.tasks.len() > 0 ==> {
        &&& v.scroll <= v.tasks.len()
        &&& v.scroll + height <= usize::MAX
        &&& forall|i: int|
            v.scroll <= i < visible_end(v, height) ==> #[trigger] title_cuts_cleanly(
                v.tasks[i].title,
                sat_sub(width, 6),
            )
    }
}

/// Whether a title cuts cleanly for a row `max` bytes wide.
fn title_cut_ok(title: &String, max: usize) -> (b: bool)
    requires
        max < usize::MAX,
    ensures
        b == title_cuts_cleanly(title@, max as nat),
{
    let cs = chars_of(title.as_str());
    if utf8_len_at_least(&cs, max + 1) {
        let cut: usize = if max >= 1 {
            max - 1
        } else {
            0
        };
        cut_is_ok(title.as_str(), cut)
    } else {
        true
    }
}

fn shown_title_text(title: &String, max: usize) -> (r: String)
    requires
        max < usize::MAX,
        title_cuts_cleanly(title@, max as nat),
    ensures
        r@ == shown_title(title@, max as nat),
{
    let cs = chars_of(title.as_str());
    if utf8_len_at_least(&cs, max + 1) {
        let cut: usize = if max >= 1 {
            max - 1
        } else {
            0
        };
        let mut r = prefix_bytes(title.as_str(), cut);
        push_str(&mut r, "…");
        r
    } else {
        string_of(&cs)
    }
}

fn tags_line_text(tags: &Vec<String>) -> (r: String)
    ensures
        r@ == tags_text(tags.deep_view()),
{
    let ghost ts = tags.deep_view();
    let mut pieces: Vec<Vec<char>> = Vec::new();
    let mut i: usize = 0;
    while i < tags.len()
        invariant
            i <= tags.len(),
            ts == tags.deep_view(),
            ts.len() == tags.len(),
            pieces@.map_values(|l: Vec<char>| l@) =~= ts.take(i as int).map_values(
                |t: Seq<char>| padded(t),
            ),
        decreases tags.len() - i,
    {
        let mut p = chars_of(" ");
        append_chars(&mut p, &chars_of(tags[i].as_str()));
        append_chars(&mut p, &chars_of(" "));
        assert(p@ == padded(ts[i as int]));
        let ghost before = pieces@;
        pieces.push(p);
        assert(pieces@.map_values(|l: Vec<char>| l@) =~= before.map_values(|l: Vec<char>| l@).push(
            p@,
        ));
        assert(ts.take(i + 1) =~= ts.take(i as int).push(ts[i as int]));
        i += 1;
    }
    assert(ts.take(tags.len() as int) =~= ts);
    let joined = join_chars(&pieces, &chars_of(" "));
    let mut r = chars_of("  ");
    append_chars(&mut r, &joined);
    string_of(&r)
}

fn list_row(t: &Task, selected: bool, focused: bool, max: usize) -> (l: StyledLine)
    requires
        max < usize::MAX,
        title_cuts_cleanly(t@.title, max as nat),
    ensures
        l@ == row_v(t@, selected, focused, max as nat),
{
    let pointer = if selected && focused {
        fg_span("▶ ", rgb(160, 130, 255))
    } else {
        raw_span("  ")
    };
    let check = if t.completed {
        fg_span("✔ ", rgb(80, 200, 120))
    } else {
        fg_span("○ ", rgb(100, 100, 130))
    };
    let text = shown_title_text(&t.title, max);
    let title = if t.completed {
        StyledSpan {
            text,
            fg: Some(rgb(80, 80, 100)),
            bold: false,
            underlined: false,
            bg: None,
            crossed_out: true,
        }
    } else if selected {
        bold_span_of(text, rgb(255, 255, 255))
    } else {
        fg_span_of(text, rgb(200, 200, 215))
    };
    let tags = if t.tags.len() > 0 {
        fg_span_of(tags_line_text(&t.tags), rgb(120, 100, 200))
    } else {
        raw_span("")
    };
    let spans = vec![pointer, check, title, tags];
    let l = line_of(spans);
    assert(l@ =~= row_v(t@, selected, focused, max as nat));
    l
}

/// Whether the task list can be drawn in an area `width` columns wide and `height`
/// rows high (see `list_fits`).
pub fn list_panel_fits(ov: &PlannerOverlay, width: u16, height: u16) -> (b: bool)
    ensures
        b == list_fits(ov@, width as nat, height as nat),
{
    let ghost v = ov@;
    if ov.tasks.len() == 0 {
        return true;
    }
    if ov.scroll > ov.tasks.len() || ov.scroll > usize::MAX - (height as usize) {
        return false;
    }
    let max: usize = if width >= 6 {
        (width - 6) as usize
    } else {
        0
    };
    let end: usize = if ov.scroll + (height as usize) < ov.tasks.len() {
        ov.scroll + (height as usize)
    } else {
        ov.tasks.len()
    };
    assert(end == visible_end(v, height as nat));
    let mut i: usize = ov.scroll;
    while i < end
        invariant
            v == ov@,
            ov.scroll <= i <= end,
            end == visible_end(v, height as nat),
            end <= ov.tasks.len(),
            max == sat_sub(width as nat, 6),
            max < 65536,
            forall|j: int| ov.scroll <= j < i ==> #[trigger] title_cuts_cleanly(
                v.tasks[j].title,
                max as nat,
            ),
        decreases end - i,
    {
        assert(v.tasks[i as int] == ov.tasks@[i as int]@);
        if !title_cut_ok(&ov.tasks[i].title, max) {
            assert(!title_cuts_cleanly(v.tasks[i as int].title, sat_sub(width as nat, 6)));
            return false;
        }
        i += 1;
    }
    true
}

/// The lines of the task list in an area `width` columns wide and `height` rows high
/// (see `list_panel_v`).
pub fn list_panel_lines(ov: &PlannerOverlay, width: u16, height: u16) -> (r: Vec<StyledLine>)
    requires
        list_fits(ov@, width as nat, height as nat),
    ensures
        lines_view(r@) == list_panel_v(ov@, width as nat, height as nat),
{
    let ghost v = ov@;
    let mut r: Vec<StyledLine> = Vec::new();
    if ov.tasks.len() == 0 {
        r.push(blank());
        r.push(one(fg_span("No tasks yet.", rgb(70, 70, 90))));
        r.push(blank());
        r.push(one(fg_span("Press 'a' to add one.", rgb(100, 80, 200))));
        assert(lines_view(r@) =~= list_panel_v(v, width as nat, height as nat));
        return r;
    }
    let max: usize = if width >= 6 {
        (width - 6) as usize
    } else {
        0
    };
    let focused = ov.focus == PlannerFocus::List;
    let start = ov.scroll;
    let end: usize = if start + (height as usize) < ov.tasks.len() {
        start + (height as usize)
    } else {
        ov.tasks.len()
    };
    let mut i: usize = start;
    while i < end
        invariant
            v == ov@,
            start == ov.scroll,
            start <= i <= end,
            end == visible_end(v, height as nat),
            end <= ov.tasks.len(),
            max == sat_sub(width as nat, 6),
            max < 65536,
            focused == (v.focus == PlannerFocus::List),
            list_fits(v, width as nat, height as nat),
            v.tasks.len() > 0,
            r@.len() == i - start,
            forall|k: int|
                0 <= k < i - start ==> #[trigger] r@[k]@ == row_v(
                    v.tasks[start + k],
                    start + k == v.selected,
                    focused,
                    max as nat,
                ),
        decreases end - i,
    {
        assert(title_cuts_cleanly(v.tasks[i as int].title, max as nat));
        assert(v.tasks[i as int] == ov.tasks@[i as int]@);
        let row = list_row(&ov.tasks[i], i == ov.selected, focused, max);
        r.push(row);
        i += 1;
    }
    assert(lines_view(r@) =~= list_panel_v(v, width as nat, height as nat));
    r
}

/// The position shown under a list too long for its area: the selected row's number
/// and the number of tasks.
pub open spec fn list_hint_v(v: PlannerView, height: nat) -> Option<Seq<char>> {
    if v.tasks.len() > height {
        Some(" "@ + decimal((v.selected + 1) as nat) + "/"@ + decimal(v.tasks.len()) + " "@)
    } else {
        None
    }
}

/// The position shown under a list too long for an area `height` rows high, in the faint
/// colour; `None` when every task fits.
pub fn list_hint(ov: &PlannerOverlay, height: u16) -> (r: Option<StyledLine>)
    requires
        ov.selected < usize::MAX,
    ensures
        match list_hint_v(ov@, height as nat) {
            Some(t) => r is Some && r.unwrap()@ == seq![fg_v(t, faint_c())],
            None => r is None,
        },
{
    if ov.tasks.len() > height as usize {
        let mut t = string_from(" ");
        push_str(&mut t, usize_text(ov.selected + 1).as_str());
        push_str(&mut t, "/");
        push_str(&mut t, usize_text(ov.tasks.len()).as_str());
        push_str(&mut t, " ");
        Some(one(fg_span_of(t, rgb(70, 70, 90))))
    } else {
        None
    }
}

// ── The detail of the selected task ─────────────────────────────────────────
pub open spec fn status_text(done: bool) -> Seq<char> {
    if done {
        "✔ Completed"@
    } else {
        "○ Pending"@
    }
}

pub open spec fn status_c(done: bool) -> Rgb {
    if done {
        done_c()
    } else {
        accent_c()
    }
}

/// The badge of a tag.
pub open spec fn badge_v(t: Seq<char>) -> SpanV {
    (padded(t), Some(badge_c()), true, false, Some(badge_bg_c()), false)
}

/// The tag badges, each followed by a gap.
pub open spec fn badge_spans(tags: Seq<Seq<char>>) -> Seq<SpanV>
    decreases tags.len(),
{
    if tags.len() == 0 {
        Seq::empty()
    } else {
        badge_spans(tags.drop_last()) + seq![badge_v(tags.last()), plain_v("  "@)]
    }
}

/// The tags section: a label and the badges, when there are tags.
pub open spec fn tags_block(tags: Seq<Seq<char>>) -> Seq<LineV> {
    if tags.len() > 0 {
        seq![seq![fg_v("Tags"@, muted_c())], empty_v(), badge_spans(tags), empty_v()]
    } else {
        Seq::empty()
    }
}

/// The description section: a label and each line of the description, when there is one.
pub open spec fn desc_block(d: Option<Seq<char>>) -> Seq<LineV> {
    match d {
        Some(s) => seq![seq![fg_v("Description"@, muted_c())], empty_v()] + lines_seq(s).map_values(
            |l: Seq<char>| seq![fg_v(l, text_c())],
        ),
        None => Seq::empty(),
    }
}

/// An optional text as characters.
pub open spec fn opt_chars(o: Option<&str>) -> Option<Seq<char>> {
    match o {
        Some(s) => Some(s@),
        None => None,
    }
}

/// The task shown by the detail pane, if any.
pub open spec fn task_opt_v(t: Option<&Task>) -> Option<TaskView> {
    match t {
        Some(t) => Some(t@),
        None => None,
    }
}

/// The first eight bytes of an id can be cut off whole.
pub open spec fn id_shortens(id: Seq<char>) -> bool {
    utf8_len(id) >= 8 && cut_ok(id, 8)
}

/// The dates of the detail pane: creation, last change and, when there is one,
/// completion, each as the caller formats it.
pub open spec fn dates_block(created: Seq<char>, updated: Seq<char>, completed: Option<Seq<char>>) -> Seq<LineV> {
    seq![
        seq![fg_v("Created  "@, muted_c()), fg_v(created, date_c())],
        seq![fg_v("Updated  "@, muted_c()), fg_v(updated, date_c())],
    ] + match completed {
        Some(c) => seq![seq![fg_v("Completed "@, muted_c()), fg_v(c, done_c())]],
        None => Seq::empty(),
    }
}

/// The lines of the detail pane: a hint when no task is selected, else the task's title,
/// status, dates (see `dates_block`), tags, description and short id.
pub open spec fn detail_v(
    t: Option<TaskView>,
    created: Seq<char>,
    updated: Seq<char>,
    completed: Option<Seq<char>>,
) -> Seq<LineV> {
    match t {
        None => seq![seq![fg_v("Select a task to view details"@, faint_c())]],
        Some(t) => seq![
            seq![bold_v(t.title, white_c())],
            empty_v(),
            seq![fg_v("Status   "@, muted_c()), bold_v(status_text(t.completed), status_c(t.completed))],
            empty_v(),
        ] + dates_block(created, updated, completed) + seq![empty_v()] + tags_block(t.tags) + desc_block(t.description) + seq![
            empty_v(),
            seq![fg_v("ID  "@ + byte_prefix(t.id, 8), id_c())],
        ],
    }
}

/// Whether the short id of a task can be cut from its id (see `id_shortens`).
pub fn short_id_ok(id: &str) -> (b: bool)
    ensures
        b == id_shortens(id@),
{
    utf8_len_at_least(&chars_of(id), 8) && cut_is_ok(id, 8)
}

fn badge_line(tags: &Vec<String>) -> (l: StyledLine)
    ensures
        l@ == badge_spans(tags.deep_view()),
{
    let ghost ts = tags.deep_view();
    let mut spans: Vec<StyledSpan> = Vec::new();
    let mut i: usize = 0;
    while i < tags.len()
        invariant
            i <= tags.len(),
            ts == tags.deep_view(),
            ts.len() == tags.len(),
            spans@.map_values(|s: StyledSpan| s@) =~= badge_spans(ts.take(i as int)),
        decreases tags.len() - i,
    {
        let mut p = chars_of(" ");
        append_chars(&mut p, &chars_of(tags[i].as_str()));
        append_chars(&mut p, &chars_of(" "));
        let badge = StyledSpan {
            text: string_of(&p),
            fg: Some(rgb(200, 180, 255)),
            bold: true,
            underlined: false,
            bg: Some(rgb(40, 30, 70)),
            crossed_out: false,
        };
        let gap = raw_span("  ");
        assert(badge@ == badge_v(ts[i as int]));
        let ghost before = spans@;
        spans.push(badge);
        spans.push(gap);
        assert(ts.take(i + 1).drop_last() =~= ts.take(i as int));
        assert(spans@.map_values(|s: StyledSpan| s@) =~= before.map_values(|s: StyledSpan| s@) + seq![
            badge@,
            gap@,
        ]);
        i += 1;
    }
    assert(ts.take(tags.len() as int) =~= ts);
    line_of(spans)
}

/// The lines of the detail pane for a task, or for none (see `detail_v`).
pub fn detail_panel_lines(task: Option<&Task>, created: &str, updated: &str, completed: Option<&str>) -> (r: Vec<
    StyledLine,
>)
    requires
        task matches Some(t) ==> id_shortens(t@.id),
    ensures
        lines_view(r@) == detail_v(task_opt_v(task), created@, updated@, opt_chars(completed)),
{
    let mut r: Vec<StyledLine> = Vec::new();
    match task {
        None => {
            r.push(one(fg_span("Select a task to view details", rgb(70, 70, 90))));
            assert(lines_view(r@) =~= detail_v(task_opt_v(task), created@, updated@, opt_chars(completed)));
            r
        },
        Some(t) => {
            let ghost tv = t@;
            r.push(one(bold_span_of(string_of(&chars_of(t.title.as_str())), rgb(255, 255, 255))));
            r.push(blank());
            let (status, color) = if t.completed {
                ("✔ Completed", rgb(80, 200, 120))
            } else {
                ("○ Pending", rgb(160, 130, 255))
            };
            r.push(two(fg_span("Status   ", rgb(100, 100, 130)), bold_span(status, color)));
            r.push(blank());
            r.push(two(fg_span("Created  ", rgb(100, 100, 130)), fg_span(created, rgb(180, 180, 200))));
            r.push(two(fg_span("Updated  ", rgb(100, 100, 130)), fg_span(updated, rgb(180, 180, 200))));
            if let Some(c) = completed {
                r.push(two(fg_span("Completed ", rgb(100, 100, 130)), fg_span(c, rgb(80, 200, 120))));
            }
            r.push(blank());
            let ghost head = lines_view(r@);
            assert(head =~= seq![
                seq![bold_v(tv.title, white_c())],
                empty_v(),
                seq![fg_v("Status   "@, muted_c()), bold_v(status_text(tv.completed), status_c(tv.completed))],
                empty_v(),
            ] + dates_block(created@, updated@, opt_chars(completed)) + seq![empty_v()]);
            if t.tags.len() > 0 {
                r.push(one(fg_span("Tags", rgb(100, 100, 130))));
                r.push(blank());
                r.push(badge_line(&t.tags));
                r.push(blank());
            }
            let ghost with_tags = lines_view(r@);
            assert(with_tags =~= head + tags_block(tv.tags));
            match &t.description {
                Some(d) => {
                    r.push(one(fg_span("Description", rgb(100, 100, 130))));
                    r.push(blank());
                    let ls = lines_chars(&chars_of(d.as_str()));
                    let ghost lsv = ls@.map_values(|l: Vec<char>| l@);
                    let ghost before = lines_view(r@);
                    let mut i: usize = 0;
                    while i < ls.len()
                        invariant
                            i <= ls.len(),
                            lsv == ls@.map_values(|l: Vec<char>| l@),
                            lines_view(r@) =~= before + lsv.take(i as int).map_values(
                                |l: Seq<char>| seq![fg_v(l, text_c())],
                            ),
                        decreases ls.len() - i,
                    {
                        let line = one(fg_span_of(string_of(&ls[i]), rgb(200, 200, 215)));
                        assert(lsv[i as int] == ls@[i as int]@);
                        let ghost prev = r@;
                        r.push(line);
                        assert(lines_view(r@) =~= lines_view(prev).push(line@));
                        assert(lsv.take(i + 1) =~= lsv.take(i as int).push(lsv[i as int]));
                        i += 1;
                    }
                    assert(lsv.take(ls.len() as int) =~= lsv);
                },
                None => {},
            }
            let ghost with_desc = lines_view(r@);
            assert(with_desc =~= with_tags + desc_block(tv.description));
            let b = blank();
            let mut id_text = string_from("ID  ");
            let short = prefix_bytes(t.id.as_str(), 8);
            push_str(&mut id_text, short.as_str());
            let idl = one(fg_span_of(id_text, rgb(50, 50, 70)));
            let ghost prev = r@;
            r.push(b);
            r.push(idl);
            assert(lines_view(r@) =~= lines_view(prev).push(b@).push(idl@));
            assert(lines_view(r@) =~= with_desc + seq![b@, idl@]);
            assert(lines_view(r@) =~= detail_v(task_opt_v(task), created@, updated@, opt_chars(completed)));
            r
        },
    }
}

// ── The task form ───────────────────────────────────────────────────────────
/// The title of the form window, while the form is open.
pub open spec fn form_title(m: PlannerMode) -> Option<Seq<char>> {
    match m {
        PlannerMode::AddingTask => Some("  ✚ Add New Task  "@),
        PlannerMode::EditingTask => Some("  ✎ Edit Task  "@),
        _ => None,
    }
}

/// The title of the form window, while the form is open (see `form_title`).
pub fn form_heading(m: PlannerMode) -> (r: Option<String>)
    ensures
        match form_title(m) {
            Some(t) => r is Some && r.unwrap()@ == t,
            None => r is None,
        },
{
    match m {
        PlannerMode::AddingTask => Some(string_from("  ✚ Add New Task  ")),
        PlannerMode::EditingTask => Some(string_from("  ✎ Edit Task  ")),
        _ => None,
    }
}

/// The character under the cursor, or a blank past the end.
pub open spec fn under_cursor(buf: Seq<char>, c: nat) -> Seq<char> {
    if c < buf.len() {
        seq![buf[c as int]]
    } else {
        " "@
    }
}

/// The characters after the one under the cursor.
pub open spec fn after_cursor(buf: Seq<char>, c: nat) -> Seq<char> {
    if c < buf.len() {
        buf.skip(c + 1int)
    } else {
        Seq::empty()
    }
}

/// A row of the form: its label and its text; the row being typed in is bright and
/// shows the cursor as an inverted character.
pub open spec fn field_row_v(buf: Seq<char>, cursor: nat, label: Seq<char>, active: bool) -> LineV {
    if active {
        seq![
            bold_v("  "@ + label, badge_c()),
            fg_v(buf.take(cursor as int), white_c()),
            (under_cursor(buf, cursor), Some(black_c()), false, false, Some(white_c()), false),
            fg_v(after_cursor(buf, cursor), white_c()),
        ]
    } else {
        seq![fg_v("  "@ + label, label_off_c()), fg_v(buf, text_off_c())]
    }
}

/// The text of a field of the form: what is being typed for the active field, the kept
/// text for the others.
pub open spec fn form_value(v: PlannerView, f: InputField) -> Seq<char> {
    if v.field == f {
        v.input
    } else {
        match f {
            InputField::Title => v.scratch_title,
            InputField::Tags => v.scratch_tags,
            InputField::Description => v.scratch_desc,
        }
    }
}

/// The rows of the form: title, tags and description, each after a blank line.
pub open spec fn form_v(v: PlannerView) -> Seq<LineV> {
    seq![
        empty_v(),
        field_row_v(form_value(v, InputField::Title), v.cursor as nat, "Title*  : "@, v.field == InputField::Title),
        empty_v(),
        field_row_v(form_value(v, InputField::Tags), v.cursor as nat, "Tags    : "@, v.field == InputField::Tags),
        empty_v(),
        field_row_v(
            form_value(v, InputField::Description),
            v.cursor as nat,
            "Desc    : "@,
            v.field == InputField::Description,
        ),
    ]
}

/// The key hints under the form.
pub open spec fn form_hint_v() -> LineV {
    seq![
        fg_v("Enter/Tab "@, accent_c()),
        fg_v("next field  "@, struck_c()),
        fg_v("Enter "@, accent_c()),
        fg_v("(on Desc) confirm  "@, struck_c()),
        fg_v("Esc "@, accent_c()),
        fg_v("cancel"@, struck_c()),
    ]
}

/// The characters before the cursor, the one under it (a blank past the end) and those
/// after it.
pub(crate) fn split_at_cursor(cs: &Vec<char>, cursor: usize) -> (r: (Vec<char>, Vec<char>, Vec<char>))
    requires
        cursor <= cs@.len(),
    ensures
        r.0@ == cs@.take(cursor as int),
        r.1@ == under_cursor(cs@, cursor as nat),
        r.2@ == after_cursor(cs@, cursor as nat),
{
    let mut before: Vec<char> = Vec::new();
    let mut i: usize = 0;
    while i < cursor
        invariant
            i <= cursor <= cs.len(),
            before@ == cs@.take(i as int),
        decreases cursor - i,
    {
        before.push(cs[i]);
        assert(cs@.take(i + 1) =~= cs@.take(i as int).push(cs@[i as int]));
        i += 1;
    }
    let mut under: Vec<char> = Vec::new();
    let mut after: Vec<char> = Vec::new();
    if cursor < cs.len() {
        under.push(cs[cursor]);
        let mut k: usize = cursor + 1;
        while k < cs.len()
            invariant
                cursor + 1 <= k <= cs.len(),
                after@ == cs@.subrange(cursor + 1, k as int),
            decreases cs.len() - k,
        {
            after.push(cs[k]);
            assert(cs@.subrange(cursor + 1, k + 1) =~= cs@.subrange(cursor + 1, k as int).push(cs@[k as int]));
            k += 1;
        }
        assert(after@ =~= cs@.skip(cursor + 1));
        assert(under@ =~= seq![cs@[cursor as int]]);
    } else {
        under.push(' ');
        assert(under@ =~= " "@) by {
            reveal_strlit(" ");
        }
        assert(after@ =~= Seq::<char>::empty());
    }
    (before, under, after)
}

fn field_row(buf: &String, cursor: usize, label: &str, active: bool) -> (l: StyledLine)
    requires
        active ==> cursor <= buf@.len(),
    ensures
        l@ == field_row_v(buf@, cursor as nat, label@, active),
{
    let mut lab = string_from("  ");
    push_str(&mut lab, label);
    if active {
        let (before, under, after) = split_at_cursor(&chars_of(buf.as_str()), cursor);
        let cursor_span = StyledSpan {
            text: string_of(&under),
            fg: Some(rgb(0, 0, 0)),
            bold: false,
            underlined: false,
            bg: Some(rgb(255, 255, 255)),
            crossed_out: false,
        };
        let l = line_of(
            vec![
                bold_span_of(lab, rgb(200, 180, 255)),
                fg_span_of(string_of(&before), rgb(255, 255, 255)),
                cursor_span,
                fg_span_of(string_of(&after), rgb(255, 255, 255)),
            ],
        );
        assert(l@ =~= field_row_v(buf@, cursor as nat, label@, active));
        l
    } else {
        let l = two(fg_span_of(lab, rgb(70, 60, 100)), fg_span_of(string_of(&chars_of(buf.as_str())), rgb(100, 90, 130)));
        l
    }
}

/// The rows of the task form (see `form_v`).
pub fn form_lines(ov: &PlannerOverlay) -> (r: Vec<StyledLine>)
    requires
        ov@.cursor <= ov@.input.len(),
    ensures
        lines_view(r@) == form_v(ov@),
{
    let title = if ov.input_field == InputField::Title {
        &ov.input_buf
    } else {
        &ov.scratch_title
    };
    let tags = if ov.input_field == InputField::Tags {
        &ov.input_buf
    } else {
        &ov.scratch_tags
    };
    let desc = if ov.input_field == InputField::Description {
        &ov.input_buf
    } else {
        &ov.scratch_desc
    };
    let mut r: Vec<StyledLine> = Vec::new();
    r.push(blank());
    r.push(field_row(title, ov.input_cursor, "Title*  : ", ov.input_field == InputField::Title));
    r.push(blank());
    r.push(field_row(tags, ov.input_cursor, "Tags    : ", ov.input_field == InputField::Tags));
    r.push(blank());
    r.push(field_row(desc, ov.input_cursor, "Desc    : ", ov.input_field == InputField::Description));
    assert(lines_view(r@) =~= form_v(ov@));
    r
}

/// The key hints under the form (see `form_hint_v`).
pub fn form_hint() -> (l: StyledLine)
    ensures
        l@ == form_hint_v(),
{
    let l = line_of(
        vec![
            fg_span("Enter/Tab ", rgb(160, 130, 255)),
            fg_span("next field  ", rgb(80, 80, 100)),
            fg_span("Enter ", rgb(160, 130, 255)),
            fg_span("(on Desc) confirm  ", rgb(80, 80, 100)),
            fg_span("Esc ", rgb(160, 130, 255)),
            fg_span("cancel", rgb(80, 80, 100)),
        ],
    );
    assert(l@ =~= form_hint_v());
    l
}

// ── The delete prompt ───────────────────────────────────────────────────────
/// The name of the task the delete prompt asks about.
pub open spec fn confirm_title(v: PlannerView) -> Seq<char> {
    if v.selected < v.tasks.len() {
        v.tasks[v.selected as int].title
    } else {
        "this"@ + " task"@
    }
}

/// The task name in a prompt `width` columns wide: cut, with an ellipsis, when longer
/// than 16 bytes less than that.
pub open spec fn delete_name(title: Seq<char>, width: nat) -> Seq<char> {
    shown_title(title, sat_sub(width, 16))
}

/// The lines of the delete prompt in an area `width` columns wide.
pub open spec fn confirm_v(v: PlannerView, width: nat) -> Seq<LineV> {
    seq![
        seq![
            fg_v("Delete  "@, date_c()),
            bold_v(delete_name(confirm_title(v), width), white_c()),
            fg_v(" ?"@, date_c()),
        ],
        empty_v(),
        seq![
            bold_v("y / Enter "@, warn_c()),
            fg_v("confirm  "@, warn_dim_c()),
            fg_v("any other key "@, grey_c()),
            fg_v("cancel"@, grey_c()),
        ],
    ]
}

/// Whether the task name cuts cleanly for a prompt `width` columns wide.
pub fn confirm_fits(ov: &PlannerOverlay, width: u16) -> (b: bool)
    ensures
        b == title_cuts_cleanly(confirm_title(ov@), sat_sub(width as nat, 16)),
{
    let limit: usize = if width >= 16 {
        (width - 16) as usize
    } else {
        0
    };
    match ov.selected_task() {
        Some(t) => title_cut_ok(&t.title, limit),
        None => {
            let mut t = string_from("this");
            push_str(&mut t, " task");
            title_cut_ok(&t, limit)
        },
    }
}

/// The lines of the delete prompt (see `confirm_v`).
pub fn confirm_lines(ov: &PlannerOverlay, width: u16) -> (r: Vec<StyledLine>)
    requires
        title_cuts_cleanly(confirm_title(ov@), sat_sub(width as nat, 16)),
    ensures
        lines_view(r@) == confirm_v(ov@, width as nat),
{
    let limit: usize = if width >= 16 {
        (width - 16) as usize
    } else {
        0
    };
    let name = match ov.selected_task() {
        Some(t) => shown_title_text(&t.title, limit),
        None => {
            let mut t = string_from("this");
            push_str(&mut t, " task");
            shown_title_text(&t, limit)
        },
    };
    let first = three(
        fg_span("Delete  ", rgb(180, 180, 200)),
        bold_span_of(name, rgb(255, 255, 255)),
        fg_span(" ?", rgb(180, 180, 200)),
    );
    let last = four(
        bold_span("y / Enter ", rgb(220, 80, 80)),
        fg_span("confirm  ", rgb(100, 80, 80)),
        fg_span("any other key ", rgb(100, 100, 120)),
        fg_span("cancel", rgb(100, 100, 120)),
    );
    let r = vec![first, blank(), last];
    assert(lines_view(r@) =~= confirm_v(ov@, width as nat));
    r
}

} // verus!
