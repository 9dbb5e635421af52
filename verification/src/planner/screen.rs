//! The text of the full-screen planner: a header, the rows around the selection and
//! the key help.

use vstd::prelude::*;

use crate::planner::session::{visible_window, window};
use crate::planner::task::{tasks_view, Task, TaskView};
use crate::text::{
    append_chars, byte_prefix, chars_of, cut_is_ok, cut_ok, join_chars, join_seq, prefix_bytes,
    string_of, utf8_len, utf8_len_at_least,
};

verus! {

/// `n` copies of `c`.
pub open spec fn rule_of(c: char, n: nat) -> Seq<char> {
    Seq::new(n, |i: int| c)
}

/// The row of a task before it is fitted to the screen: pointer, check box, title and
/// tags in brackets.
pub open spec fn task_row_text(t: TaskView, selected: bool) -> Seq<char> {
    (if selected { "→ "@ } else { "  "@ }) + (if t.completed { "☑"@ } else { "☐"@ }) + " "@ + t.title
        + if t.tags.len() > 0 {
        " ["@ + join_seq(t.tags, ", "@) + "]"@
    } else {
        Seq::empty()
    }
}

/// A row cut to the first `width - 1` bytes when it is longer than `width` bytes.
pub open spec fn fitted(line: Seq<char>, width: nat) -> Seq<char> {
    if utf8_len(line) > width {
        byte_prefix(line, if width >= 1 { (width - 1) as nat } else { 0 })
    } else {
        line
    }
}

/// Cutting a row for a screen `width` columns wide keeps every character whole.
pub open spec fn fits_cleanly(line: Seq<char>, width: nat) -> bool {
    utf8_len(line) > width ==> cut_ok(line, if width >= 1 { (width - 1) as nat } else { 0 })
}

/// The text of row `index`: a task with its creation date under it, or, past the last
/// task, the row that adds one.
pub open spec fn screen_row(tasks: Seq<TaskView>, dates: Seq<Seq<char>>, index: nat, selected: nat, width: nat) -> Seq<char> {
    if index < tasks.len() {
        fitted(task_row_text(tasks[index as int], index == selected), width) + "\n     📅 "@
            + dates[index as int] + "\n\n"@
    } else {
        (if index == selected { "→ "@ } else { "  "@ }) + "+ Add New Task\n"@
    }
}

/// The text of the rows from `start` up to `end`.
pub open spec fn screen_rows(
    tasks: Seq<TaskView>,
    dates: Seq<Seq<char>>,
    selected: nat,
    width: nat,
    start: nat,
    end: nat,
) -> Seq<char>
    decreases end - start,
{
    if start >= end {
        Seq::empty()
    } else {
        screen_rows(tasks, dates, selected, width, start, (end - 1) as nat) + screen_row(
            tasks,
            dates,
            (end - 1) as nat,
            selected,
            width,
        )
    }
}

/// The rows that fit between the header and the key help on a screen `height` rows high.
pub open spec fn rows_available(height: nat) -> nat {
    if height > 10 { (height - 9) as nat } else { 1 }
}

/// The planner screen for a terminal `width` by `height`, given the creation date of each
/// task as it is shown: a note when the terminal is too small, else the header, the rows
/// around the selection (the tasks, then "add a new task") and the key help.
pub open spec fn planner_screen_v(
    tasks: Seq<TaskView>,
    dates: Seq<Seq<char>>,
    selected: usize,
    width: usize,
    height: usize,
) -> Seq<char> {
    if width < 40 || height < 10 {
        "Terminal too small. Please resize the window."@
    } else {
        let (start, end) = window(selected, (tasks.len() + 1) as usize, rows_available(height as nat) as usize);
        rule_of('=', width as nat) + "\n📋 GitLink Task Planner\n"@ + rule_of('=', width as nat) + "\n\n"@
            + screen_rows(tasks, dates, selected as nat, width as nat, start as nat, end as nat) + "\n"@
            + rule_of('─', width as nat) + "\n💡 Controls:\n"@
            + "   ↑/↓: Navigate | Space: Toggle | a: Add | e: Edit | d: Delete\n"@
            + "   u: Undo | r: Redo | q: Quit\n"@
    }
}

/// The screen can be drawn: one date per task, and every task row shown cuts cleanly.
pub open spec fn screen_fits(tasks: Seq<TaskView>, dates: Seq<Seq<char>>, selected: usize, width: usize) -> bool {
    &&& dates.len() == tasks.len()
    &&& tasks.len() < usize::MAX
    &&& forall|i: int| 0 <= i < tasks.len() ==> #[trigger] row_fits_at(tasks, i, selected, width)
}

/// Row `i` of the list cuts cleanly for a screen `width` columns wide.
pub open spec fn row_fits_at(tasks: Seq<TaskView>, i: int, selected: usize, width: usize) -> bool {
    fits_cleanly(task_row_text(tasks[i], i == selected), width as nat)
}

fn task_row(t: &Task, selected: bool) -> (r: Vec<char>)
    ensures
        r@ == task_row_text(t@, selected),
{
    let mut r = chars_of(if selected { "→ " } else { "  " });
    append_chars(&mut r, &chars_of(if t.completed { "☑" } else { "☐" }));
    append_chars(&mut r, &chars_of(" "));
    append_chars(&mut r, &chars_of(t.title.as_str()));
    if t.tags.len() > 0 {
        let mut pieces: Vec<Vec<char>> = Vec::new();
        let mut i: usize = 0;
        while i < t.tags.len()
            invariant
                i <= t.tags.len(),
                pieces@.map_values(|l: Vec<char>| l@) =~= t.tags.deep_view().take(i as int),
            decreases t.tags.len() - i,
        {
            let ghost before = pieces@;
            let p = chars_of(t.tags[i].as_str());
            pieces.push(p);
            assert(pieces@.map_values(|l: Vec<char>| l@) =~= before.map_values(|l: Vec<char>| l@).push(p@));
            assert(t.tags.deep_view().take(i + 1) =~= t.tags.deep_view().take(i as int).push(t.tags@[i as int]@));
            i += 1;
        }
        assert(t.tags.deep_view().take(t.tags.len() as int) =~= t.tags.deep_view());
        append_chars(&mut r, &chars_of(" ["));
        append_chars(&mut r, &join_chars(&pieces, &chars_of(", ")));
        append_chars(&mut r, &chars_of("]"));
    } else {
        assert(r@ + Seq::<char>::empty() =~= r@);
    }
    r
}

fn row_fits(line: &Vec<char>, width: usize) -> (b: bool)
    requires
        width < usize::MAX,
    ensures
        b == fits_cleanly(line@, width as nat),
{
    if utf8_len_at_least(line, width + 1) {
        let cut: usize = if width >= 1 {
            width - 1
        } else {
            0
        };
        cut_is_ok(string_of(line).as_str(), cut)
    } else {
        true
    }
}

/// Whether the planner screen can be drawn (see `screen_fits`).
pub fn planner_screen_fits(tasks: &Vec<Task>, dates: &Vec<String>, selected: usize, width: usize) -> (b: bool)
    requires
        width < usize::MAX,
    ensures
        b == screen_fits(tasks_view(tasks@), dates.deep_view(), selected, width),
{
    let ghost ts = tasks_view(tasks@);
    if dates.len() != tasks.len() || tasks.len() == usize::MAX {
        return false;
    }
    let mut i: usize = 0;
    while i < tasks.len()
        invariant
            i <= tasks.len(),
            ts == tasks_view(tasks@),
            width < usize::MAX,
            forall|j: int| 0 <= j < i ==> #[trigger] row_fits_at(ts, j, selected, width),
        decreases tasks.len() - i,
    {
        let line = task_row(&tasks[i], i == selected);
        assert(ts[i as int] == tasks@[i as int]@);
        if !row_fits(&line, width) {
            assert(!row_fits_at(ts, i as int, selected, width));
            return false;
        }
        i += 1;
    }
    true
}

/// The planner screen (see `planner_screen_v`).
pub fn planner_screen(tasks: &Vec<Task>, dates: &Vec<String>, selected: usize, width: usize, height: usize) -> (r: String)
    requires
        width < usize::MAX,
        screen_fits(tasks_view(tasks@), dates.deep_view(), selected, width),
    ensures
        r@ == planner_screen_v(tasks_view(tasks@), dates.deep_view(), selected, width, height),
{
    if width < 40 || height < 10 {
        return string_of(&chars_of("Terminal too small. Please resize the window."));
    }
    let ghost ts = tasks_view(tasks@);
    let ghost ds = dates.deep_view();
    let avail: usize = if height > 10 {
        height - 9
    } else {
        1
    };
    let (start, end) = visible_window(selected, tasks.len() + 1, avail);
    let mut equals: Vec<char> = Vec::new();
    let mut dashes: Vec<char> = Vec::new();
    let mut k: usize = 0;
    while k < width
        invariant
            k <= width,
            equals@ =~= rule_of('=', k as nat),
            dashes@ =~= rule_of('─', k as nat),
        decreases width - k,
    {
        equals.push('=');
        dashes.push('─');
        k += 1;
    }
    let mut out = copy(&equals);
    append_chars(&mut out, &chars_of("\n📋 GitLink Task Planner\n"));
    append_chars(&mut out, &equals);
    append_chars(&mut out, &chars_of("\n\n"));
    let ghost head = out@;
    if start < end {
        let mut i: usize = start;
        while i < end
            invariant
                start <= i <= end <= tasks.len() + 1,
                ts == tasks_view(tasks@),
                ds == dates.deep_view(),
                screen_fits(ts, ds, selected, width),
                width < usize::MAX,
                out@ =~= head + screen_rows(ts, ds, selected as nat, width as nat, start as nat, i as nat),
            decreases end - i,
        {
            let ghost before = out@;
            if i < tasks.len() {
                let line = task_row(&tasks[i], i == selected);
                assert(ts[i as int] == tasks@[i as int]@);
                assert(row_fits_at(ts, i as int, selected, width));
                let shown: Vec<char> = if utf8_len_at_least(&line, width + 1) {
                    let cut: usize = if width >= 1 {
                        width - 1
                    } else {
                        0
                    };
                    chars_of(prefix_bytes(string_of(&line).as_str(), cut).as_str())
                } else {
                    line
                };
                append_chars(&mut out, &shown);
                append_chars(&mut out, &chars_of("\n     📅 "));
                append_chars(&mut out, &chars_of(dates[i].as_str()));
                append_chars(&mut out, &chars_of("\n\n"));
                assert(ds[i as int] == dates@[i as int]@);
            } else {
                append_chars(&mut out, &chars_of(if i == selected { "→ " } else { "  " }));
                append_chars(&mut out, &chars_of("+ Add New Task\n"));
            }
            assert(out@ =~= before + screen_row(ts, ds, i as nat, selected as nat, width as nat));
            i += 1;
        }
    }
    append_chars(&mut out, &chars_of("\n"));
    append_chars(&mut out, &dashes);
    append_chars(&mut out, &chars_of("\n💡 Controls:\n"));
    append_chars(&mut out, &chars_of("   ↑/↓: Navigate | Space: Toggle | a: Add | e: Edit | d: Delete\n"));
    append_chars(&mut out, &chars_of("   u: Undo | r: Redo | q: Quit\n"));
    string_of(&out)
}

fn copy(v: &Vec<char>) -> (r: Vec<char>)
    ensures
        r@ == v@,
{
    let mut r: Vec<char> = Vec::new();
    append_chars(&mut r, v);
    assert(r@ =~= v@);
    r
}

} // verus!
