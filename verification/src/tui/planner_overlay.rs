use vstd::prelude::*;

use crate::planner::history::{
    after_push, after_redo, after_undo, redo_effect, replace_at, undo_applicable, undo_effect,
    Action, ActionView, History, HistoryView,
};
use crate::planner::storage::{copy_tasks, TaskList};
use crate::planner::task::{tasks_view, Task, TaskView};
use crate::text::{
    char_count, chars_of, clear_string, clone_opt_string, clone_strings, join_chars, join_seq,
    split_chars, split_seq, string_from, string_of, trim, trim_chars, trim_seq, trim_start_seq, trim_end_seq,
    is_ws,
};
use crate::tui::keys::{KeyCode, KeyEvent};
use crate::tui::overlays::{down_key, edit_field, edited, quit_key, up_key};

verus! {

/// Which pane of the planner has the keyboard.
#[derive(Debug, Clone, Copy, PartialEq, Eq, Structural)]
pub enum PlannerFocus {
    List,
    Detail,
}

/// What the planner is doing.
#[derive(Debug, Clone, Copy, PartialEq, Eq, Structural)]
pub enum PlannerMode {
    Normal,
    AddingTask,
    EditingTask,
    ConfirmDelete,
}

/// The field of the task form being typed in.
#[derive(Debug, Clone, Copy, PartialEq, Eq, Structural)]
pub enum InputField {
    Title,
    Tags,
    Description,
}

/// The task planner: a list of tasks with undo/redo and a form to add or edit a task.
/// The form keeps the text of the fields not being typed in in three scratch strings.
pub struct PlannerOverlay {
    pub tasks: Vec<Task>,
    pub history: History,
    pub selected: usize,
    pub focus: PlannerFocus,
    pub mode: PlannerMode,
    pub input_buf: String,
    /// Cursor position in the field being typed in, in characters.
    pub input_cursor: usize,
    pub input_field: InputField,
    pub scroll: usize,
    pub scratch_title: String,
    pub scratch_tags: String,
    pub scratch_desc: String,
}

/// The abstract value of the planner.
pub struct PlannerView {
    pub tasks: Seq<TaskView>,
    pub history: HistoryView,
    pub selected: usize,
    pub focus: PlannerFocus,
    pub mode: PlannerMode,
    pub input: Seq<char>,
    pub cursor: usize,
    pub field: InputField,
    pub scroll: usize,
    pub scratch_title: Seq<char>,
    pub scratch_tags: Seq<char>,
    pub scratch_desc: Seq<char>,
}

impl View for PlannerOverlay {
    type V = PlannerView;

    open spec fn view(&self) -> PlannerView {
        PlannerView {
            tasks: tasks_view(self.tasks@),
            history: self.history@,
            selected: self.selected,
            focus: self.focus,
            mode: self.mode,
            input: self.input_buf@,
            cursor: self.input_cursor,
            field: self.input_field,
            scroll: self.scroll,
            scratch_title: self.scratch_title@,
            scratch_tags: self.scratch_tags@,
            scratch_desc: self.scratch_desc@,
        }
    }
}

/// What the planner asks of its caller after a key.
#[derive(Debug, Clone, Copy)]
pub struct PlannerKeyOutcome {
    /// Close the planner.
    pub close: bool,
    /// Write the task list to disk.
    pub save: bool,
}

/// The planner is consistent: the cursor lies within the field and the selection can
/// move down by one.
pub open spec fn planner_wf(v: PlannerView) -> bool {
    v.cursor <= v.input.len() && v.selected < usize::MAX
}

/// Number of task rows the list shows at once.
pub open spec fn visible_rows() -> int {
    15
}

/// The list's scroll offset after the selection moved to `sel`: the selection stays
/// within the visible rows.
pub open spec fn clamped_scroll(sel: usize, scroll: usize) -> usize {
    if sel < scroll {
        sel
    } else if sel - scroll >= visible_rows() {
        (sel - visible_rows() + 1) as usize
    } else {
        scroll
    }
}

/// The trimmed pieces that are not empty, in order.
pub open spec fn trimmed_nonempty(ps: Seq<Seq<char>>) -> Seq<Seq<char>>
    decreases ps.len(),
{
    if ps.len() == 0 {
        Seq::empty()
    } else {
        let r = trimmed_nonempty(ps.drop_last());
        let t = trim_seq(ps.last());
        if t.len() > 0 {
            r.push(t)
        } else {
            r
        }
    }
}

/// The tags typed in the form: the comma-separated pieces, trimmed, without empty ones.
pub open spec fn tag_list(s: Seq<char>) -> Seq<Seq<char>> {
    trimmed_nonempty(split_seq(s, ','))
}

/// A description typed in the form: the trimmed text, or none if it is blank.
pub open spec fn description_of(s: Seq<char>) -> Option<Seq<char>> {
    let t = trim_seq(s);
    if t.len() > 0 {
        Some(t)
    } else {
        None
    }
}

/// The planner with the form closed and emptied.
pub open spec fn form_reset(v: PlannerView) -> PlannerView {
    PlannerView {
        mode: PlannerMode::Normal,
        input: Seq::empty(),
        cursor: 0,
        scratch_title: Seq::empty(),
        scratch_tags: Seq::empty(),
        scratch_desc: Seq::empty(),
        ..v
    }
}

/// The selection after the list shrank: kept on the last task if it fell off the end.
pub open spec fn sel_after_shrink(sel: usize, len: nat) -> usize {
    if sel >= len && len > 0 {
        (len - 1) as usize
    } else {
        sel
    }
}

/// A key in the planner's list view.
pub open spec fn planner_normal(v: PlannerView, k: KeyCode) -> (PlannerView, PlannerKeyOutcome) {
    let nothing = PlannerKeyOutcome { close: false, save: false };
    let saved = PlannerKeyOutcome { close: false, save: true };
    let on_list = v.focus == PlannerFocus::List;
    let len = v.tasks.len();
    let sel = v.selected;
    if quit_key(k) {
        (v, PlannerKeyOutcome { close: true, save: false })
    } else if k == KeyCode::Tab {
        (
            PlannerView {
                focus: if on_list {
                    PlannerFocus::Detail
                } else {
                    PlannerFocus::List
                },
                ..v
            },
            nothing,
        )
    } else if up_key(k) && on_list {
        let s = if sel > 0 {
            (sel - 1) as usize
        } else {
            sel
        };
        (PlannerView { selected: s, scroll: clamped_scroll(s, v.scroll), ..v }, nothing)
    } else if down_key(k) && on_list {
        let s = if sel + 1 < len {
            (sel + 1) as usize
        } else {
            sel
        };
        (PlannerView { selected: s, scroll: clamped_scroll(s, v.scroll), ..v }, nothing)
    } else if k == KeyCode::Char(' ') && on_list {
        if sel < len {
            (
                PlannerView {
                    tasks: v.tasks.update(sel as int, TaskView { completed: !v.tasks[sel as int].completed, ..v.tasks[sel as int] }),
                    history: after_push(v.history, ActionView::Toggle { id: v.tasks[sel as int].id }),
                    ..v
                },
                saved,
            )
        } else {
            (v, nothing)
        }
    } else if k == KeyCode::Char('a') {
        (
            PlannerView {
                mode: PlannerMode::AddingTask,
                field: InputField::Title,
                input: Seq::empty(),
                cursor: 0,
                scratch_title: Seq::empty(),
                scratch_tags: Seq::empty(),
                scratch_desc: Seq::empty(),
                ..v
            },
            nothing,
        )
    } else if k == KeyCode::Char('e') && on_list {
        if sel < len {
            let t = v.tasks[sel as int];
            (
                PlannerView {
                    mode: PlannerMode::EditingTask,
                    field: InputField::Title,
                    scratch_title: t.title,
                    scratch_tags: join_seq(t.tags, ", "@),
                    scratch_desc: match t.description {
                        Some(d) => d,
                        None => Seq::empty(),
                    },
                    input: t.title,
                    cursor: t.title.len() as usize,
                    ..v
                },
                nothing,
            )
        } else {
            (v, nothing)
        }
    } else if k == KeyCode::Char('d') && on_list {
        if len > 0 {
            (PlannerView { mode: PlannerMode::ConfirmDelete, ..v }, nothing)
        } else {
            (v, nothing)
        }
    } else if k == KeyCode::Char('u') {
        if v.history.undo.len() > 0 {
            let ts = undo_effect(v.history.undo.last(), v.tasks);
            (
                PlannerView {
                    tasks: ts,
                    history: after_undo(v.history),
                    selected: sel_after_shrink(sel, ts.len()),
                    ..v
                },
                saved,
            )
        } else {
            (PlannerView { selected: sel_after_shrink(sel, len), ..v }, saved)
        }
    } else if k == KeyCode::Char('r') {
        if v.history.redo.len() > 0 {
            (
                PlannerView {
                    tasks: redo_effect(v.history.redo.last(), v.tasks),
                    history: after_redo(v.history),
                    ..v
                },
                saved,
            )
        } else {
            (v, saved)
        }
    } else {
        (v, nothing)
    }
}

/// Submitting the form: a new task, or the edited task's new title, description and
/// tags; `fresh_id` and `fresh_time` are those of a new task.
pub open spec fn planner_submit(v: PlannerView, fresh_id: Seq<char>, fresh_time: i64) -> (
    PlannerView,
    PlannerKeyOutcome,
) {
    let title = trim_seq(v.scratch_title);
    let tags = tag_list(v.scratch_tags);
    let desc = description_of(trim_seq(v.input));
    let r = form_reset(v);
    if title.len() == 0 {
        (r, PlannerKeyOutcome { close: false, save: false })
    } else if v.mode == PlannerMode::AddingTask {
        let t = TaskView {
            id: fresh_id,
            title,
            description: desc,
            tags,
            completed: false,
            created_at: fresh_time,
            updated_at: fresh_time,
            completed_at: None,
        };
        (
            PlannerView {
                tasks: v.tasks.push(t),
                history: after_push(v.history, ActionView::Add { task: t }),
                selected: v.tasks.len() as usize,
                ..r
            },
            PlannerKeyOutcome { close: false, save: true },
        )
    } else if v.selected < v.tasks.len() {
        let old = v.tasks[v.selected as int];
        let h1 = after_push(
            v.history,
            ActionView::UpdateTitle { id: old.id, old_title: old.title, new_title: title },
        );
        let h2 = after_push(
            h1,
            ActionView::UpdateDescription { id: old.id, old_desc: old.description, new_desc: desc },
        );
        let h3 = after_push(
            h2,
            ActionView::UpdateTags { id: old.id, old_tags: old.tags, new_tags: tags },
        );
        (
            PlannerView {
                tasks: v.tasks.update(
                    v.selected as int,
                    TaskView { title, description: desc, tags, ..old },
                ),
                history: h3,
                ..r
            },
            PlannerKeyOutcome { close: false, save: true },
        )
    } else {
        (r, PlannerKeyOutcome { close: false, save: true })
    }
}

/// A key while the add/edit form is open.
pub open spec fn planner_form(v: PlannerView, k: KeyCode, fresh_id: Seq<char>, fresh_time: i64) -> (
    PlannerView,
    PlannerKeyOutcome,
) {
    let nothing = PlannerKeyOutcome { close: false, save: false };
    if k == KeyCode::Esc {
        (form_reset(v), nothing)
    } else if k == KeyCode::Enter || k == KeyCode::Tab {
        match v.field {
            InputField::Title => if trim_seq(v.input).len() > 0 {
                (
                    PlannerView {
                        scratch_title: v.input,
                        input: v.scratch_tags,
                        cursor: v.scratch_tags.len() as usize,
                        field: InputField::Tags,
                        ..v
                    },
                    nothing,
                )
            } else {
                (v, nothing)
            },
            InputField::Tags => (
                PlannerView {
                    scratch_tags: v.input,
                    input: v.scratch_desc,
                    cursor: v.scratch_desc.len() as usize,
                    field: InputField::Description,
                    ..v
                },
                nothing,
            ),
            InputField::Description => if k == KeyCode::Tab {
                (
                    PlannerView {
                        scratch_desc: v.input,
                        input: v.scratch_title,
                        cursor: v.scratch_title.len() as usize,
                        field: InputField::Title,
                        ..v
                    },
                    nothing,
                )
            } else {
                planner_submit(v, fresh_id, fresh_time)
            },
        }
    } else {
        let (input, cursor) = edited(v.input, v.cursor as int, k);
        (PlannerView { input, cursor: cursor as usize, ..v }, nothing)
    }
}

/// A key while a deletion waits for confirmation: `y` or Enter deletes the selected task.
pub open spec fn planner_confirm(v: PlannerView, k: KeyCode) -> (PlannerView, PlannerKeyOutcome) {
    let n = PlannerView { mode: PlannerMode::Normal, ..v };
    if (k == KeyCode::Char('y') || k == KeyCode::Enter) && v.selected < v.tasks.len() {
        let ts = v.tasks.remove(v.selected as int);
        (
            PlannerView {
                tasks: ts,
                history: after_push(
                    v.history,
                    ActionView::Delete { task: v.tasks[v.selected as int], index: v.selected },
                ),
                selected: sel_after_shrink(v.selected, ts.len()),
                ..n
            },
            PlannerKeyOutcome { close: false, save: true },
        )
    } else {
        (n, PlannerKeyOutcome { close: false, save: false })
    }
}

/// The planner after a key, and what it asks of its caller. `fresh_id` and `fresh_time`
/// are the id and creation time of the task that the key adds, if it adds one.
pub open spec fn planner_next(v: PlannerView, k: KeyCode, fresh_id: Seq<char>, fresh_time: i64) -> (
    PlannerView,
    PlannerKeyOutcome,
) {
    match v.mode {
        PlannerMode::Normal => planner_normal(v, k),
        PlannerMode::AddingTask | PlannerMode::EditingTask => planner_form(v, k, fresh_id, fresh_time),
        PlannerMode::ConfirmDelete => planner_confirm(v, k),
    }
}

/// What a key needs, for the planner to handle it: the field can grow by a character,
/// and an undo puts a deleted task back at a position that exists.
pub open spec fn planner_key_ok(v: PlannerView, k: KeyCode) -> bool {
    &&& planner_wf(v)
    &&& v.input.len() < usize::MAX
    &&& (v.mode == PlannerMode::Normal && k == KeyCode::Char('u') && v.history.undo.len() > 0)
        ==> undo_applicable(v.history.undo.last(), v.tasks.len())
}

} // verus!

verus! {

impl PlannerOverlay {
    /// The planner on the given tasks: first task selected, empty history, form closed.
    pub fn new(tasks: Vec<Task>) -> (ov: PlannerOverlay)
        ensures
            ov@ == (PlannerView {
                tasks: tasks_view(tasks@),
                history: HistoryView { undo: Seq::empty(), redo: Seq::empty() },
                selected: 0,
                focus: PlannerFocus::List,
                mode: PlannerMode::Normal,
                input: Seq::empty(),
                cursor: 0,
                field: InputField::Title,
                scroll: 0,
                scratch_title: Seq::empty(),
                scratch_tags: Seq::empty(),
                scratch_desc: Seq::empty(),
            }),
    {
        PlannerOverlay {
            tasks,
            history: History::new(),
            selected: 0,
            focus: PlannerFocus::List,
            mode: PlannerMode::Normal,
            input_buf: String::new(),
            input_cursor: 0,
            input_field: InputField::Title,
            scroll: 0,
            scratch_title: String::new(),
            scratch_tags: String::new(),
            scratch_desc: String::new(),
        }
    }

    /// The selected task, if the selection is on one.
    pub fn selected_task(&self) -> (r: Option<&Task>)
        ensures
            self.selected < self.tasks.len() ==> r == Some(&self.tasks@[self.selected as int]),
            self.selected >= self.tasks.len() ==> r is None,
    {
        if self.selected < self.tasks.len() {
            Some(&self.tasks[self.selected])
        } else {
            None
        }
    }

    /// The task list to write to disk.
    pub fn save(&self) -> (l: TaskList)
        ensures
            tasks_view(l.tasks@) == self@.tasks,
    {
        TaskList { tasks: copy_tasks(&self.tasks) }
    }
}

/// The text of the form's scratch fields: title, tags and description.
pub fn planner_scratch_peek(ov: &PlannerOverlay) -> (r: (String, String, String))
    ensures
        r.0@ == ov@.scratch_title,
        r.1@ == ov@.scratch_tags,
        r.2@ == ov@.scratch_desc,
{
    (ov.scratch_title.clone(), ov.scratch_tags.clone(), ov.scratch_desc.clone())
}

/// Scrolls the list so that the selected row is visible.
pub fn clamp_scroll(ov: &mut PlannerOverlay)
    ensures
        final(ov)@ == (PlannerView { scroll: clamped_scroll(old(ov).selected, old(ov).scroll), ..old(ov)@ }),
{
    if ov.selected < ov.scroll {
        ov.scroll = ov.selected;
    } else if ov.selected - ov.scroll >= 15 {
        ov.scroll = ov.selected - 15 + 1;
    }
}

/// The tags typed in the form (see `tag_list`).
pub fn tags_from_text(s: &str) -> (r: Vec<String>)
    ensures
        r.deep_view() == tag_list(s@),
{
    let pieces = split_chars(&chars_of(s), ',');
    let ghost ps = pieces@.map_values(|l: Vec<char>| l@);
    let mut r: Vec<String> = Vec::new();
    let mut i: usize = 0;
    while i < pieces.len()
        invariant
            i <= pieces.len(),
            ps == pieces@.map_values(|l: Vec<char>| l@),
            ps == split_seq(s@, ','),
            r.deep_view() == trimmed_nonempty(ps.take(i as int)),
        decreases pieces.len() - i,
    {
        assert(ps.take(i + 1).drop_last() =~= ps.take(i as int));
        assert(ps[i as int] == pieces@[i as int]@);
        let t = trim_chars(&pieces[i]);
        if t.len() > 0 {
            let ghost before = r.deep_view();
            r.push(string_of(&t));
            assert(r.deep_view() =~= before.push(t@));
        }
        i += 1;
    }
    assert(ps.take(pieces.len() as int) =~= ps);
    r
}

/// The tags joined with ", ".
fn join_tags(tags: &Vec<String>) -> (r: String)
    ensures
        r@ == join_seq(tags.deep_view(), ", "@),
{
    let mut pieces: Vec<Vec<char>> = Vec::new();
    let mut i: usize = 0;
    while i < tags.len()
        invariant
            i <= tags.len(),
            pieces@.map_values(|l: Vec<char>| l@) == tags.deep_view().take(i as int),
        decreases tags.len() - i,
    {
        let ghost before = pieces@;
        pieces.push(chars_of(tags[i].as_str()));
        assert(pieces@.map_values(|l: Vec<char>| l@) =~= before.map_values(|l: Vec<char>| l@).push(tags[i as int]@));
        assert(tags.deep_view().take(i + 1) =~= tags.deep_view().take(i as int).push(tags[i as int]@));
        i += 1;
    }
    assert(tags.deep_view().take(tags.len() as int) =~= tags.deep_view());
    let sep = chars_of(", ");
    let j = join_chars(&pieces, &sep);
    string_of(&j)
}

/// Empties the form and returns to the list.
fn reset_form(ov: &mut PlannerOverlay)
    ensures
        final(ov)@ == form_reset(old(ov)@),
{
    ov.mode = PlannerMode::Normal;
    clear_string(&mut ov.input_buf);
    ov.input_cursor = 0;
    clear_string(&mut ov.scratch_title);
    clear_string(&mut ov.scratch_tags);
    clear_string(&mut ov.scratch_desc);
}

} // verus!

verus! {

/// Moves the selection up one task, scrolling to keep it visible.
fn select_up(ov: &mut PlannerOverlay)
    ensures
        ({
            let s = if old(ov).selected > 0 { (old(ov).selected - 1) as usize } else { old(ov).selected };
            final(ov)@ == (PlannerView { selected: s, scroll: clamped_scroll(s, old(ov).scroll), ..old(ov)@ })
        }),
{
    if ov.selected > 0 {
        ov.selected = ov.selected - 1;
    }
    clamp_scroll(ov);
}

/// Moves the selection down one task, scrolling to keep it visible.
fn select_down(ov: &mut PlannerOverlay)
    requires
        old(ov).selected < usize::MAX,
    ensures
        ({
            let s = if old(ov).selected + 1 < old(ov).tasks.len() { (old(ov).selected + 1) as usize } else { old(ov).selected };
            final(ov)@ == (PlannerView { selected: s, scroll: clamped_scroll(s, old(ov).scroll), ..old(ov)@ })
        }),
{
    if ov.selected + 1 < ov.tasks.len() {
        ov.selected = ov.selected + 1;
    }
    clamp_scroll(ov);
}

/// A key in the planner's list view (see `planner_normal`).
fn planner_normal_key(ov: &mut PlannerOverlay, k: KeyCode) -> (o: PlannerKeyOutcome)
    requires
        old(ov).mode == PlannerMode::Normal,
        planner_key_ok(old(ov)@, k),
    ensures
        planner_wf(final(ov)@),
        (final(ov)@, o) == planner_normal(old(ov)@, k),
{
    let nothing = PlannerKeyOutcome { close: false, save: false };
    let saved = PlannerKeyOutcome { close: false, save: true };
    let on_list = ov.focus == PlannerFocus::List;
    match k {
        KeyCode::Esc | KeyCode::Char('q') => PlannerKeyOutcome { close: true, save: false },
        KeyCode::Tab => {
            ov.focus = if on_list {
                PlannerFocus::Detail
            } else {
                PlannerFocus::List
            };
            nothing
        },
        KeyCode::Up if on_list => {
            select_up(ov);
            nothing
        },
        KeyCode::Char('k') if on_list => {
            select_up(ov);
            nothing
        },
        KeyCode::Down if on_list => {
            select_down(ov);
            nothing
        },
        KeyCode::Char('j') if on_list => {
            select_down(ov);
            nothing
        },
        KeyCode::Char(' ') if on_list => {
            let sel = ov.selected;
            if sel < ov.tasks.len() {
                let mut t = ov.tasks[sel].duplicate();
                ov.history.push(Action::Toggle { id: t.id.clone() });
                t.toggle();
                replace_at(&mut ov.tasks, sel, t);
                saved
            } else {
                nothing
            }
        },
        KeyCode::Char('a') => {
            ov.mode = PlannerMode::AddingTask;
            ov.input_field = InputField::Title;
            clear_string(&mut ov.input_buf);
            ov.input_cursor = 0;
            clear_string(&mut ov.scratch_title);
            clear_string(&mut ov.scratch_tags);
            clear_string(&mut ov.scratch_desc);
            nothing
        },
        KeyCode::Char('e') if on_list => {
            let sel = ov.selected;
            if sel < ov.tasks.len() {
                let title = ov.tasks[sel].title.clone();
                let tags = join_tags(&ov.tasks[sel].tags);
                let desc = match &ov.tasks[sel].description {
                    Some(d) => d.clone(),
                    None => String::new(),
                };
                ov.mode = PlannerMode::EditingTask;
                ov.input_field = InputField::Title;
                ov.input_cursor = char_count(title.as_str());
                ov.input_buf = title.clone();
                ov.scratch_title = title;
                ov.scratch_tags = tags;
                ov.scratch_desc = desc;
            }
            nothing
        },
        KeyCode::Char('d') if on_list => {
            if ov.tasks.len() > 0 {
                ov.mode = PlannerMode::ConfirmDelete;
            }
            nothing
        },
        KeyCode::Char('u') => {
            ov.history.undo(&mut ov.tasks);
            if ov.selected >= ov.tasks.len() && ov.tasks.len() > 0 {
                ov.selected = ov.tasks.len() - 1;
            }
            saved
        },
        KeyCode::Char('r') => {
            ov.history.redo(&mut ov.tasks);
            saved
        },
        _ => nothing,
    }
}

} // verus!

verus! {

/// Submits the form (see `planner_submit`); a new task gets a fresh id and the current time.
fn planner_submit_form(ov: &mut PlannerOverlay) -> (o: PlannerKeyOutcome)
    requires
        old(ov).mode == PlannerMode::AddingTask || old(ov).mode == PlannerMode::EditingTask,
        planner_wf(old(ov)@),
    ensures
        planner_wf(final(ov)@),
        (final(ov)@, o) == planner_submit(
            old(ov)@,
            final(ov)@.tasks.last().id,
            final(ov)@.tasks.last().created_at,
        ),
{
    let desc_val = trim(ov.input_buf.as_str());
    let title = trim(ov.scratch_title.as_str());
    let tags = tags_from_text(ov.scratch_tags.as_str());
    let d = trim(desc_val.as_str());
    let description = if char_count(d.as_str()) > 0 {
        Some(d)
    } else {
        None
    };
    let ghost v = ov@;
    if char_count(title.as_str()) == 0 {
        reset_form(ov);
        return PlannerKeyOutcome { close: false, save: false };
    }
    if ov.mode == PlannerMode::AddingTask {
        let mut task = Task::create(title);
        task.set_tags(tags);
        task.update_description(description);
        let copy = task.duplicate();
        ov.history.push(Action::Add { task: copy });
        let ghost before = ov.tasks@;
        ov.tasks.push(task);
        assert(tasks_view(ov.tasks@) =~= tasks_view(before).push(task@));
        ov.selected = ov.tasks.len() - 1;
    } else {
        let sel = ov.selected;
        if sel < ov.tasks.len() {
            let mut t = ov.tasks[sel].duplicate();
            ov.history.push(
                Action::UpdateTitle {
                    id: t.id.clone(),
                    old_title: t.title.clone(),
                    new_title: title.clone(),
                },
            );
            ov.history.push(
                Action::UpdateDescription {
                    id: t.id.clone(),
                    old_desc: clone_opt_string(&t.description),
                    new_desc: clone_opt_string(&description),
                },
            );
            ov.history.push(
                Action::UpdateTags {
                    id: t.id.clone(),
                    old_tags: clone_strings(&t.tags),
                    new_tags: clone_strings(&tags),
                },
            );
            t.update_title(title);
            t.update_description(description);
            t.set_tags(tags);
            replace_at(&mut ov.tasks, sel, t);
        }
    }
    reset_form(ov);
    PlannerKeyOutcome { close: false, save: true }
}

/// A key while the add/edit form is open (see `planner_form`).
fn planner_form_key(ov: &mut PlannerOverlay, k: KeyCode) -> (o: PlannerKeyOutcome)
    requires
        old(ov).mode == PlannerMode::AddingTask || old(ov).mode == PlannerMode::EditingTask,
        planner_key_ok(old(ov)@, k),
    ensures
        planner_wf(final(ov)@),
        (final(ov)@, o) == planner_form(
            old(ov)@,
            k,
            final(ov)@.tasks.last().id,
            final(ov)@.tasks.last().created_at,
        ),
{
    let nothing = PlannerKeyOutcome { close: false, save: false };
    match k {
        KeyCode::Esc => {
            reset_form(ov);
            nothing
        },
        KeyCode::Enter | KeyCode::Tab => {
            match ov.input_field {
                InputField::Title => {
                    let t = trim(ov.input_buf.as_str());
                    if char_count(t.as_str()) > 0 {
                        let mut input = String::new();
                        std::mem::swap(&mut input, &mut ov.input_buf);
                        ov.scratch_title = input;
                        ov.input_buf = ov.scratch_tags.clone();
                        ov.input_cursor = char_count(ov.input_buf.as_str());
                        ov.input_field = InputField::Tags;
                    }
                    nothing
                },
                InputField::Tags => {
                    let mut input = String::new();
                    std::mem::swap(&mut input, &mut ov.input_buf);
                    ov.scratch_tags = input;
                    ov.input_buf = ov.scratch_desc.clone();
                    ov.input_cursor = char_count(ov.input_buf.as_str());
                    ov.input_field = InputField::Description;
                    nothing
                },
                InputField::Description => {
                    if k == KeyCode::Tab {
                        let mut input = String::new();
                        std::mem::swap(&mut input, &mut ov.input_buf);
                        ov.scratch_desc = input;
                        ov.input_buf = ov.scratch_title.clone();
                        ov.input_cursor = char_count(ov.input_buf.as_str());
                        ov.input_field = InputField::Title;
                        nothing
                    } else {
                        planner_submit_form(ov)
                    }
                },
            }
        },
        _ => {
            edit_field(&mut ov.input_buf, &mut ov.input_cursor, k);
            nothing
        },
    }
}

/// A key while a deletion waits for confirmation (see `planner_confirm`).
fn planner_confirm_key(ov: &mut PlannerOverlay, k: KeyCode) -> (o: PlannerKeyOutcome)
    requires
        old(ov).mode == PlannerMode::ConfirmDelete,
        planner_wf(old(ov)@),
    ensures
        planner_wf(final(ov)@),
        (final(ov)@, o) == planner_confirm(old(ov)@, k),
{
    let yes = match k {
        KeyCode::Char('y') | KeyCode::Enter => true,
        _ => false,
    };
    let sel = ov.selected;
    let mut o = PlannerKeyOutcome { close: false, save: false };
    if yes && sel < ov.tasks.len() {
        let ghost before = ov.tasks@;
        let task = ov.tasks.remove(sel);
        assert(tasks_view(ov.tasks@) =~= tasks_view(before).remove(sel as int));
        ov.history.push(Action::Delete { task, index: sel });
        if ov.selected >= ov.tasks.len() && ov.tasks.len() > 0 {
            ov.selected = ov.tasks.len() - 1;
        }
        o = PlannerKeyOutcome { close: false, save: true };
    }
    ov.mode = PlannerMode::Normal;
    o
}

/// Handles a key in the planner: moving through and toggling tasks, the add/edit form,
/// deletion with confirmation, undo and redo. Returns whether to close the planner and
/// whether the task list changed in a way to be written to disk.
pub fn handle_planner_key(ov: &mut PlannerOverlay, key: KeyEvent) -> (o: PlannerKeyOutcome)
    requires
        planner_key_ok(old(ov)@, key.code),
    ensures
        planner_wf(final(ov)@),
        (final(ov)@, o) == planner_next(
            old(ov)@,
            key.code,
            final(ov)@.tasks.last().id,
            final(ov)@.tasks.last().created_at,
        ),
{
    match ov.mode {
        PlannerMode::Normal => planner_normal_key(ov, key.code),
        PlannerMode::AddingTask | PlannerMode::EditingTask => planner_form_key(ov, key.code),
        PlannerMode::ConfirmDelete => planner_confirm_key(ov, key.code),
    }
}

proof fn lemma_trim_start_first(s: Seq<char>)
    ensures
        trim_start_seq(s).len() > 0 ==> !is_ws(trim_start_seq(s)[0]),
    decreases s.len(),
{
    if s.len() > 0 && is_ws(s[0]) {
        lemma_trim_start_first(s.drop_first());
    }
}

proof fn lemma_trim_end_ends(s: Seq<char>)
    ensures
        trim_end_seq(s).len() <= s.len(),
        trim_end_seq(s) == s.take(trim_end_seq(s).len() as int),
        trim_end_seq(s).len() > 0 ==> !is_ws(trim_end_seq(s).last()),
    decreases s.len(),
{
    if s.len() > 0 && is_ws(s.last()) {
        lemma_trim_end_ends(s.drop_last());
        assert(s.drop_last().take(trim_end_seq(s).len() as int) =~= s.take(trim_end_seq(s).len() as int));
    } else {
        assert(s.take(s.len() as int) =~= s);
    }
}

/// A trimmed text that is not empty starts and ends with a character that is not white
/// space.
proof fn lemma_trimmed_ends(p: Seq<char>)
    ensures
        trim_seq(p).len() > 0 ==> !is_ws(trim_seq(p)[0]) && !is_ws(trim_seq(p).last()),
{
    let a = trim_start_seq(p);
    lemma_trim_start_first(p);
    lemma_trim_end_ends(a);
    if trim_seq(p).len() > 0 {
        assert(trim_seq(p)[0] == a[0]);
    }
}

proof fn lemma_trimmed_nonempty_filter(ps: Seq<Seq<char>>)
    ensures
        trimmed_nonempty(ps) == ps.map_values(|p: Seq<char>| trim_seq(p)).filter(|t: Seq<char>| t.len() > 0),
    decreases ps.len(),
{
    reveal(Seq::filter);
    if ps.len() > 0 {
        lemma_trimmed_nonempty_filter(ps.drop_last());
        let m = ps.map_values(|p: Seq<char>| trim_seq(p));
        assert(m.drop_last() =~= ps.drop_last().map_values(|p: Seq<char>| trim_seq(p)));
        assert(m.last() == trim_seq(ps.last()));
    } else {
        assert(ps.map_values(|p: Seq<char>| trim_seq(p)) =~= Seq::<Seq<char>>::empty());
    }
}

proof fn lemma_trimmed_nonempty_clean(ps: Seq<Seq<char>>)
    ensures
        forall|k: int|
            0 <= k < trimmed_nonempty(ps).len() ==> #[trigger] trimmed_nonempty(ps)[k].len() > 0 && !is_ws(
                trimmed_nonempty(ps)[k][0],
            ) && !is_ws(trimmed_nonempty(ps)[k].last()),
    decreases ps.len(),
{
    if ps.len() > 0 {
        lemma_trimmed_nonempty_clean(ps.drop_last());
        lemma_trimmed_ends(ps.last());
        let r = trimmed_nonempty(ps.drop_last());
        let all = trimmed_nonempty(ps);
        assert forall|k: int| 0 <= k < all.len() implies #[trigger] all[k].len() > 0 && !is_ws(all[k][0]) && !is_ws(
            all[k].last(),
        ) by {
            if k < r.len() {
                assert(all[k] == r[k]);
            } else {
                assert(all[k] == trim_seq(ps.last()));
            }
        }
    }
}

/// The tags typed in the form are the comma-separated pieces, each trimmed, in order,
/// without the pieces that are blank: no tag is empty, and none starts or ends with
/// white space.
pub proof fn law_tags_are_the_trimmed_pieces(s: Seq<char>)
    ensures
        tag_list(s) == split_seq(s, ',').map_values(|p: Seq<char>| trim_seq(p)).filter(|t: Seq<char>| t.len() > 0),
        forall|k: int|
            0 <= k < tag_list(s).len() ==> #[trigger] tag_list(s)[k].len() > 0 && !is_ws(tag_list(s)[k][0])
                && !is_ws(tag_list(s)[k].last()),
{
    lemma_trimmed_nonempty_filter(split_seq(s, ','));
    lemma_trimmed_nonempty_clean(split_seq(s, ','));
}

} // verus!
