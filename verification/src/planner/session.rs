use vstd::prelude::*;

use crate::planner::history::{
    after_push, after_redo, after_undo, law_undo_delete, redo_effect, undo_applicable,
    undo_effect, Action, ActionView, History, HistoryView,
};
use crate::planner::storage::{copy_tasks, TaskList};
use crate::planner::task::{tasks_view, Task, TaskView};
use crate::text::{char_count, string_from, trim, trim_seq};
use crate::tui::keys::KeyCode;
use crate::tui::planner_overlay::{description_of, tag_list, tags_from_text};

verus! {

/// The full-screen planner: the task list, its history and the selected row. The row
/// after the last task is "add a new task".
pub struct PlannerSession {
    pub tasks: Vec<Task>,
    pub history: History,
    pub selected: usize,
}

/// The abstract value of a planner session.
pub struct SessionView {
    pub tasks: Seq<TaskView>,
    pub history: HistoryView,
    pub selected: usize,
}

impl View for PlannerSession {
    type V = SessionView;

    open spec fn view(&self) -> SessionView {
        SessionView { tasks: tasks_view(self.tasks@), history: self.history@, selected: self.selected }
    }
}

/// What the session asks of the caller after a key.
#[derive(Debug, Clone, Copy, PartialEq, Eq, Structural)]
pub enum SessionStep {
    Quit,
    /// Go on; `redraw` when the screen changed, `save` when the task list must be written.
    Continue { redraw: bool, save: bool },
    /// Ask for a new task (then call `session_add`).
    AskNewTask,
    /// Ask for the selected task's new title, description and tags (then call
    /// `session_edit`).
    AskEdit,
}

/// The selection after the list shrank: on the last task if it fell off the end.
pub open spec fn clamp_to_last(sel: usize, len: nat) -> usize {
    if sel >= len && len > 0 {
        (len - 1) as usize
    } else {
        sel
    }
}

/// The session after a key, and what it asks of the caller.
pub open spec fn session_next(v: SessionView, k: KeyCode) -> (SessionView, SessionStep) {
    let len = v.tasks.len();
    let sel = v.selected;
    let same = SessionStep::Continue { redraw: false, save: false };
    let changed = SessionStep::Continue { redraw: true, save: true };
    match k {
        KeyCode::Char('q') => (v, SessionStep::Quit),
        KeyCode::Up => if sel > 0 {
            (SessionView { selected: (sel - 1) as usize, ..v }, SessionStep::Continue { redraw: true, save: false })
        } else {
            (v, same)
        },
        KeyCode::Down => if sel < len {
            (SessionView { selected: (sel + 1) as usize, ..v }, SessionStep::Continue { redraw: true, save: false })
        } else {
            (v, same)
        },
        KeyCode::Char(' ') => if sel < len {
            (
                SessionView {
                    tasks: v.tasks.update(sel as int, TaskView { completed: !v.tasks[sel as int].completed, ..v.tasks[sel as int] }),
                    history: after_push(v.history, ActionView::Toggle { id: v.tasks[sel as int].id }),
                    ..v
                },
                changed,
            )
        } else {
            (v, same)
        },
        KeyCode::Char('d') => if sel < len {
            let ts = v.tasks.remove(sel as int);
            (
                SessionView {
                    tasks: ts,
                    history: after_push(v.history, ActionView::Delete { task: v.tasks[sel as int], index: sel }),
                    selected: clamp_to_last(sel, ts.len()),
                },
                changed,
            )
        } else {
            (v, same)
        },
        KeyCode::Char('a') => (v, SessionStep::AskNewTask),
        KeyCode::Char('e') => if sel < len {
            (v, SessionStep::AskEdit)
        } else {
            (v, same)
        },
        KeyCode::Char('u') => if v.history.undo.len() > 0 {
            let ts = undo_effect(v.history.undo.last(), v.tasks);
            (
                SessionView { tasks: ts, history: after_undo(v.history), selected: clamp_to_last(sel, ts.len()) },
                changed,
            )
        } else {
            (v, same)
        },
        KeyCode::Char('r') => if v.history.redo.len() > 0 {
            (
                SessionView {
                    tasks: redo_effect(v.history.redo.last(), v.tasks),
                    history: after_redo(v.history),
                    ..v
                },
                changed,
            )
        } else {
            (v, same)
        },
        _ => (v, same),
    }
}

/// What a key needs: the selection can move down, and an undo puts a deleted task back
/// at a position that exists.
pub open spec fn session_key_ok(v: SessionView, k: KeyCode) -> bool {
    &&& v.selected < usize::MAX
    &&& (k == KeyCode::Char('u') && v.history.undo.len() > 0) ==> undo_applicable(
        v.history.undo.last(),
        v.tasks.len(),
    )
}

/// In the planner, deleting the selected task and then undoing brings back the task
/// list as it was, with the deletion ready to be redone.
pub proof fn law_session_delete_then_undo(v: SessionView)
    requires
        v.selected < v.tasks.len(),
    ensures
        session_next(session_next(v, KeyCode::Char('d')).0, KeyCode::Char('u')).0.tasks == v.tasks,
        session_next(session_next(v, KeyCode::Char('d')).0, KeyCode::Char('u')).0.history.undo
            == v.history.undo,
{
    let w = session_next(v, KeyCode::Char('d')).0;
    assert(w.history.undo.last() == ActionView::Delete { task: v.tasks[v.selected as int], index: v.selected });
    law_undo_delete(v.tasks, v.selected);
    assert(w.history.undo.drop_last() =~= v.history.undo);
}

impl PlannerSession {
    /// A session on the given tasks, with the first row selected and an empty history.
    pub fn new(tasks: Vec<Task>) -> (s: PlannerSession)
        ensures
            s@ == (SessionView {
                tasks: tasks_view(tasks@),
                history: HistoryView { undo: Seq::empty(), redo: Seq::empty() },
                selected: 0,
            }),
    {
        PlannerSession { tasks, history: History::new(), selected: 0 }
    }

    /// The task list to write to disk.
    pub fn task_list(&self) -> (l: TaskList)
        ensures
            tasks_view(l.tasks@) == self@.tasks,
    {
        TaskList { tasks: copy_tasks(&self.tasks) }
    }

    /// Whether the session can handle `k` (see `session_key_ok`).
    pub fn accepts(&self, k: KeyCode) -> (b: bool)
        ensures
            b == session_key_ok(self@, k),
    {
        if self.selected == usize::MAX {
            return false;
        }
        match k {
            KeyCode::Char('u') => self.history.undo_is_applicable(&self.tasks),
            _ => true,
        }
    }

    /// Handles a key (see `session_next`).
    pub fn on_key(&mut self, k: KeyCode) -> (step: SessionStep)
        requires
            session_key_ok(old(self)@, k),
        ensures
            (final(self)@, step) == session_next(old(self)@, k),
    {
        let same = SessionStep::Continue { redraw: false, save: false };
        let changed = SessionStep::Continue { redraw: true, save: true };
        match k {
            KeyCode::Char('q') => SessionStep::Quit,
            KeyCode::Up => {
                if self.selected > 0 {
                    self.selected = self.selected - 1;
                    SessionStep::Continue { redraw: true, save: false }
                } else {
                    same
                }
            },
            KeyCode::Down => {
                if self.selected < self.tasks.len() {
                    self.selected = self.selected + 1;
                    SessionStep::Continue { redraw: true, save: false }
                } else {
                    same
                }
            },
            KeyCode::Char(' ') => {
                let sel = self.selected;
                if sel < self.tasks.len() {
                    let mut t = self.tasks[sel].duplicate();
                    self.history.push(Action::Toggle { id: t.id.clone() });
                    t.toggle();
                    crate::planner::history::replace_at(&mut self.tasks, sel, t);
                    changed
                } else {
                    same
                }
            },
            KeyCode::Char('d') => {
                let sel = self.selected;
                if sel < self.tasks.len() {
                    let ghost before = self.tasks@;
                    let task = self.tasks.remove(sel);
                    assert(tasks_view(self.tasks@) =~= tasks_view(before).remove(sel as int));
                    self.history.push(Action::Delete { task, index: sel });
                    if self.selected >= self.tasks.len() && self.tasks.len() > 0 {
                        self.selected = self.tasks.len() - 1;
                    }
                    changed
                } else {
                    same
                }
            },
            KeyCode::Char('a') => SessionStep::AskNewTask,
            KeyCode::Char('e') => {
                if self.selected < self.tasks.len() {
                    SessionStep::AskEdit
                } else {
                    same
                }
            },
            KeyCode::Char('u') => {
                if self.history.undo(&mut self.tasks) {
                    if self.selected >= self.tasks.len() && self.tasks.len() > 0 {
                        self.selected = self.tasks.len() - 1;
                    }
                    changed
                } else {
                    same
                }
            },
            KeyCode::Char('r') => {
                if self.history.redo(&mut self.tasks) {
                    changed
                } else {
                    same
                }
            },
            _ => same,
        }
    }

    /// Adds a task that the user entered, and records it for undo.
    pub fn add_task(&mut self, task: Task)
        ensures
            final(self)@ == (SessionView {
                tasks: old(self)@.tasks.push(task@),
                history: after_push(old(self)@.history, ActionView::Add { task: task@ }),
                selected: old(self).selected,
            }),
    {
        self.history.push(Action::Add { task: task.duplicate() });
        let ghost before = self.tasks@;
        let ghost tv = task@;
        self.tasks.push(task);
        assert(tasks_view(self.tasks@) =~= tasks_view(before).push(tv));
    }

    /// Replaces the selected task's title, description and tags with what the user
    /// entered (the change is not recorded for undo).
    pub fn edit_selected(&mut self, title: String, description: Option<String>, tags: Vec<String>)
        requires
            old(self).selected < old(self).tasks.len(),
        ensures
            final(self)@ == (SessionView {
                tasks: old(self)@.tasks.update(
                    old(self).selected as int,
                    TaskView {
                        title: title@,
                        description: description.deep_view(),
                        tags: tags.deep_view(),
                        ..old(self)@.tasks[old(self).selected as int]
                    },
                ),
                ..old(self)@
            }),
    {
        let sel = self.selected;
        let mut t = self.tasks[sel].duplicate();
        t.update_title(title);
        t.update_description(description);
        t.set_tags(tags);
        crate::planner::history::replace_at(&mut self.tasks, sel, t);
    }
}

/// The task made from the answers to the new-task prompts: none if the title is blank;
/// the description only if it is not blank; the comma-separated tags, trimmed, without
/// empty ones.
pub fn task_from_answers(title: String, description: String, tags_input: &str) -> (r: Option<Task>)
    ensures
        trim_seq(title@).len() == 0 ==> r is None,
        trim_seq(title@).len() > 0 ==> r is Some && r.unwrap()@.title == title@
            && r.unwrap()@.description == (if trim_seq(description@).len() > 0 {
            Some(description@)
        } else {
            None::<Seq<char>>
        }) && r.unwrap()@.tags == (if trim_seq(tags_input@).len() > 0 {
            tag_list(tags_input@)
        } else {
            Seq::<Seq<char>>::empty()
        }) && !r.unwrap()@.completed,
{
    if char_count(trim(title.as_str()).as_str()) == 0 {
        return None;
    }
    let blank_desc = char_count(trim(description.as_str()).as_str()) == 0;
    let blank_tags = char_count(trim(tags_input).as_str()) == 0;
    let mut task = Task::create(title);
    if !blank_desc {
        task.update_description(Some(description));
    }
    if !blank_tags {
        task.set_tags(tags_from_text(tags_input));
    }
    Some(task)
}

/// The edit made from the answers to the edit prompts: none if the title is blank;
/// otherwise the title, the description if it is not blank, and the tags.
pub fn edit_from_answers(title: String, description: String, tags_input: &str) -> (r: Option<(String, Option<String>, Vec<String>)>)
    ensures
        trim_seq(title@).len() == 0 ==> r is None,
        trim_seq(title@).len() > 0 ==> r is Some && r.unwrap().0@ == title@
            && r.unwrap().1.deep_view() == (if trim_seq(description@).len() > 0 {
            Some(description@)
        } else {
            None::<Seq<char>>
        }) && r.unwrap().2.deep_view() == (if trim_seq(tags_input@).len() > 0 {
            tag_list(tags_input@)
        } else {
            Seq::<Seq<char>>::empty()
        }),
{
    if char_count(trim(title.as_str()).as_str()) == 0 {
        return None;
    }
    let desc = if char_count(trim(description.as_str()).as_str()) == 0 {
        None
    } else {
        Some(description)
    };
    let tags = if char_count(trim(tags_input).as_str()) == 0 {
        let v: Vec<String> = Vec::new();
        assert(v.deep_view() =~= Seq::<Seq<char>>::empty());
        v
    } else {
        tags_from_text(tags_input)
    };
    Some((title, desc, tags))
}

// ─── The visible window of the list ──────────────────────────────────────────

/// The rows shown: `available` rows around the selection, within `total` rows.
pub open spec fn window(selected: usize, total: usize, available: usize) -> (usize, usize) {
    let start = if selected > available / 2 { (selected - available / 2) as usize } else { 0 };
    let end = if start + available < total { (start + available) as usize } else { total };
    (start, end)
}

/// The first and one-past-last rows shown (see `window`).
pub fn visible_window(selected: usize, total: usize, available: usize) -> (r: (usize, usize))
    ensures
        r == window(selected, total, available),
{
    let half = available / 2;
    let start = selected.saturating_sub(half);
    let end = if available < total && start < total - available {
        start + available
    } else {
        total
    };
    (start, end)
}

} // verus!
