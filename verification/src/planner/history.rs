use vstd::prelude::*;

use crate::planner::task::{tasks_view, Task, TaskView};
use crate::text::{clone_opt_string, clone_strings};

verus! {

/// One undoable change to the task list.
#[derive(Debug, Clone)]
pub enum Action {
    Add { task: Task },
    Delete { task: Task, index: usize },
    Toggle { id: String },
    UpdateTitle { id: String, old_title: String, new_title: String },
    UpdateDescription { id: String, old_desc: Option<String>, new_desc: Option<String> },
    UpdateTags { id: String, old_tags: Vec<String>, new_tags: Vec<String> },
}

/// The abstract value of an action.
pub enum ActionView {
    Add { task: TaskView },
    Delete { task: TaskView, index: usize },
    Toggle { id: Seq<char> },
    UpdateTitle { id: Seq<char>, old_title: Seq<char>, new_title: Seq<char> },
    UpdateDescription {
        id: Seq<char>,
        old_desc: Option<Seq<char>>,
        new_desc: Option<Seq<char>>,
    },
    UpdateTags { id: Seq<char>, old_tags: Seq<Seq<char>>, new_tags: Seq<Seq<char>> },
}

impl View for Action {
    type V = ActionView;

    open spec fn view(&self) -> ActionView {
        match self {
            Action::Add { task } => ActionView::Add { task: task@ },
            Action::Delete { task, index } => ActionView::Delete { task: task@, index: *index },
            Action::Toggle { id } => ActionView::Toggle { id: id@ },
            Action::UpdateTitle { id, old_title, new_title } => ActionView::UpdateTitle {
                id: id@,
                old_title: old_title@,
                new_title: new_title@,
            },
            Action::UpdateDescription { id, old_desc, new_desc } => ActionView::UpdateDescription {
                id: id@,
                old_desc: old_desc.deep_view(),
                new_desc: new_desc.deep_view(),
            },
            Action::UpdateTags { id, old_tags, new_tags } => ActionView::UpdateTags {
                id: id@,
                old_tags: old_tags.deep_view(),
                new_tags: new_tags.deep_view(),
            },
        }
    }
}

/// The abstract value of a stack of actions.
pub open spec fn actions_view(s: Seq<Action>) -> Seq<ActionView> {
    s.map_values(|a: Action| a@)
}

/// Index of the first task with the given id, or -1 when there is none.
pub open spec fn first_with_id(s: Seq<TaskView>, id: Seq<char>) -> int
    decreases s.len(),
{
    if s.len() == 0 {
        -1
    } else if s[0].id == id {
        0
    } else {
        let r = first_with_id(s.drop_first(), id);
        if r < 0 {
            -1
        } else {
            r + 1
        }
    }
}

/// Applies `f` to the first task with the given id; leaves the list unchanged when there is none.
pub open spec fn modify_first(
    s: Seq<TaskView>,
    id: Seq<char>,
    f: spec_fn(TaskView) -> TaskView,
) -> Seq<TaskView> {
    let i = first_with_id(s, id);
    if i < 0 {
        s
    } else {
        s.update(i, f(s[i]))
    }
}

/// The list without every task that has the given id, the others in their order.
pub open spec fn without_id(s: Seq<TaskView>, id: Seq<char>) -> Seq<TaskView>
    decreases s.len(),
{
    if s.len() == 0 {
        s
    } else {
        let r = without_id(s.drop_last(), id);
        if s.last().id == id {
            r
        } else {
            r.push(s.last())
        }
    }
}

pub open spec fn toggled(t: TaskView) -> TaskView {
    TaskView { completed: !t.completed, ..t }
}

pub open spec fn with_title(title: Seq<char>) -> spec_fn(TaskView) -> TaskView {
    |t: TaskView| TaskView { title: title, ..t }
}

pub open spec fn with_description(d: Option<Seq<char>>) -> spec_fn(TaskView) -> TaskView {
    |t: TaskView| TaskView { description: d, ..t }
}

pub open spec fn with_tags(tags: Seq<Seq<char>>) -> spec_fn(TaskView) -> TaskView {
    |t: TaskView| TaskView { tags: tags, ..t }
}

/// What undoing an action does to the task list.
pub open spec fn undo_effect(a: ActionView, s: Seq<TaskView>) -> Seq<TaskView> {
    match a {
        ActionView::Add { task } => without_id(s, task.id),
        ActionView::Delete { task, index } => s.insert(index as int, task),
        ActionView::Toggle { id } => modify_first(s, id, |t: TaskView| toggled(t)),
        ActionView::UpdateTitle { id, old_title, .. } => modify_first(s, id, with_title(old_title)),
        ActionView::UpdateDescription { id, old_desc, .. } => modify_first(
            s,
            id,
            with_description(old_desc),
        ),
        ActionView::UpdateTags { id, old_tags, .. } => modify_first(s, id, with_tags(old_tags)),
    }
}

/// What redoing an action does to the task list.
pub open spec fn redo_effect(a: ActionView, s: Seq<TaskView>) -> Seq<TaskView> {
    match a {
        ActionView::Add { task } => s.push(task),
        ActionView::Delete { task, .. } => without_id(s, task.id),
        ActionView::Toggle { id } => modify_first(s, id, |t: TaskView| toggled(t)),
        ActionView::UpdateTitle { id, new_title, .. } => modify_first(s, id, with_title(new_title)),
        ActionView::UpdateDescription { id, new_desc, .. } => modify_first(
            s,
            id,
            with_description(new_desc),
        ),
        ActionView::UpdateTags { id, new_tags, .. } => modify_first(s, id, with_tags(new_tags)),
    }
}

/// Undoing the action cannot fail on a list of this length: a deleted task is put back at
/// a position that exists.
pub open spec fn undo_applicable(a: ActionView, len: nat) -> bool {
    a is Delete ==> a->Delete_index <= len
}

/// Undo/redo stacks of planner actions.
pub struct History {
    undo_stack: Vec<Action>,
    redo_stack: Vec<Action>,
}

/// The abstract value of a history: both stacks, most recent action last.
pub struct HistoryView {
    pub undo: Seq<ActionView>,
    pub redo: Seq<ActionView>,
}

impl View for History {
    type V = HistoryView;

    closed spec fn view(&self) -> HistoryView {
        HistoryView {
            undo: actions_view(self.undo_stack@),
            redo: actions_view(self.redo_stack@),
        }
    }
}

/// The history after the most recent action has been undone.
pub open spec fn after_undo(h: HistoryView) -> HistoryView {
    HistoryView { undo: h.undo.drop_last(), redo: h.redo.push(h.undo.last()) }
}

/// The history after the most recently undone action has been redone.
pub open spec fn after_redo(h: HistoryView) -> HistoryView {
    HistoryView { undo: h.undo.push(h.redo.last()), redo: h.redo.drop_last() }
}

/// The history after a new action has been recorded.
pub open spec fn after_push(h: HistoryView, a: ActionView) -> HistoryView {
    HistoryView { undo: h.undo.push(a), redo: Seq::empty() }
}

proof fn lemma_tasks_view_push(s: Seq<Task>, t: Task)
    ensures
        tasks_view(s.push(t)) == tasks_view(s).push(t@),
{
    assert(tasks_view(s.push(t)) =~= tasks_view(s).push(t@));
}

proof fn lemma_actions_view_push(s: Seq<Action>, a: Action)
    ensures
        actions_view(s.push(a)) == actions_view(s).push(a@),
{
    assert(actions_view(s.push(a)) =~= actions_view(s).push(a@));
}

proof fn lemma_actions_view_drop_last(s: Seq<Action>)
    requires
        s.len() > 0,
    ensures
        actions_view(s.drop_last()) == actions_view(s).drop_last(),
        actions_view(s).last() == s.last()@,
{
    assert(actions_view(s.drop_last()) =~= actions_view(s).drop_last());
}

/// `first_with_id` is the first position whose id matches.
proof fn lemma_first_with_id(s: Seq<TaskView>, id: Seq<char>, k: int)
    requires
        0 <= k <= s.len(),
        forall|j: int| 0 <= j < k ==> s[j].id != id,
        k < s.len() ==> s[k].id == id,
    ensures
        first_with_id(s, id) == (if k < s.len() { k } else { -1 }),
    decreases k,
{
    if s.len() == 0 {
    } else if k == 0 {
    } else {
        lemma_first_with_id(s.drop_first(), id, k - 1);
    }
}

/// Position of the first task with the given id.
fn find_by_id(tasks: &Vec<Task>, id: &String) -> (r: Option<usize>)
    ensures
        match r {
            Some(i) => first_with_id(tasks_view(tasks@), id@) == i && i < tasks.len(),
            None => first_with_id(tasks_view(tasks@), id@) == -1,
        },
{
    let mut i: usize = 0;
    while i < tasks.len()
        invariant
            i <= tasks.len(),
            forall|j: int| 0 <= j < i ==> tasks@[j].id@ != id@,
        decreases tasks.len() - i,
    {
        if tasks[i].id == *id {
            proof {
                lemma_first_with_id(tasks_view(tasks@), id@, i as int);
            }
            return Some(i);
        }
        i += 1;
    }
    proof {
        lemma_first_with_id(tasks_view(tasks@), id@, tasks.len() as int);
    }
    None
}

/// Removes every task with the given id, keeping the others in order.
fn remove_with_id(tasks: &mut Vec<Task>, id: &String)
    ensures
        tasks_view(final(tasks)@) == without_id(tasks_view(old(tasks)@), id@),
{
    let mut kept: Vec<Task> = Vec::new();
    let mut i: usize = 0;
    let ghost orig = tasks_view(tasks@);
    while i < tasks.len()
        invariant
            i <= tasks.len(),
            orig == tasks_view(tasks@),
            tasks_view(kept@) == without_id(orig.take(i as int), id@),
        decreases tasks.len() - i,
    {
        proof {
            assert(orig.take(i + 1).drop_last() =~= orig.take(i as int));
        }
        if tasks[i].id != *id {
            let t = tasks[i].duplicate();
            proof {
                lemma_tasks_view_push(kept@, t);
            }
            kept.push(t);
        }
        i += 1;
    }
    assert(orig.take(tasks.len() as int) =~= orig);
    *tasks = kept;
}

/// Replaces the task at `i` by one with the given abstract value.
pub(crate) fn replace_at(tasks: &mut Vec<Task>, i: usize, t: Task)
    requires
        i < old(tasks).len(),
    ensures
        tasks_view(final(tasks)@) == tasks_view(old(tasks)@).update(i as int, t@),
{
    tasks.set(i, t);
    assert(tasks_view(tasks@) =~= tasks_view(old(tasks)@).update(i as int, t@));
}

/// Toggles the first task with the given id.
fn toggle_first(tasks: &mut Vec<Task>, id: &String)
    ensures
        tasks_view(final(tasks)@) == modify_first(
            tasks_view(old(tasks)@),
            id@,
            |t: TaskView| toggled(t),
        ),
{
    if let Some(i) = find_by_id(tasks, id) {
        let mut t = tasks[i].duplicate();
        t.toggle();
        replace_at(tasks, i, t);
    }
}

/// Sets the title of the first task with the given id.
fn retitle_first(tasks: &mut Vec<Task>, id: &String, title: &String)
    ensures
        tasks_view(final(tasks)@) == modify_first(tasks_view(old(tasks)@), id@, with_title(title@)),
{
    if let Some(i) = find_by_id(tasks, id) {
        let mut t = tasks[i].duplicate();
        t.update_title(title.clone());
        replace_at(tasks, i, t);
    }
}

/// Sets the description of the first task with the given id.
fn describe_first(tasks: &mut Vec<Task>, id: &String, desc: &Option<String>)
    ensures
        tasks_view(final(tasks)@) == modify_first(
            tasks_view(old(tasks)@),
            id@,
            with_description(desc.deep_view()),
        ),
{
    if let Some(i) = find_by_id(tasks, id) {
        let mut t = tasks[i].duplicate();
        t.update_description(clone_opt_string(desc));
        replace_at(tasks, i, t);
    }
}

/// Sets the tags of the first task with the given id.
fn retag_first(tasks: &mut Vec<Task>, id: &String, tags: &Vec<String>)
    ensures
        tasks_view(final(tasks)@) == modify_first(
            tasks_view(old(tasks)@),
            id@,
            with_tags(tags.deep_view()),
        ),
{
    if let Some(i) = find_by_id(tasks, id) {
        let mut t = tasks[i].duplicate();
        t.set_tags(clone_strings(tags));
        replace_at(tasks, i, t);
    }
}

impl History {
    /// An empty history.
    pub fn new() -> (h: History)
        ensures
            h@.undo == Seq::<ActionView>::empty(),
            h@.redo == Seq::<ActionView>::empty(),
    {
        let h = History { undo_stack: Vec::new(), redo_stack: Vec::new() };
        assert(h@.undo =~= Seq::<ActionView>::empty());
        assert(h@.redo =~= Seq::<ActionView>::empty());
        h
    }

    /// Records a new action; this discards everything that could be redone.
    pub fn push(&mut self, action: Action)
        ensures
            final(self)@ == after_push(old(self)@, action@),
    {
        proof {
            lemma_actions_view_push(self.undo_stack@, action);
        }
        self.undo_stack.push(action);
        self.redo_stack.clear();
        assert(self@.redo =~= Seq::<ActionView>::empty());
        assert(self@ == after_push(old(self)@, action@));
    }

    /// Whether there is an action to undo.
    pub fn can_undo(&self) -> (b: bool)
        ensures
            b == (self@.undo.len() > 0),
    {
        self.undo_stack.len() > 0
    }

    /// Whether there is an action to redo.
    pub fn can_redo(&self) -> (b: bool)
        ensures
            b == (self@.redo.len() > 0),
    {
        self.redo_stack.len() > 0
    }

    /// Whether undoing the most recent action would put a deleted task back at a position
    /// that exists in `tasks`.
    pub fn undo_is_applicable(&self, tasks: &Vec<Task>) -> (b: bool)
        ensures
            b == (self@.undo.len() > 0 ==> undo_applicable(self@.undo.last(), tasks@.len())),
    {
        let n = self.undo_stack.len();
        if n == 0 {
            return true;
        }
        proof {
            lemma_actions_view_drop_last(self.undo_stack@);
        }
        match &self.undo_stack[n - 1] {
            Action::Delete { index, .. } => *index <= tasks.len(),
            _ => true,
        }
    }

    /// Undoes the most recent action on `tasks` and makes it redoable.
    /// Returns false, changing nothing, when there is nothing to undo.
    pub fn undo(&mut self, tasks: &mut Vec<Task>) -> (r: bool)
        requires
            old(self)@.undo.len() > 0 ==> undo_applicable(old(self)@.undo.last(), old(tasks)@.len()),
        ensures
            r == (old(self)@.undo.len() > 0),
            r ==> final(self)@ == after_undo(old(self)@),
            r ==> tasks_view(final(tasks)@) == undo_effect(
                old(self)@.undo.last(),
                tasks_view(old(tasks)@),
            ),
            !r ==> final(self)@ == old(self)@,
            !r ==> final(tasks)@ == old(tasks)@,
    {
        if self.undo_stack.len() == 0 {
            return false;
        }
        proof {
            lemma_actions_view_drop_last(self.undo_stack@);
        }
        let action = self.undo_stack.pop().unwrap();
        match &action {
            Action::Add { task } => {
                remove_with_id(tasks, &task.id);
            },
            Action::Delete { task, index } => {
                let t = task.duplicate();
                tasks.insert(*index, t);
                assert(tasks_view(tasks@) =~= tasks_view(old(tasks)@).insert(*index as int, t@));
            },
            Action::Toggle { id } => {
                toggle_first(tasks, id);
            },
            Action::UpdateTitle { id, old_title, .. } => {
                retitle_first(tasks, id, old_title);
            },
            Action::UpdateDescription { id, old_desc, .. } => {
                describe_first(tasks, id, old_desc);
            },
            Action::UpdateTags { id, old_tags, .. } => {
                retag_first(tasks, id, old_tags);
            },
        }
        proof {
            lemma_actions_view_push(self.redo_stack@, action);
        }
        self.redo_stack.push(action);
        true
    }

    /// Redoes the most recently undone action on `tasks` and makes it undoable again.
    /// Returns false, changing nothing, when there is nothing to redo.
    pub fn redo(&mut self, tasks: &mut Vec<Task>) -> (r: bool)
        ensures
            r == (old(self)@.redo.len() > 0),
            r ==> final(self)@ == after_redo(old(self)@),
            r ==> tasks_view(final(tasks)@) == redo_effect(
                old(self)@.redo.last(),
                tasks_view(old(tasks)@),
            ),
            !r ==> final(self)@ == old(self)@,
            !r ==> final(tasks)@ == old(tasks)@,
    {
        if self.redo_stack.len() == 0 {
            return false;
        }
        proof {
            lemma_actions_view_drop_last(self.redo_stack@);
        }
        let action = self.redo_stack.pop().unwrap();
        match &action {
            Action::Add { task } => {
                let t = task.duplicate();
                proof {
                    lemma_tasks_view_push(tasks@, t);
                }
                tasks.push(t);
            },
            Action::Delete { task, .. } => {
                remove_with_id(tasks, &task.id);
            },
            Action::Toggle { id } => {
                toggle_first(tasks, id);
            },
            Action::UpdateTitle { id, new_title, .. } => {
                retitle_first(tasks, id, new_title);
            },
            Action::UpdateDescription { id, new_desc, .. } => {
                describe_first(tasks, id, new_desc);
            },
            Action::UpdateTags { id, new_tags, .. } => {
                retag_first(tasks, id, new_tags);
            },
        }
        proof {
            lemma_actions_view_push(self.undo_stack@, action);
        }
        self.undo_stack.push(action);
        true
    }
}


// ─── Laws ────────────────────────────────────────────────────────────────────

proof fn lemma_first_with_id_props(s: Seq<TaskView>, id: Seq<char>)
    ensures
        -1 <= first_with_id(s, id) < s.len(),
        first_with_id(s, id) >= 0 ==> s[first_with_id(s, id)].id == id,
        forall|j: int| 0 <= j < s.len() && (first_with_id(s, id) < 0 || j < first_with_id(s, id))
            ==> s[j].id != id,
    decreases s.len(),
{
    if s.len() > 0 && s[0].id != id {
        lemma_first_with_id_props(s.drop_first(), id);
        assert forall|j: int|
            0 <= j < s.len() && (first_with_id(s, id) < 0 || j < first_with_id(s, id)) implies s[j].id
            != id by {
            if j > 0 {
                assert(s[j] == s.drop_first()[j - 1]);
            }
        }
    }
}

/// Changing the first task with an id, keeping its id, keeps it the first with that id.
proof fn lemma_first_with_id_update(s: Seq<TaskView>, id: Seq<char>, x: TaskView)
    requires
        first_with_id(s, id) >= 0,
        x.id == id,
    ensures
        first_with_id(s.update(first_with_id(s, id), x), id) == first_with_id(s, id),
{
    let i = first_with_id(s, id);
    lemma_first_with_id_props(s, id);
    lemma_first_with_id(s.update(i, x), id, i);
}

proof fn lemma_without_id_absent(s: Seq<TaskView>, id: Seq<char>)
    requires
        forall|j: int| 0 <= j < s.len() ==> s[j].id != id,
    ensures
        without_id(s, id) == s,
    decreases s.len(),
{
    if s.len() > 0 {
        lemma_without_id_absent(s.drop_last(), id);
        assert(s.drop_last().push(s.last()) =~= s);
    }
}

proof fn lemma_without_id_insert(s: Seq<TaskView>, i: int, t: TaskView)
    requires
        0 <= i <= s.len(),
    ensures
        without_id(s.insert(i, t), t.id) == without_id(s, t.id),
    decreases s.len(),
{
    if i == s.len() {
        assert(s.insert(i, t).drop_last() =~= s);
    } else {
        lemma_without_id_insert(s.drop_last(), i, t);
        assert(s.insert(i, t).drop_last() =~= s.drop_last().insert(i, t));
        assert(s.insert(i, t).last() == s.last());
    }
}

/// Undoing and then redoing returns the history to what it was.
pub proof fn law_undo_then_redo_history(h: HistoryView)
    requires
        h.undo.len() > 0,
    ensures
        after_redo(after_undo(h)) == h,
{
    assert(after_redo(after_undo(h)).undo =~= h.undo);
    assert(after_redo(after_undo(h)).redo =~= h.redo);
}

/// Redoing and then undoing returns the history to what it was.
pub proof fn law_redo_then_undo_history(h: HistoryView)
    requires
        h.redo.len() > 0,
    ensures
        after_undo(after_redo(h)) == h,
{
    assert(after_undo(after_redo(h)).undo =~= h.undo);
    assert(after_undo(after_redo(h)).redo =~= h.redo);
}

/// Recording an action makes it the one that the next undo takes back.
pub proof fn law_push_then_undo_history(h: HistoryView, a: ActionView)
    ensures
        after_push(h, a).undo.last() == a,
        after_undo(after_push(h, a)).undo == h.undo,
        after_undo(after_push(h, a)).redo == seq![a],
{
    assert(after_undo(after_push(h, a)).undo =~= h.undo);
    assert(after_undo(after_push(h, a)).redo =~= seq![a]);
}

/// Undoing the addition of a task whose id was new takes it away again.
pub proof fn law_undo_add(s: Seq<TaskView>, t: TaskView)
    requires
        forall|j: int| 0 <= j < s.len() ==> s[j].id != t.id,
    ensures
        undo_effect(ActionView::Add { task: t }, s.push(t)) == s,
        redo_effect(ActionView::Add { task: t }, undo_effect(ActionView::Add { task: t }, s.push(t)))
            == s.push(t),
{
    assert(s.push(t).drop_last() =~= s);
    lemma_without_id_absent(s, t.id);
}

/// Undoing the deletion of the task at `i` puts it back where it was.
pub proof fn law_undo_delete(s: Seq<TaskView>, i: usize)
    requires
        i < s.len(),
    ensures
        undo_effect(ActionView::Delete { task: s[i as int], index: i }, s.remove(i as int)) == s,
{
    assert(s.remove(i as int).insert(i as int, s[i as int]) =~= s);
}

/// Redoing an undone deletion removes the task again, when its id is its own.
pub proof fn law_redo_delete(s: Seq<TaskView>, t: TaskView, i: usize)
    requires
        i <= s.len(),
        forall|j: int| 0 <= j < s.len() ==> s[j].id != t.id,
    ensures
        redo_effect(
            ActionView::Delete { task: t, index: i },
            undo_effect(ActionView::Delete { task: t, index: i }, s),
        ) == s,
{
    lemma_without_id_insert(s, i as int, t);
    lemma_without_id_absent(s, t.id);
}

/// Applying `f` and then `g` to the first task with an id, where `f` keeps ids and `g` takes
/// back what `f` did, leaves the list unchanged.
proof fn lemma_modify_first_inverse(
    s: Seq<TaskView>,
    id: Seq<char>,
    f: spec_fn(TaskView) -> TaskView,
    g: spec_fn(TaskView) -> TaskView,
)
    requires
        first_with_id(s, id) >= 0 ==> f(s[first_with_id(s, id)]).id == id,
        first_with_id(s, id) >= 0 ==> g(f(s[first_with_id(s, id)])) == s[first_with_id(s, id)],
    ensures
        modify_first(modify_first(s, id, f), id, g) == s,
{
    let i = first_with_id(s, id);
    if i >= 0 {
        lemma_first_with_id_props(s, id);
        lemma_first_with_id_update(s, id, f(s[i]));
        assert(s.update(i, f(s[i])).update(i, g(f(s[i]))) =~= s);
    }
}

/// Toggling is its own undo: undoing and redoing a toggle gives back the list.
pub proof fn law_toggle_round_trip(s: Seq<TaskView>, id: Seq<char>)
    ensures
        undo_effect(ActionView::Toggle { id }, redo_effect(ActionView::Toggle { id }, s)) == s,
        redo_effect(ActionView::Toggle { id }, undo_effect(ActionView::Toggle { id }, s)) == s,
{
    let f = |t: TaskView| toggled(t);
    lemma_first_with_id_props(s, id);
    lemma_modify_first_inverse(s, id, f, f);
}

/// Undoing a title change restores the old title, and redoing it restores the new one,
/// when the change was recorded with the title the task had.
pub proof fn law_update_title_round_trip(
    s: Seq<TaskView>,
    id: Seq<char>,
    old_title: Seq<char>,
    new_title: Seq<char>,
)
    requires
        first_with_id(s, id) >= 0 ==> s[first_with_id(s, id)].title == old_title,
    ensures
        ({
            let a = ActionView::UpdateTitle { id, old_title, new_title };
            &&& undo_effect(a, redo_effect(a, s)) == s
            &&& redo_effect(a, undo_effect(a, redo_effect(a, s))) == redo_effect(a, s)
        }),
{
    lemma_first_with_id_props(s, id);
    lemma_modify_first_inverse(s, id, with_title(new_title), with_title(old_title));
}

/// Undoing a description change restores the old description, when the change was
/// recorded with the description the task had.
pub proof fn law_update_description_round_trip(
    s: Seq<TaskView>,
    id: Seq<char>,
    old_desc: Option<Seq<char>>,
    new_desc: Option<Seq<char>>,
)
    requires
        first_with_id(s, id) >= 0 ==> s[first_with_id(s, id)].description == old_desc,
    ensures
        ({
            let a = ActionView::UpdateDescription { id, old_desc, new_desc };
            &&& undo_effect(a, redo_effect(a, s)) == s
            &&& redo_effect(a, undo_effect(a, redo_effect(a, s))) == redo_effect(a, s)
        }),
{
    lemma_first_with_id_props(s, id);
    lemma_modify_first_inverse(s, id, with_description(new_desc), with_description(old_desc));
}

/// Undoing a change of tags restores the old tags, when the change was recorded with the
/// tags the task had.
pub proof fn law_update_tags_round_trip(
    s: Seq<TaskView>,
    id: Seq<char>,
    old_tags: Seq<Seq<char>>,
    new_tags: Seq<Seq<char>>,
)
    requires
        first_with_id(s, id) >= 0 ==> s[first_with_id(s, id)].tags == old_tags,
    ensures
        ({
            let a = ActionView::UpdateTags { id, old_tags, new_tags };
            &&& undo_effect(a, redo_effect(a, s)) == s
            &&& redo_effect(a, undo_effect(a, redo_effect(a, s))) == redo_effect(a, s)
        }),
{
    lemma_first_with_id_props(s, id);
    lemma_modify_first_inverse(s, id, with_tags(new_tags), with_tags(old_tags));
}


// ─── Counting undo and redo ──────────────────────────────────────────────────

/// The history after recording the actions in order.
pub open spec fn pushed_all(h: HistoryView, acts: Seq<ActionView>) -> HistoryView
    decreases acts.len(),
{
    if acts.len() == 0 {
        h
    } else {
        after_push(pushed_all(h, acts.drop_last()), acts.last())
    }
}

/// The history after `k` calls of `undo`: each takes back an action while there is one,
/// and changes nothing otherwise.
pub open spec fn undone(h: HistoryView, k: nat) -> HistoryView
    decreases k,
{
    if k == 0 {
        h
    } else {
        let g = undone(h, (k - 1) as nat);
        if g.undo.len() > 0 { after_undo(g) } else { g }
    }
}

/// The history after `k` calls of `redo`: each puts back an undone action while there is
/// one, and changes nothing otherwise.
pub open spec fn redone(h: HistoryView, k: nat) -> HistoryView
    decreases k,
{
    if k == 0 {
        h
    } else {
        let g = redone(h, (k - 1) as nat);
        if g.redo.len() > 0 { after_redo(g) } else { g }
    }
}

/// The empty history.
pub open spec fn empty_history() -> HistoryView {
    HistoryView { undo: Seq::empty(), redo: Seq::empty() }
}

proof fn lemma_pushed_all_len(acts: Seq<ActionView>)
    ensures
        pushed_all(empty_history(), acts).undo.len() == acts.len(),
        pushed_all(empty_history(), acts).redo.len() == 0,
    decreases acts.len(),
{
    if acts.len() > 0 {
        lemma_pushed_all_len(acts.drop_last());
    }
}

proof fn lemma_undone_len(h: HistoryView, k: nat)
    ensures
        undone(h, k).undo.len() == h.undo.len() - (if k < h.undo.len() { k } else { h.undo.len() }),
        undone(h, k).redo.len() == h.redo.len() + (if k < h.undo.len() { k } else { h.undo.len() }),
    decreases k,
{
    if k > 0 {
        lemma_undone_len(h, (k - 1) as nat);
    }
}

proof fn lemma_redone_len(h: HistoryView, k: nat)
    ensures
        redone(h, k).redo.len() == h.redo.len() - (if k < h.redo.len() { k } else { h.redo.len() }),
        redone(h, k).undo.len() == h.undo.len() + (if k < h.redo.len() { k } else { h.redo.len() }),
    decreases k,
{
    if k > 0 {
        lemma_redone_len(h, (k - 1) as nat);
    }
}

/// From an empty history, after `n` recorded actions and `k` undos (and no redo), there
/// is something left to undo exactly when `k < n`, and `min(k, n)` of the undos took
/// something back, which can now be redone.
pub proof fn law_undo_count(acts: Seq<ActionView>, k: nat)
    ensures
        (undone(pushed_all(empty_history(), acts), k).undo.len() > 0) == (k < acts.len()),
        undone(pushed_all(empty_history(), acts), k).redo.len() == (if k < acts.len() { k } else { acts.len() }),
{
    lemma_pushed_all_len(acts);
    lemma_undone_len(pushed_all(empty_history(), acts), k);
}

/// From an empty history, after `n` recorded actions, `k` undos and then `r` redos with
/// `r <= k <= n`, there is something to redo exactly when `r < k`, and something to undo
/// exactly when `n - k + r > 0`.
pub proof fn law_undo_redo_count(acts: Seq<ActionView>, k: nat, r: nat)
    requires
        r <= k <= acts.len(),
    ensures
        ({
            let h = redone(undone(pushed_all(empty_history(), acts), k), r);
            &&& h.redo.len() == k - r
            &&& h.undo.len() == acts.len() - k + r
            &&& (h.redo.len() > 0) == (r < k)
            &&& (h.undo.len() > 0) == (acts.len() - k + r > 0)
        }),
{
    lemma_pushed_all_len(acts);
    let p = pushed_all(empty_history(), acts);
    lemma_undone_len(p, k);
    lemma_redone_len(undone(p, k), r);
}

} // verus!
