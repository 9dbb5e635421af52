use vstd::prelude::*;

use crate::text::{clone_opt_string, clone_strings};

verus! {

/// A planner task.
#[derive(Debug, Clone)]
pub struct Task {
    pub id: String,
    pub title: String,
    pub description: Option<String>,
    pub tags: Vec<String>,
    pub completed: bool,
    /// Creation time, in seconds since the Unix epoch.
    pub created_at: i64,
    /// Time of the last change, in seconds since the Unix epoch, as stored with the
    /// task; a new task has its creation time.
    pub updated_at: i64,
    /// When the task was completed, in seconds since the Unix epoch, if stored with it.
    pub completed_at: Option<i64>,
}

/// The abstract value of a task: its fields with strings seen as character sequences.
pub struct TaskView {
    pub id: Seq<char>,
    pub title: Seq<char>,
    pub description: Option<Seq<char>>,
    pub tags: Seq<Seq<char>>,
    pub completed: bool,
    pub created_at: i64,
    pub updated_at: i64,
    pub completed_at: Option<i64>,
}

impl View for Task {
    type V = TaskView;

    open spec fn view(&self) -> TaskView {
        TaskView {
            id: self.id@,
            title: self.title@,
            description: self.description.deep_view(),
            tags: self.tags.deep_view(),
            completed: self.completed,
            created_at: self.created_at,
            updated_at: self.updated_at,
            completed_at: self.completed_at,
        }
    }
}

/// The abstract value of a list of tasks.
pub open spec fn tasks_view(s: Seq<Task>) -> Seq<TaskView> {
    s.map_values(|t: Task| t@)
}

impl Task {
    /// A new, pending task with no description and no tags.
    pub fn new(id: String, title: String, created_at: i64) -> (t: Task)
        ensures
            t@ == (TaskView {
                id: id@,
                title: title@,
                description: None,
                tags: Seq::empty(),
                completed: false,
                created_at,
                updated_at: created_at,
                completed_at: None,
            }),
    {
        let tags: Vec<String> = Vec::new();
        assert(tags.deep_view() =~= Seq::<Seq<char>>::empty());
        Task { id, title, description: None, tags, completed: false, created_at, updated_at: created_at, completed_at: None }
    }

    /// Flips the completion flag.
    pub fn toggle(&mut self)
        ensures
            final(self)@ == (TaskView { completed: !old(self)@.completed, ..old(self)@ }),
    {
        self.completed = !self.completed;
    }

    /// Replaces the title.
    pub fn update_title(&mut self, title: String)
        ensures
            final(self)@ == (TaskView { title: title@, ..old(self)@ }),
    {
        self.title = title;
    }

    /// Replaces the description.
    pub fn update_description(&mut self, description: Option<String>)
        ensures
            final(self)@ == (TaskView { description: description.deep_view(), ..old(self)@ }),
    {
        self.description = description;
    }

    /// Replaces the tags.
    pub fn set_tags(&mut self, tags: Vec<String>)
        ensures
            final(self)@ == (TaskView { tags: tags.deep_view(), ..old(self)@ }),
    {
        self.tags = tags;
    }

    /// A task with the same abstract value as this one.
    pub fn duplicate(&self) -> (t: Task)
        ensures
            t@ == self@,
    {
        Task {
            id: self.id.clone(),
            title: self.title.clone(),
            description: clone_opt_string(&self.description),
            tags: clone_strings(&self.tags),
            completed: self.completed,
            created_at: self.created_at,
            updated_at: self.updated_at,
            completed_at: self.completed_at,
        }
    }
}


/// The current time, in seconds since the Unix epoch: `chrono::Utc::now().timestamp()`.
/// The value depends on the clock; nothing is claimed of it.
#[verifier::external_body]
fn unix_now() -> (t: i64) {
    chrono::Utc::now().timestamp()
}

impl Task {
    /// A new, pending task with the given title, a fresh random id and the current time.
    pub fn create(title: String) -> (t: Task)
        ensures
            t@.title == title@,
            t@.id.len() == 36,
            t@.description is None,
            t@.tags == Seq::<Seq<char>>::empty(),
            !t@.completed,
            t@.updated_at == t@.created_at,
            t@.completed_at is None,
    {
        let id = crate::ids::random_uuid();
        let now = unix_now();
        Task::new(id, title, now)
    }
}

} // verus!
