use vstd::prelude::*;

use crate::planner::task::{tasks_view, Task, TaskView};
use crate::text::{
    append_chars, chars_eq, chars_of, lines_chars, lines_seq, string_of, trim_chars, trim_seq,
};

verus! {

/// The tasks as they are stored on disk.
#[derive(Debug)]
pub struct TaskList {
    pub tasks: Vec<Task>,
}

impl TaskList {
    /// An empty list.
    pub fn new() -> (l: TaskList)
        ensures
            tasks_view(l.tasks@) == Seq::<TaskView>::empty(),
    {
        let l = TaskList { tasks: Vec::new() };
        assert(tasks_view(l.tasks@) =~= Seq::<TaskView>::empty());
        l
    }
}

/// A copy of a list of tasks with the same abstract value.
pub fn copy_tasks(tasks: &Vec<Task>) -> (r: Vec<Task>)
    ensures
        tasks_view(r@) == tasks_view(tasks@),
{
    let mut r: Vec<Task> = Vec::new();
    let mut i: usize = 0;
    while i < tasks.len()
        invariant
            i <= tasks.len(),
            tasks_view(r@) == tasks_view(tasks@).take(i as int),
        decreases tasks.len() - i,
    {
        let t = tasks[i].duplicate();
        let ghost before = r@;
        r.push(t);
        assert(tasks_view(r@) =~= tasks_view(before).push(t@));
        assert(tasks_view(tasks@).take(i + 1) =~= tasks_view(tasks@).take(i as int).push(
            tasks_view(tasks@)[i as int],
        ));
        i += 1;
    }
    assert(tasks_view(tasks@).take(tasks.len() as int) =~= tasks_view(tasks@));
    r
}


/// Some line of `content`, trimmed, is `entry`.
pub open spec fn has_entry(content: Seq<char>, entry: Seq<char>) -> bool {
    exists|i: int| 0 <= i < lines_seq(content).len() && trim_seq(#[trigger] lines_seq(content)[i]) == entry
}

/// `content` with `entry` on a line of its own at the end, unless some line already is
/// `entry`; a newline is added first if the text does not end with one.
pub open spec fn with_entry(content: Seq<char>, entry: Seq<char>) -> Seq<char> {
    if has_entry(content, entry) {
        content
    } else if content.len() > 0 && content.last() != '\n' {
        content + seq!['\n'] + entry + seq!['\n']
    } else {
        content + entry + seq!['\n']
    }
}

/// The file the tasks are stored in.
pub open spec fn tasks_file() -> Seq<char> {
    ".gitlink-tasks.json"@
}

/// The file the archived tasks are stored in.
pub open spec fn archive_file() -> Seq<char> {
    ".gitlink-tasks-archive.json"@
}

/// Whether some line of `content`, trimmed, is `entry`.
fn lists_entry(content: &Vec<char>, entry: &str) -> (b: bool)
    ensures
        b == has_entry(content@, entry@),
{
    let ls = lines_chars(content);
    let ghost lv = ls@.map_values(|l: Vec<char>| l@);
    let e = chars_of(entry);
    let mut i: usize = 0;
    while i < ls.len()
        invariant
            i <= ls.len(),
            lv == ls@.map_values(|l: Vec<char>| l@),
            lv == lines_seq(content@),
            e@ == entry@,
            forall|j: int| 0 <= j < i ==> trim_seq(#[trigger] lv[j]) != entry@,
        decreases ls.len() - i,
    {
        assert(lv[i as int] == ls@[i as int]@);
        if chars_eq(&trim_chars(&ls[i]), &e) {
            return true;
        }
        i += 1;
    }
    false
}

/// Adds `entry` as a line of its own unless it is there (see `with_entry`). Returns
/// whether the text changed.
fn add_entry(content: &mut Vec<char>, entry: &str) -> (changed: bool)
    ensures
        final(content)@ == with_entry(old(content)@, entry@),
        changed == !has_entry(old(content)@, entry@),
{
    if lists_entry(content, entry) {
        return false;
    }
    if content.len() > 0 && content[content.len() - 1] != '\n' {
        content.push('\n');
    }
    let e = chars_of(entry);
    let ghost before = content@;
    append_chars(content, &e);
    content.push('\n');
    true
}

/// The `.gitignore` text with both task files listed (see `with_entry`), and whether it
/// changed and must be written.
pub fn gitignore_with_task_files(content: &str) -> (r: (String, bool))
    ensures
        r.0@ == with_entry(with_entry(content@, tasks_file()), archive_file()),
        r.1 == (!has_entry(content@, tasks_file()) || !has_entry(
            with_entry(content@, tasks_file()),
            archive_file(),
        )),
{
    let mut cs = chars_of(content);
    let a = add_entry(&mut cs, ".gitlink-tasks.json");
    let b = add_entry(&mut cs, ".gitlink-tasks-archive.json");
    (string_of(&cs), a || b)
}

} // verus!
