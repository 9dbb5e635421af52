use gitlink::planner::history::{Action, History};
use gitlink::planner::session::{PlannerSession, SessionStep};
use gitlink::planner::task::Task;
use gitlink::tui::keys::KeyCode;

fn task(id: &str, title: &str) -> Task {
    Task::new(id.to_string(), title.to_string(), 0)
}

fn titles(ts: &[Task]) -> Vec<String> {
    ts.iter().map(|t| t.title.clone()).collect()
}

#[test]
fn delete_then_undo_restores_tasks() {
    let mut s = PlannerSession::new(vec![task("1", "one"), task("2", "two"), task("3", "three")]);
    assert!(s.accepts(KeyCode::Down));
    s.on_key(KeyCode::Down);
    assert!(s.accepts(KeyCode::Char('d')));
    let step = s.on_key(KeyCode::Char('d'));
    assert!(matches!(step, SessionStep::Continue { redraw: true, save: true }));
    assert_eq!(titles(&s.task_list().tasks), vec!["one", "three"]);
    assert!(s.accepts(KeyCode::Char('u')));
    s.on_key(KeyCode::Char('u'));
    assert_eq!(titles(&s.task_list().tasks), vec!["one", "two", "three"]);
    s.on_key(KeyCode::Char('r'));
    assert_eq!(titles(&s.task_list().tasks), vec!["one", "three"]);
}

#[test]
fn toggle_and_quit_keys() {
    let mut s = PlannerSession::new(vec![task("1", "one")]);
    s.on_key(KeyCode::Char(' '));
    assert!(s.task_list().tasks[0].completed);
    s.on_key(KeyCode::Char('u'));
    assert!(!s.task_list().tasks[0].completed);
    assert!(matches!(s.on_key(KeyCode::Char('q')), SessionStep::Quit));
    assert!(matches!(s.on_key(KeyCode::Char('a')), SessionStep::AskNewTask));
}

#[test]
fn undo_without_history_changes_nothing() {
    let mut s = PlannerSession::new(vec![task("1", "one")]);
    let step = s.on_key(KeyCode::Char('u'));
    assert!(matches!(step, SessionStep::Continue { redraw: false, save: false }));
    assert_eq!(titles(&s.task_list().tasks), vec!["one"]);
}

#[test]
fn history_undo_redo_add() {
    let mut tasks = vec![task("1", "one")];
    let mut h = History::new();
    let t = task("2", "two");
    tasks.push(t.duplicate());
    h.push(Action::Add { task: t });
    assert!(h.can_undo());
    assert!(h.undo(&mut tasks));
    assert_eq!(titles(&tasks), vec!["one"]);
    assert!(h.can_redo());
    assert!(h.redo(&mut tasks));
    assert_eq!(titles(&tasks), vec!["one", "two"]);
    assert!(!h.redo(&mut tasks));
}

#[test]
fn task_edits() {
    let mut t = task("1", "one");
    t.toggle();
    assert!(t.completed);
    t.update_title("uno".to_string());
    assert_eq!(t.title, "uno");
    t.set_tags(vec!["x".to_string()]);
    assert_eq!(t.tags, vec!["x".to_string()]);
}
