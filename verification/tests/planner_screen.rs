use gitlink::planner::screen::{planner_screen, planner_screen_fits};
use gitlink::planner::task::Task;

fn task(id: &str, title: &str) -> Task {
    Task::new(id.to_string(), title.to_string(), 0)
}

#[test]
fn small_terminal_gets_a_note() {
    let tasks = vec![task("1", "one")];
    let dates = vec!["2024-01-01 10:00".to_string()];
    assert_eq!(planner_screen(&tasks, &dates, 0, 30, 20), "Terminal too small. Please resize the window.");
    assert_eq!(planner_screen(&tasks, &dates, 0, 80, 9), "Terminal too small. Please resize the window.");
}

#[test]
fn screen_lists_tasks_then_the_add_row() {
    let mut one = task("1", "one");
    one.completed = true;
    one.tags = vec!["a".to_string(), "b".to_string()];
    let tasks = vec![one, task("2", "two")];
    let dates = vec!["2024-01-01 10:00".to_string(), "2024-01-02 11:00".to_string()];
    assert!(planner_screen_fits(&tasks, &dates, 0, 40));
    let screen = planner_screen(&tasks, &dates, 0, 40, 20);
    let expected = format!(
        "{eq}\n📋 GitLink Task Planner\n{eq}\n\n→ ☑ one [a, b]\n     📅 2024-01-01 10:00\n\n  ☐ two\n     📅 2024-01-02 11:00\n\n  + Add New Task\n\n{dash}\n💡 Controls:\n   ↑/↓: Navigate | Space: Toggle | a: Add | e: Edit | d: Delete\n   u: Undo | r: Redo | q: Quit\n",
        eq = "=".repeat(40),
        dash = "─".repeat(40)
    );
    assert_eq!(screen, expected);
    let on_add = planner_screen(&tasks, &dates, 2, 40, 20);
    assert!(on_add.contains("→ + Add New Task\n"));
    assert!(on_add.contains("  ☑ one"));
}

#[test]
fn long_rows_are_cut_to_the_width() {
    let tasks = vec![task("1", &"x".repeat(50))];
    let dates = vec!["d".to_string()];
    let screen = planner_screen(&tasks, &dates, 1, 40, 20);
    assert!(screen.contains(&format!("\n  ☐ {}\n     📅 d", "x".repeat(33))));
    let wide = vec![task("1", &"é".repeat(40))];
    assert!(!planner_screen_fits(&wide, &dates, 1, 40));
    assert!(planner_screen_fits(&wide, &dates, 1, 41));
}

#[test]
fn rows_follow_the_selection() {
    let tasks: Vec<Task> = (0..20).map(|i| task(&i.to_string(), &format!("task {}", i))).collect();
    let dates: Vec<String> = (0..20).map(|_| "d".to_string()).collect();
    let screen = planner_screen(&tasks, &dates, 15, 60, 13);
    assert!(screen.contains("→ ☐ task 15"));
    assert!(screen.contains("  ☐ task 13"));
    assert!(!screen.contains("task 12\n"));
    assert!(!screen.contains("task 17\n"));
}
