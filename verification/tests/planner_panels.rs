use gitlink::planner::task::Task;
use gitlink::tui::planner_overlay::{InputField, PlannerFocus, PlannerMode, PlannerOverlay};
use gitlink::tui::planner_panels::{
    confirm_fits, confirm_lines, detail_panel_lines, form_heading, form_hint, form_lines, list_hint,
    list_panel_fits, list_panel_lines, planner_heading, short_id_ok,
};
use gitlink::tui::styled::{Rgb, StyledLine};

fn task(id: &str, title: &str) -> Task {
    Task::new(id.to_string(), title.to_string(), 0)
}

fn texts(l: &StyledLine) -> Vec<String> {
    l.spans.iter().map(|s| s.text.clone()).collect()
}

fn joined(l: &StyledLine) -> String {
    texts(l).concat()
}

#[test]
fn heading_counts_done_tasks() {
    let mut a = task("id-000001", "one");
    a.completed = true;
    let ov = PlannerOverlay::new(vec![a, task("id-000002", "two")]);
    assert_eq!(planner_heading(&ov), "  📋 GitLink Planner  ·  1/2 done  ");
    let empty = PlannerOverlay::new(vec![]);
    assert_eq!(planner_heading(&empty), "  📋 GitLink Planner  ·  0/0 done  ");
}

#[test]
fn empty_list_shows_hint() {
    let ov = PlannerOverlay::new(vec![]);
    assert!(list_panel_fits(&ov, 30, 10));
    let lines = list_panel_lines(&ov, 30, 10);
    assert_eq!(lines.len(), 4);
    assert!(lines[0].spans.is_empty());
    assert_eq!(joined(&lines[1]), "No tasks yet.");
    assert_eq!(joined(&lines[3]), "Press 'a' to add one.");
    assert_eq!(lines[3].spans[0].fg, Some(Rgb { r: 100, g: 80, b: 200 }));
}

#[test]
fn list_rows_cut_long_titles_and_show_tags() {
    let mut t = task("id-000001", "abcdefghijklmno");
    t.tags = vec!["a".to_string(), "b".to_string()];
    let ov = PlannerOverlay::new(vec![t, task("id-000002", "short")]);
    assert!(list_panel_fits(&ov, 16, 10));
    let lines = list_panel_lines(&ov, 16, 10);
    assert_eq!(lines.len(), 2);
    assert_eq!(texts(&lines[0]), vec!["▶ ", "○ ", "abcdefghi…", "   a   b "]);
    assert!(lines[0].spans[2].bold);
    assert_eq!(lines[0].spans[2].fg, Some(Rgb { r: 255, g: 255, b: 255 }));
    assert_eq!(texts(&lines[1]), vec!["  ", "○ ", "short", ""]);
    assert_eq!(lines[1].spans[2].fg, Some(Rgb { r: 200, g: 200, b: 215 }));
}

#[test]
fn pointer_only_when_list_has_focus() {
    let mut ov = PlannerOverlay::new(vec![task("id-000001", "one")]);
    ov.focus = PlannerFocus::Detail;
    let lines = list_panel_lines(&ov, 30, 10);
    assert_eq!(lines[0].spans[0].text, "  ");
    assert!(lines[0].spans[2].bold);
}

#[test]
fn done_rows_are_struck_through() {
    let mut t = task("id-000001", "done");
    t.completed = true;
    let ov = PlannerOverlay::new(vec![t]);
    let lines = list_panel_lines(&ov, 30, 10);
    assert_eq!(lines[0].spans[1].text, "✔ ");
    assert!(lines[0].spans[2].crossed_out);
    assert_eq!(lines[0].spans[2].fg, Some(Rgb { r: 80, g: 80, b: 100 }));
}

#[test]
fn list_shows_rows_from_scroll_position() {
    let mut ov = PlannerOverlay::new(vec![
        task("id-000001", "one"),
        task("id-000002", "two"),
        task("id-000003", "three"),
    ]);
    ov.scroll = 1;
    ov.selected = 2;
    let lines = list_panel_lines(&ov, 30, 1);
    assert_eq!(lines.len(), 1);
    assert_eq!(lines[0].spans[2].text, "two");
    let hint = list_hint(&ov, 1).unwrap();
    assert_eq!(joined(&hint), " 3/3 ");
    assert!(list_hint(&ov, 3).is_none());
}

#[test]
fn cut_inside_a_character_is_refused() {
    let ov = PlannerOverlay::new(vec![task("id-000001", "ééééééé")]);
    assert!(!list_panel_fits(&ov, 14, 10));
    assert!(list_panel_fits(&ov, 15, 10));
    let lines = list_panel_lines(&ov, 15, 10);
    assert_eq!(lines[0].spans[2].text, "éééé…");
}

#[test]
fn detail_without_selection() {
    let lines = detail_panel_lines(None, "", "", None);
    assert_eq!(lines.len(), 1);
    assert_eq!(joined(&lines[0]), "Select a task to view details");
}

#[test]
fn detail_of_a_task() {
    let mut t = task("0123456789", "Write docs");
    t.tags = vec!["x".to_string()];
    t.description = Some("first\r\nsecond\n".to_string());
    assert!(short_id_ok(&t.id));
    let lines = detail_panel_lines(Some(&t), "2024-01-02  10:30", "2024-01-03  09:00", None);
    let shown: Vec<String> = lines.iter().map(joined).collect();
    assert_eq!(
        shown,
        vec![
            "Write docs",
            "",
            "Status   ○ Pending",
            "",
            "Created  2024-01-02  10:30",
            "Updated  2024-01-03  09:00",
            "",
            "Tags",
            "",
            " x   ",
            "",
            "Description",
            "",
            "first",
            "second",
            "",
            "ID  01234567",
        ]
    );
    assert_eq!(lines[9].spans[0].bg, Some(Rgb { r: 40, g: 30, b: 70 }));
    assert_eq!(lines[2].spans[1].fg, Some(Rgb { r: 160, g: 130, b: 255 }));
}

#[test]
fn detail_of_a_completed_task_shows_when() {
    let mut t = task("abcdefgh", "Ship");
    t.completed = true;
    let lines = detail_panel_lines(Some(&t), "c", "u", Some("2024-05-06  07:08"));
    let shown: Vec<String> = lines.iter().map(joined).collect();
    assert_eq!(
        shown,
        vec!["Ship", "", "Status   ✔ Completed", "", "Created  c", "Updated  u", "Completed 2024-05-06  07:08", "", "", "ID  abcdefgh"]
    );
    assert_eq!(lines[6].spans[1].fg, Some(Rgb { r: 80, g: 200, b: 120 }));
}

#[test]
fn short_ids_are_refused() {
    assert!(!short_id_ok("abc"));
    assert!(!short_id_ok("abcdefgé"));
    assert!(short_id_ok("abcdefgh"));
}

#[test]
fn form_shows_cursor_in_active_field() {
    let mut ov = PlannerOverlay::new(vec![]);
    ov.mode = PlannerMode::AddingTask;
    ov.input_field = InputField::Tags;
    ov.input_buf = "hello".to_string();
    ov.input_cursor = 2;
    ov.scratch_title = "My task".to_string();
    let lines = form_lines(&ov);
    assert_eq!(lines.len(), 6);
    assert_eq!(texts(&lines[1]), vec!["  Title*  : ", "My task"]);
    assert_eq!(texts(&lines[3]), vec!["  Tags    : ", "he", "l", "lo"]);
    assert_eq!(lines[3].spans[2].bg, Some(Rgb { r: 255, g: 255, b: 255 }));
    assert_eq!(texts(&lines[5]), vec!["  Desc    : ", ""]);
    assert_eq!(form_heading(ov.mode).unwrap(), "  ✚ Add New Task  ");
    assert!(form_heading(PlannerMode::Normal).is_none());
    assert_eq!(joined(&form_hint()), "Enter/Tab next field  Enter (on Desc) confirm  Esc cancel");
}

#[test]
fn form_cursor_at_end_shows_blank() {
    let mut ov = PlannerOverlay::new(vec![]);
    ov.mode = PlannerMode::EditingTask;
    ov.input_buf = "ab".to_string();
    ov.input_cursor = 2;
    let lines = form_lines(&ov);
    assert_eq!(texts(&lines[1]), vec!["  Title*  : ", "ab", " ", ""]);
    assert_eq!(form_heading(ov.mode).unwrap(), "  ✎ Edit Task  ");
}

#[test]
fn delete_prompt_names_the_task() {
    let mut ov = PlannerOverlay::new(vec![task("id-000001", "abcdef")]);
    ov.mode = PlannerMode::ConfirmDelete;
    assert!(confirm_fits(&ov, 20));
    let lines = confirm_lines(&ov, 20);
    assert_eq!(texts(&lines[0]), vec!["Delete  ", "abc…", " ?"]);
    let wide = confirm_lines(&ov, 46);
    assert_eq!(joined(&wide[0]), "Delete  abcdef ?");
    assert_eq!(joined(&wide[2]), "y / Enter confirm  any other key cancel");
    ov.selected = 5;
    let unnamed = format!("Delete  {} {} ?", "this", "task");
    assert_eq!(joined(&confirm_lines(&ov, 46)[0]), unnamed);
}
