use gitlink::tui::hub_views::{
    auth_hint, auth_menu_lines, auth_result_lines, code_screen, info_scroll, message_pane_lines, prp_frame_texts,
    repo_list_lines, repo_names, result_pane_lines, session_pane_lines,
};
use gitlink::tui::overlays::{AuthOverlay, AuthStep, PrpOverlay, PrpStep};
use gitlink::tui::styled::{Rgb, StyledLine};

fn texts(l: &StyledLine) -> Vec<String> {
    l.spans.iter().map(|s| s.text.clone()).collect()
}

fn joined(l: &StyledLine) -> String {
    texts(l).concat()
}

#[test]
fn auth_menu_marks_the_choice() {
    let mut ov = AuthOverlay::new();
    ov.selected = 1;
    let lines = auth_menu_lines(&ov);
    assert_eq!(lines.len(), 8);
    assert_eq!(joined(&lines[0]), "Choose an action:");
    assert_eq!(texts(&lines[2]), vec!["     ", "Login via GitHub OAuth"]);
    assert_eq!(texts(&lines[4]), vec!["  ▶  ", "Logout (remove token)"]);
    assert_eq!(lines[4].spans[1].bg, Some(Rgb { r: 20, g: 35, b: 28 }));
    assert_eq!(auth_hint(&AuthStep::Menu), "  ↑↓  select    Enter  confirm    Esc  close  ");
    assert_eq!(auth_hint(&AuthStep::Result("x".to_string())), "  Enter / Esc  close  ");
}

#[test]
fn auth_result_colours_errors() {
    let ok = auth_result_lines("Logged out.");
    assert_eq!(joined(&ok[1]), "  ✔  Logged out.");
    assert_eq!(ok[1].spans[0].fg, Some(Rgb { r: 46, g: 160, b: 90 }));
    let bad = auth_result_lines("Error: denied");
    assert_eq!(joined(&bad[1]), "  ✖  Error: denied");
    let not = auth_result_lines("Not authenticated.");
    assert_eq!(not[1].spans[0].fg, Some(Rgb { r: 200, g: 80, b: 80 }));
    assert_eq!(joined(&bad[3]), "  Press Enter or Esc to close.");
}

#[test]
fn code_screen_shows_code_in_block_letters() {
    let s = code_screen("ab-1", "https://github.com/login/device", None);
    assert_eq!(joined(&s.label), "Enter this code at the URL below:");
    assert_eq!(s.code_rows.len(), 5);
    assert_eq!(joined(&s.code_rows[0]), " ███  ████          ██ ");
    assert_eq!(texts(s.url.as_ref().unwrap()), vec!["  URL: ", "https://github.com/login/device"]);
    assert!(s.url.as_ref().unwrap().spans[1].underlined);
    assert!(joined(&s.status).starts_with("  Browser will open"));
    let waiting = code_screen("AB", "", Some(12));
    assert!(waiting.url.is_none());
    assert_eq!(texts(&waiting.status), vec!["  ⠹ ", "Waiting for authorization…"]);
}

fn prp(repos: &[&str]) -> PrpOverlay {
    PrpOverlay::new(repos.iter().map(|r| r.to_string()).collect())
}

#[test]
fn repository_list_shows_last_path_components() {
    let mut ov = prp(&["/work/api", "/work/web/", "lib"]);
    ov.included = vec![true, false, true];
    let names = repo_names(&ov);
    assert_eq!(names, vec!["api", "web", "lib"]);
    let rows = repo_list_lines(&names, &ov);
    assert_eq!(texts(&rows[0]), vec!["▶ ", "☑ ", "api"]);
    assert!(rows[0].spans[2].bold);
    assert_eq!(texts(&rows[1]), vec!["  ", "☐ ", "web"]);
    assert_eq!(rows[1].spans[2].fg, Some(Rgb { r: 75, g: 80, b: 100 }));
    assert_eq!(rows[2].spans[2].fg, Some(Rgb { r: 200, g: 208, b: 230 }));
    let empty = prp(&[]);
    let rows = repo_list_lines(&repo_names(&empty), &empty);
    assert_eq!(joined(&rows[1]), "No git repositories found.");
}

#[test]
fn session_pane_counts_selected_repositories() {
    let mut ov = prp(&["a", "b", "c"]);
    ov.included = vec![true, false, false];
    let lines = session_pane_lines(&ov);
    assert_eq!(joined(&lines[2]), "  Selected  1 / 3");
    assert!(lines[2].spans[1].bold);
    assert_eq!(joined(&lines[12]), "  1 repo ready");
    ov.included = vec![true, true, false];
    assert_eq!(joined(&session_pane_lines(&ov)[12]), "  2 repos ready");
    ov.included = vec![false, false, false];
    let none = session_pane_lines(&ov);
    assert_eq!(none.len(), 9);
    assert_eq!(joined(&none[2]), "  Selected  0 / 3");
    let (title, hint) = prp_frame_texts(&PrpStep::SelectRepos);
    assert_eq!(title, "  🔗 PRP Hub — Select Repositories  ");
    assert!(hint.contains("Space  toggle"));
}

#[test]
fn message_pane_counts_characters() {
    let mut ov = prp(&["a"]);
    ov.step = PrpStep::EnterMessage;
    ov.input_buf = "fix".to_string();
    ov.input_cursor = 1;
    let lines = message_pane_lines(&ov);
    assert_eq!(texts(&lines[2]), vec!["  ❯ ", "f", "i", "x"]);
    assert_eq!(lines[2].spans[2].bg, Some(Rgb { r: 180, g: 140, b: 255 }));
    assert_eq!(texts(&lines[6]), vec!["  3 chars", "    (72 recommended max)"]);
    assert_eq!(lines[6].spans[0].fg, Some(Rgb { r: 70, g: 78, b: 100 }));
    ov.input_buf = "x".repeat(60);
    ov.input_cursor = 60;
    assert_eq!(message_pane_lines(&ov)[6].spans[0].fg, Some(Rgb { r: 230, g: 180, b: 60 }));
    ov.input_buf = "x".repeat(80);
    assert_eq!(message_pane_lines(&ov)[6].spans[0].fg, Some(Rgb { r: 220, g: 80, b: 80 }));
}

#[test]
fn result_lines_are_coloured_by_content() {
    let mut ov = prp(&["a"]);
    ov.result_lines = vec![
        "✔ api committed".to_string(),
        "push failed".to_string(),
        "⚠ nothing to commit".to_string(),
        "▣ group-1".to_string(),
        "Message: fix".to_string(),
        "  ───".to_string(),
        "plain".to_string(),
    ];
    let lines = result_pane_lines(&ov, 10, 0);
    let colours: Vec<Option<Rgb>> = lines.iter().map(|l| l.spans[0].fg).collect();
    assert_eq!(
        colours,
        vec![
            Some(Rgb { r: 80, g: 210, b: 130 }),
            Some(Rgb { r: 220, g: 80, b: 80 }),
            Some(Rgb { r: 230, g: 180, b: 60 }),
            Some(Rgb { r: 160, g: 120, b: 240 }),
            Some(Rgb { r: 100, g: 155, b: 245 }),
            Some(Rgb { r: 40, g: 45, b: 60 }),
            Some(Rgb { r: 170, g: 178, b: 210 }),
        ]
    );
    assert!(lines[3].spans[0].bold);
    let window = result_pane_lines(&ov, 3, 10);
    assert_eq!(window.len(), 3);
    assert_eq!(window[0].spans[0].text, "Message: fix");
}

#[test]
fn info_scroll_indicator() {
    let (row, ind) = info_scroll(50, 10, 0);
    assert_eq!(row, 0);
    assert_eq!(joined(&ind.unwrap()), " 100% ↕ ");
    let (row, ind) = info_scroll(50, 10, 500);
    assert_eq!(row, 40);
    assert_eq!(joined(&ind.unwrap()), " 0% ↕ ");
    let (_, ind) = info_scroll(50, 10, 10);
    assert_eq!(joined(&ind.unwrap()), " 75% ↕ ");
    let (row, ind) = info_scroll(5, 10, 3);
    assert_eq!(row, 0);
    assert!(ind.is_none());
}

#[test]
fn repository_names_follow_path_components() {
    let ov = prp(&["/work/a/./", "/work/b/..", "/", ".", "x//y"]);
    assert_eq!(repo_names(&ov), vec!["a", "/work/b/..", "/", ".", "y"]);
}
