use gitlink::tui::app::{OutputBlock, OutputKind};
use gitlink::tui::commands::commands;
use gitlink::tui::screen::{input_line, render_output_lines, spinner_line, suggestion_lines};
use gitlink::tui::styled::{Rgb, StyledLine};

fn texts(l: &StyledLine) -> Vec<String> {
    l.spans.iter().map(|s| s.text.clone()).collect()
}

fn block(kind: OutputKind, content: &str) -> OutputBlock {
    OutputBlock { kind, content: content.to_string() }
}

#[test]
fn output_groups_answers_under_their_command() {
    let blocks = vec![
        block(OutputKind::Info, "Welcome"),
        block(OutputKind::Command, "/help "),
        block(OutputKind::Success, "a\nb"),
        block(OutputKind::Error, "x"),
        block(OutputKind::Command, "/quit"),
    ];
    let lines = render_output_lines(&blocks);
    assert_eq!(lines.len(), 14);
    assert_eq!(texts(&lines[0]), vec!["╭", "──", "╮"]);
    assert_eq!(texts(&lines[1]), vec!["│ ", "◆ ", "Welcome"]);
    assert_eq!(texts(&lines[2]), vec!["╰", "──", "╯"]);
    assert!(lines[3].spans.is_empty());
    assert_eq!(texts(&lines[4]), vec!["╭", "─ ", "> ", "/help", " ──", "╮"]);
    assert_eq!(texts(&lines[5]), vec!["│ ", "✔ ", "a"]);
    assert_eq!(texts(&lines[6]), vec!["│ ", "  ", "b"]);
    assert_eq!(lines[6].spans[1].fg, None);
    assert_eq!(texts(&lines[7]), vec!["│ ", "✖ ", "x"]);
    assert_eq!(lines[7].spans[2].fg, Some(Rgb { r: 230, g: 100, b: 100 }));
    assert_eq!(texts(&lines[8]), vec!["╰", &"─".repeat(30), "╯"]);
    assert!(lines[9].spans.is_empty());
    assert_eq!(texts(&lines[10])[3], "/quit");
    assert_eq!(texts(&lines[11]), vec!["│", "  no output"]);
    assert_eq!(lines[8].spans[0].fg, Some(Rgb { r: 55, g: 50, b: 80 }));
    assert_eq!(lines[0].spans[0].fg, Some(Rgb { r: 45, g: 45, b: 65 }));
}

#[test]
fn empty_history_has_no_lines() {
    assert!(render_output_lines(&vec![]).is_empty());
}

#[test]
fn input_line_splits_at_cursor() {
    assert_eq!(texts(&input_line("", 0)), vec!["> ", "Type your message or /command"]);
    assert_eq!(texts(&input_line("help", 2)), vec!["> ", "he", "l", "p"]);
    assert_eq!(texts(&input_line("help", 4)), vec!["> ", "help", " ", ""]);
}

#[test]
fn suggestions_show_a_window_and_a_count() {
    let cs = commands();
    let n = cs.len();
    let lines = suggestion_lines(&cs, 0, 8);
    assert_eq!(lines.len(), 9);
    assert_eq!(texts(&lines[0]), vec!["  help                ", "Show all available commands"]);
    assert!(lines[0].spans[0].bold);
    assert!(!lines[1].spans[0].bold);
    assert_eq!(texts(&lines[8]), vec![format!("  ▼  (8/{})", n)]);

    let lines = suggestion_lines(&cs, 10, 8);
    assert_eq!(lines.len(), 9);
    assert_eq!(lines[0].spans[0].text.trim(), "scan history");
    assert!(lines[7].spans[0].bold);
    assert_eq!(texts(&lines[8]), vec![format!("  ▼  (11/{})", n)]);

    let few = suggestion_lines(&cs, 0, 100);
    assert_eq!(few.len(), n);
}

#[test]
fn spinner_cycles_through_frames() {
    assert_eq!(texts(&spinner_line(11)), vec![" ⠙ ", "Executing", "..."]);
    assert_eq!(texts(&spinner_line(0))[0], " ⠋ ");
}
