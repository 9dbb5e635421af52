use gitlink::scanner::ignore::IgnoredItem;
use gitlink::scanner::report::Finding;
use gitlink::tui::overlays::{IgnoreOverlay, ScanChoice, ScannerOverlay};
use gitlink::tui::review_views::{
    clear_all_row, commit_cuts_cleanly, finding_lines, ignore_button, ignore_hint, ignored_rows, keep_button,
    review_hint, review_title,
};
use gitlink::tui::styled::{Rgb, StyledLine};

fn texts(l: &StyledLine) -> Vec<String> {
    l.spans.iter().map(|s| s.text.clone()).collect()
}

fn finding(commit: Option<&str>) -> Finding {
    Finding {
        secret_type: "AWS Access Key".to_string(),
        file: "src/main.rs".to_string(),
        line: 42,
        column: 7,
        content: "  let key = \"AKIA...\";  ".to_string(),
        fingerprint: "fp".to_string(),
        commit: commit.map(|c| c.to_string()),
    }
}

#[test]
fn review_title_counts_from_one() {
    let ov = ScannerOverlay::new(vec![finding(None), finding(None)]);
    assert_eq!(review_title(&ov), "  🔍 Secret Scanner — Finding 1/2 ");
}

#[test]
fn finding_lines_describe_the_place() {
    let f = finding(None);
    let lines = finding_lines(&f, "/work/src/main.rs");
    assert_eq!(lines.len(), 5);
    assert_eq!(
        lines[0].spans[0].text,
        "\x1b]8;;file:///work/src/main.rs\x1b\\src/main.rs:42\x1b]8;;\x1b\\"
    );
    assert!(lines[0].spans[0].underlined && lines[0].spans[0].bold);
    assert_eq!(lines[0].spans[1].text, ":42:7");
    assert_eq!(texts(&lines[1]), vec!["    │"]);
    assert_eq!(texts(&lines[2]), vec!["   42 ", "let key = \"AKIA...\";"]);
    assert_eq!(texts(&lines[4]), vec!["    = detected: ", "AWS Access Key"]);
}

#[test]
fn history_findings_show_the_short_commit() {
    let f = finding(Some("0123456789abcdef"));
    assert!(commit_cuts_cleanly(&f));
    let lines = finding_lines(&f, "/x");
    assert_eq!(lines.len(), 6);
    assert_eq!(texts(&lines[5]), vec!["    @ commit ", "01234567"]);
    let short = finding(Some("abc"));
    assert_eq!(texts(&finding_lines(&short, "/x")[5])[1], "abc");
    assert!(!commit_cuts_cleanly(&finding(Some("abcdefgé"))));
}

#[test]
fn buttons_light_the_choice() {
    let (ig, ig_border) = ignore_button(ScanChoice::Ignore);
    assert_eq!(ig.bg, Some(Rgb { r: 220, g: 80, b: 80 }));
    assert_eq!(ig_border, Rgb { r: 220, g: 80, b: 80 });
    let (keep, keep_border) = keep_button(ScanChoice::Ignore);
    assert_eq!(keep.bg, None);
    assert_eq!(keep.text, "  ✔  Keep showing  ");
    assert_eq!(keep_border, Rgb { r: 50, g: 50, b: 65 });
    let (keep, _) = keep_button(ScanChoice::Keep);
    assert_eq!(keep.bg, Some(Rgb { r: 80, g: 200, b: 120 }));
    assert_eq!(texts(&review_hint()).concat(), "  ←/→ select  Enter confirm  Esc/q skip all");
}

fn item(id: &str, var: &str) -> IgnoredItem {
    IgnoredItem {
        fingerprint: format!("fp-{}", id),
        short_id: id.to_string(),
        variable: var.to_string(),
        source: "working".to_string(),
        commit: None,
    }
}

#[test]
fn ignore_rows_mark_the_selection() {
    let mut ov = IgnoreOverlay::new(vec![item("ab12", "API_KEY"), item("cd34", "TOKEN")]);
    let rows = ignored_rows(&ov);
    assert_eq!(rows.len(), 2);
    assert_eq!(texts(&rows[0]), vec!["> ", "[ab12] ", "API_KEY", " (working)"]);
    assert_eq!(rows[0].spans[2].bg, Some(Rgb { r: 30, g: 30, b: 45 }));
    assert_eq!(texts(&rows[1])[0], "  ");
    assert_eq!(texts(&clear_all_row(&ov)), vec!["  ", "Clear ALL ignored findings"]);
    ov.selected = 2;
    let clear = clear_all_row(&ov);
    assert_eq!(texts(&clear)[0], "> ");
    assert!(clear.spans[1].bold);
    assert_eq!(texts(&ignore_hint()).concat(), "  ↑/↓ navigate  Enter remove  Esc exit");
}

#[test]
fn empty_ignore_list_has_no_rows() {
    let ov = IgnoreOverlay::new(vec![]);
    assert!(ignored_rows(&ov).is_empty());
}
