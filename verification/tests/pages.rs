use gitlink::tui::pages::{
    build_activity_lines, build_commits_lines, build_help_lines, build_overlay_lines,
    build_prp_list_lines, build_prs_lines, build_push_lines, page_layout, PageLayout,
};
use gitlink::tui::styled::{Rgb, StyledLine};

const HEADER: Rgb = Rgb { r: 210, g: 218, b: 255 };
const LABEL: Rgb = Rgb { r: 100, g: 110, b: 150 };
const VALUE: Rgb = Rgb { r: 218, g: 224, b: 245 };
const DIM: Rgb = Rgb { r: 50, g: 55, b: 72 };
const GREEN: Rgb = Rgb { r: 80, g: 210, b: 130 };
const YELLOW: Rgb = Rgb { r: 230, g: 180, b: 60 };
const RED: Rgb = Rgb { r: 220, g: 80, b: 80 };
const BLUE: Rgb = Rgb { r: 100, g: 155, b: 245 };
const PURPLE: Rgb = Rgb { r: 160, g: 120, b: 240 };
const TEAL: Rgb = Rgb { r: 80, g: 195, b: 200 };
const BODY: Rgb = Rgb { r: 185, g: 192, b: 218 };

fn spans(l: &StyledLine) -> Vec<(String, Option<Rgb>, bool)> {
    l.spans.iter().map(|s| (s.text.clone(), s.fg, s.bold)).collect()
}

fn sp(t: &str, c: Rgb, bold: bool) -> (String, Option<Rgb>, bool) {
    (t.to_string(), Some(c), bold)
}

fn plain(t: &str) -> (String, Option<Rgb>, bool) {
    (t.to_string(), None, false)
}

fn is_rule(l: &StyledLine) -> bool {
    l.spans.len() == 1
        && l.spans[0].fg == Some(DIM)
        && l.spans[0].text.starts_with("  ─")
        && l.spans[0].text.chars().skip(2).all(|c| c == '─')
}

#[test]
fn push_report_lines() {
    let content = "Push Status — branch: main\n───\n✅ Up to date\n📌 Local commit:  abc123\n   Can push:  ✅ Yes\n• run git push\nTOTAL: 3\nplain";
    let lines = build_push_lines(content);
    assert_eq!(lines.len(), 12);
    assert!(lines[0].spans.is_empty());
    assert_eq!(spans(&lines[1]), vec![sp("  Push Status", HEADER, true)]);
    assert_eq!(spans(&lines[2]), vec![sp("  branch  ", LABEL, false), sp("main", PURPLE, true)]);
    assert!(is_rule(&lines[3]));
    assert!(is_rule(&lines[4]));
    assert_eq!(spans(&lines[5]), vec![sp("  ✅ ", GREEN, false), sp("Up to date", GREEN, true)]);
    assert_eq!(
        spans(&lines[6]),
        vec![sp("  Local commit:     ", LABEL, false), sp("abc123", PURPLE, true)]
    );
    assert_eq!(
        spans(&lines[7]),
        vec![sp(&format!("  {:26}", "Can push:"), LABEL, false), sp("✅ Yes", GREEN, true)]
    );
    assert_eq!(spans(&lines[8]), vec![sp("    • run git push", YELLOW, false)]);
    assert_eq!(spans(&lines[9]), vec![sp("  TOTAL: 3", HEADER, true)]);
    assert_eq!(spans(&lines[10]), vec![sp("plain", BODY, false)]);
    assert!(lines[11].spans.is_empty());
}

#[test]
fn push_warning_drops_variation_selector() {
    let lines = build_push_lines("⚠️  Action required");
    assert_eq!(lines.len(), 3);
    assert_eq!(spans(&lines[1]), vec![sp("  ⚠ ", YELLOW, false), sp("Action required", YELLOW, true)]);
}

#[test]
fn activity_report_lines() {
    let content = "GitHub Activity — Jane (jane)\nTotal contributions : 455\nLast 3 days:\n2026-03-04 : ███ (3)\nGRID:1,2|0,4\n";
    let lines = build_activity_lines(content);
    assert_eq!(lines.len(), 26);
    assert_eq!(spans(&lines[1]), vec![sp("  ◈  ", GREEN, true), sp("Jane (jane)", HEADER, true)]);
    assert!(is_rule(&lines[2]));
    assert_eq!(
        spans(&lines[4]),
        vec![sp("  ⬡ ", GREEN, false), sp(&format!("{:22}", "Total contributions"), LABEL, false), sp("455", GREEN, true)]
    );
    assert_eq!(spans(&lines[7]), vec![sp("  Last 3 days", HEADER, true)]);
    assert_eq!(
        spans(&lines[9]),
        vec![
            sp("  2026-03-04 ", TEAL, false),
            sp("███", Rgb { r: 40, g: 150, b: 90 }, true),
            sp(" (3)", LABEL, false),
        ]
    );
    assert_eq!(spans(&lines[12]), vec![sp("  Contribution Activity — Last 365 days", HEADER, true)]);
    // Sunday: counts 1 and 0 against a largest count of 4.
    assert_eq!(
        spans(&lines[14]),
        vec![
            sp("  Sun ", LABEL, false),
            sp("█", Rgb { r: 14, g: 68, b: 41 }, false),
            plain(" "),
            sp("█", Rgb { r: 22, g: 27, b: 34 }, false),
            plain(" "),
        ]
    );
    // Monday: counts 2 and 4.
    assert_eq!(spans(&lines[15])[1], sp("█", Rgb { r: 0, g: 109, b: 50 }, false));
    assert_eq!(spans(&lines[15])[3], sp("█", Rgb { r: 57, g: 211, b: 83 }, false));
    // Saturday: no count in either week.
    assert_eq!(spans(&lines[20])[0], sp("  Sat ", LABEL, false));
    assert_eq!(spans(&lines[20])[1], sp("█", Rgb { r: 22, g: 27, b: 34 }, false));
    assert_eq!(spans(&lines[22]), vec![plain("       "), sp("Jan", LABEL, false), plain("  ")]);
    assert_eq!(lines[24].spans.len(), 11);
    assert!(lines[25].spans.is_empty());
}

#[test]
fn activity_figures_only_after_title() {
    let lines = build_activity_lines("Commits : 3");
    assert_eq!(lines.len(), 3);
    assert_eq!(spans(&lines[1]), vec![sp("Commits : 3", BODY, false)]);
}

#[test]
fn commits_report_lines() {
    let content = "3 Most Recent Commits — bob\n📦 bob/repo\n📝 2026-03-04  🔑 abc1234\n💬 Fix bug\n👤 Bob  📊 +10 -2\n";
    let lines = build_commits_lines(content);
    assert_eq!(lines.len(), 10);
    assert_eq!(spans(&lines[1]), vec![sp("  3 Most Recent Commits", HEADER, true)]);
    assert_eq!(spans(&lines[2]), vec![sp("  @", LABEL, false), sp("bob", BLUE, false)]);
    assert!(is_rule(&lines[3]));
    assert!(lines[4].spans.is_empty());
    assert_eq!(spans(&lines[5]), vec![sp("  📦 ", TEAL, false), sp("bob/repo", HEADER, true)]);
    assert_eq!(
        spans(&lines[6]),
        vec![plain("    "), sp("2026-03-04", TEAL, false), sp("  #", DIM, false), sp("abc1234", PURPLE, false)]
    );
    assert_eq!(spans(&lines[7]), vec![sp("    💬 ", LABEL, false), sp("Fix bug", VALUE, false)]);
    assert_eq!(
        spans(&lines[8]),
        vec![plain("    "), sp("Bob", LABEL, false), plain("   "), sp("+10 ", GREEN, false), sp("-2 ", RED, false)]
    );
}

#[test]
fn pull_request_lines() {
    let content = "Open Pull Requests — Total: 2\n🔀 #5 — Add feature\n   State: OPEN  Mergeable: CONFLICTING\n";
    let lines = build_prs_lines(content);
    assert_eq!(lines.len(), 9);
    assert_eq!(spans(&lines[1]), vec![sp("  Open Pull Requests", HEADER, true)]);
    assert_eq!(spans(&lines[2]), vec![sp("  Total  ", LABEL, false), sp("2", PURPLE, true)]);
    assert_eq!(
        spans(&lines[5]),
        vec![sp("  🔀 ", PURPLE, false), sp("#5", LABEL, false), plain("  "), sp("Add feature", HEADER, true)]
    );
    assert_eq!(spans(&lines[6]), vec![sp(&format!("     {:12}", "State:"), LABEL, false), sp("OPEN", GREEN, true)]);
    assert_eq!(
        spans(&lines[7]),
        vec![sp(&format!("     {:12}", "Mergeable:"), LABEL, false), sp("CONFLICTING", YELLOW, true)]
    );
}

#[test]
fn generic_lines_for_repo_sync() {
    let lines = build_overlay_lines("repo-sync", "Repository Sync\n  Branch: main\n✅ In sync\n");
    assert_eq!(lines.len(), 5);
    assert_eq!(spans(&lines[1]), vec![sp("  Repository Sync", HEADER, true)]);
    assert_eq!(
        spans(&lines[2]),
        vec![plain("  "), sp(&format!("{:26} ", "Branch:"), LABEL, false), sp("main", VALUE, true)]
    );
    assert_eq!(spans(&lines[3]), vec![plain(""), sp("✅ ", VALUE, false), sp("In sync", VALUE, false)]);
}

#[test]
fn layouts_by_command() {
    assert_eq!(page_layout("show-activity"), PageLayout::Activity);
    assert_eq!(page_layout("push-verify"), PageLayout::Push);
    assert_eq!(page_layout("repo-sync"), PageLayout::Generic);
    assert_eq!(page_layout("issues"), PageLayout::Issues);
    assert_eq!(page_layout("whatever"), PageLayout::Generic);
}

#[test]
fn issue_link_is_underlined() {
    let lines = build_overlay_lines("issues", "🔗 https://github.com/o/r/issues/1");
    assert_eq!(lines.len(), 3);
    assert_eq!(lines[1].spans[1].text, "https://github.com/o/r/issues/1");
    assert!(lines[1].spans[1].underlined);
    assert_eq!(lines[1].spans[1].fg, Some(BLUE));
}

#[test]
fn help_page_lines() {
    let lines = build_help_lines();
    assert_eq!(lines.len(), 3 + 19 * 2 + 2);
    assert_eq!(lines[1].spans[0].text, "  Available Commands");
    assert_eq!(lines[3].spans[0].text, format!("  {:20}", "/auth"));
    assert_eq!(lines[42].spans.len(), 6);
}

#[test]
fn prp_list_page_lines() {
    let lines = build_prp_list_lines();
    assert_eq!(lines.len(), 6);
    assert_eq!(lines[5].spans[0].text, "  Use /prp to start a new session.");
}
