use gitlink::github::actions::{
    run_status_icon, sort_runs_newest_first, workflow_runs_text, RunRepository, WorkflowRun,
};

fn run(id: u64, name: &str, created: &str, conclusion: Option<&str>, status: &str) -> WorkflowRun {
    WorkflowRun {
        id,
        name: name.to_string(),
        head_branch: "main".to_string(),
        head_sha: "abc".to_string(),
        status: status.to_string(),
        conclusion: conclusion.map(|c| c.to_string()),
        created_at: created.to_string(),
        updated_at: created.to_string(),
        html_url: "https://x".to_string(),
        repository: RunRepository { full_name: "o/r".to_string() },
    }
}

#[test]
fn runs_sorted_newest_first_and_stable() {
    let runs = vec![
        run(1, "a", "2024-01-02T00:00:00Z", None, "queued"),
        run(2, "b", "2024-01-03T00:00:00Z", None, "queued"),
        run(3, "c", "2024-01-02T00:00:00Z", None, "queued"),
        run(4, "d", "2023-12-31T00:00:00Z", None, "queued"),
    ];
    let sorted = sort_runs_newest_first(runs);
    let ids: Vec<u64> = sorted.iter().map(|r| r.id).collect();
    assert_eq!(ids, vec![2, 1, 3, 4]);
}

#[test]
fn status_icons() {
    assert_eq!(run_status_icon(&Some("success".to_string()), "completed"), "✅");
    assert_eq!(run_status_icon(&Some("failure".to_string()), "completed"), "❌");
    assert_eq!(run_status_icon(&Some("neutral".to_string()), "queued"), "⏳");
    assert_eq!(run_status_icon(&None, "in_progress"), "🔄");
    assert_eq!(run_status_icon(&None, "waiting"), "❓");
}

#[test]
fn listing_with_limit() {
    let runs = vec![
        run(1, "Build", "2024-01-03T10:20:30Z", Some("success"), "completed"),
        run(2, "Test", "2024-01-02T00:00:00Z", None, "queued"),
        run(3, "Lint", "not a date", None, "queued"),
    ];
    let text = workflow_runs_text(&runs, Some(1));
    let eq = "=".repeat(80);
    let expected = format!(
        "\n{eq}\n⚡ GitHub Actions Workflow Runs\n{eq}\n\n✅ Build\n   Repository: o/r\n   Branch: main\n   Status: completed\n   Conclusion: success\n   Created: 2024-01-03 10:20:30\n   🔗 https://x\n{}\n\n... and 2 more runs\n\n",
        "─".repeat(80)
    );
    assert_eq!(text, expected);
}

#[test]
fn listing_skips_unreadable_date() {
    let runs = vec![run(3, "Lint", "not a date", None, "queued")];
    let text = workflow_runs_text(&runs, None);
    assert!(text.contains("\n⏳ Lint\n"));
    assert!(!text.contains("Created:"));
    assert!(!text.contains("Conclusion:"));
    assert!(!text.contains("more runs"));
}

#[test]
fn listing_without_runs() {
    let eq = "=".repeat(80);
    assert_eq!(
        workflow_runs_text(&Vec::new(), None),
        format!("\n{eq}\n⚡ GitHub Actions Workflow Runs\n{eq}\nNo workflow runs found.\n")
    );
    let runs = vec![run(1, "Build", "2024-01-03T10:20:30Z", None, "queued")];
    assert!(workflow_runs_text(&runs, Some(0)).ends_with("No workflow runs found.\n"));
}
