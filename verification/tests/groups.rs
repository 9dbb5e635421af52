use gitlink::prp_hub::group::{
    collect_groups, groups_report_text, membership_screen, parse_commit_log,
};

#[test]
fn groups_across_repositories() {
    let log_a = "aaaaaaaaaaaa\nFirst change\n\nGroup-ID: g2\n---COMMIT_END---\nbbbbbbbbbbbb\nNo group here\n---COMMIT_END---\n";
    let log_b = "cccccccccccc\nSecond change\n\nGroup-ID: g1\n---COMMIT_END---\ndddddddddddd\nThird\n\nGroup-ID: g2\n---COMMIT_END---\n";
    let mut all = parse_commit_log("a", log_a);
    all.extend(parse_commit_log("b", log_b));
    assert_eq!(all.len(), 3);
    let groups = collect_groups(&all);
    let ids: Vec<&str> = groups.iter().map(|g| g.group_id.as_str()).collect();
    assert_eq!(ids, vec!["g1", "g2"]);
    assert_eq!(groups[1].repo_count, 2);
    assert_eq!(groups[1].commits[0].short_sha, "aaaaaaaa");
    let report = groups_report_text(2, &groups);
    assert!(report.starts_with("\n🔍 Scanning 2 active repositories for linked commit groups...\n\n"));
    assert!(report.contains("📦 Group-ID: g2\n   Spans 2 repo(s)\n"));
    assert!(report.contains("   [a]  aaaaaaaa  First change\n"));
    assert!(report.ends_with(&format!("{}\nTotal groups found: 2\n", "=".repeat(80))));
}

#[test]
fn no_groups_report() {
    assert_eq!(
        groups_report_text(0, &Vec::new()),
        "\n🔍 Scanning 0 active repositories for linked commit groups...\n\nℹ️  No commits with Group-ID trailers found.\n"
    );
}

#[test]
fn membership_listing() {
    let active = vec![("api".to_string(), "/w/api".to_string())];
    let excluded = vec![("web".to_string(), "/w/web".to_string())];
    let text = membership_screen(&active, &excluded);
    let eq = "=".repeat(80);
    assert_eq!(
        text,
        format!("\n{eq}\n🔗 GitLink PRP Hub — Repository Sync Membership\n{eq}\n\n✅ Active repos (1):\n   • api (/w/api)\n\n🚫 Excluded repos (1):\n   • web (/w/web)\n")
    );
    assert!(!membership_screen(&active, &Vec::new()).contains("Excluded"));
}

#[test]
fn log_with_readable_ids_is_accepted() {
    let raw = "0123456789abcdef\nfix\n\nGroup-ID: g1\n---COMMIT_END---\n";
    assert!(gitlink::prp_hub::group::commit_log_ok(raw));
    assert!(gitlink::prp_hub::group::commit_log_ok(""));
    let short = "abc\nmsg\n---COMMIT_END---\n";
    assert!(gitlink::prp_hub::group::commit_log_ok(short));
    let split = "abcdefgé12\nmsg\nGroup-ID: g\n---COMMIT_END---\n";
    assert!(!gitlink::prp_hub::group::commit_log_ok(split));
}
