use gitlink::github::listings::{
    branches_text, find_remote_repo, issues_text, BranchNode, BranchesPage, IssueNode, IssuesPage, RemoteRepo,
};

fn rule() -> String {
    "─".repeat(60)
}

fn remote(name: &str, owner: &str) -> RemoteRepo {
    RemoteRepo { name: name.to_string(), owner_login: owner.to_string(), name_with_owner: format!("{}/{}", owner, name) }
}

#[test]
fn local_repo_is_found_by_name_or_full_name() {
    let repos = vec![remote("tools", "ann"), remote("gitlink", "bob"), remote("gitlink-extra", "bob")];
    assert_eq!(find_remote_repo(&repos, "gitlink"), Ok(1));
    assert_eq!(find_remote_repo(&repos, "ann/tools"), Ok(0));
    assert_eq!(find_remote_repo(&repos, "link-ex"), Ok(2));
}

#[test]
fn missing_local_repo_is_refused() {
    let repos = vec![remote("tools", "ann")];
    assert_eq!(find_remote_repo(&repos, "web"), Err("Repository 'web' not found on GitHub.".to_string()));
    assert_eq!(find_remote_repo(&Vec::new(), "web"), Err("Repository 'web' not found on GitHub.".to_string()));
}

#[test]
fn branches_page_lists_each_branch() {
    let page = BranchesPage {
        name_with_owner: "bob/gitlink".to_string(),
        total_count: 2,
        branches: vec![
            BranchNode {
                name: "main".to_string(),
                oid: "0123456789abcdef".to_string(),
                committed_date: Some("2024-01-15T10:30:00Z".to_string()),
                author: Some("Bob".to_string()),
            },
            BranchNode { name: "wip".to_string(), oid: "abc".to_string(), committed_date: None, author: None },
        ],
    };
    let expected = format!(
        "Branches — bob/gitlink (Total: 2)\n{r}\n\n🌿 main\n   Commit: 01234567  Last commit: 2024-01-15 10:30:00\n   Author: Bob\n{r}\n\n🌿 wip\n   Commit: abc  Last commit: N/A\n   Author: unknown\n{r}\n",
        r = rule()
    );
    assert_eq!(branches_text(&page), expected);
}

#[test]
fn branch_with_unparsable_date_shows_na() {
    let page = BranchesPage {
        name_with_owner: "a/b".to_string(),
        total_count: 1,
        branches: vec![BranchNode {
            name: "x".to_string(),
            oid: "ffffffff00".to_string(),
            committed_date: Some("last week".to_string()),
            author: Some("Eve".to_string()),
        }],
    };
    assert!(branches_text(&page).contains("Commit: ffffffff  Last commit: N/A\n"));
}

#[test]
fn issues_page_without_issues() {
    let page = IssuesPage { total_count: 0, issues: vec![] };
    assert_eq!(issues_text(&page), format!("Open Issues — Total: 0\n{}\n\nNo open issues found.\n", rule()));
}

#[test]
fn issues_page_lists_each_issue() {
    let page = IssuesPage {
        total_count: 2,
        issues: vec![
            IssueNode {
                number: 7,
                title: "Crash on start".to_string(),
                state: "OPEN".to_string(),
                created_at: "2024-03-01T08:00:00Z".to_string(),
                author: Some("ann".to_string()),
                url: "https://github.com/ann/tools/issues/7".to_string(),
            },
            IssueNode {
                number: 9,
                title: "Docs".to_string(),
                state: "OPEN".to_string(),
                created_at: "yesterday".to_string(),
                author: None,
                url: "u".to_string(),
            },
        ],
    };
    let expected = format!(
        "Open Issues — Total: 2\n{r}\n\n📝 #7 — Crash on start\n   State: OPEN  Created: 2024-03-01  Author: ann\n   🔗 https://github.com/ann/tools/issues/7\n{r}\n\n📝 #9 — Docs\n   State: OPEN  Created: yesterday  Author: unknown\n   🔗 u\n{r}\n",
        r = rule()
    );
    assert_eq!(issues_text(&page), expected);
}
