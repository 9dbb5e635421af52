use gitlink::github::repo_selector::RepoSelector;
use gitlink::github::graphql::{Owner, RepositoryInfo};
use gitlink::github::sync_checker::matching_repo;

fn repo(name: &str, owner: &str) -> RepositoryInfo {
    RepositoryInfo {
        name: name.to_string(),
        name_with_owner: format!("{}/{}", owner, name),
        description: None,
        is_private: false,
        default_branch_ref: None,
        updated_at: String::new(),
        url: String::new(),
        ssh_url: String::new(),
        owner: Owner { login: owner.to_string() },
    }
}

#[test]
fn clone_name_picks_the_first_matching_repository() {
    let repos = vec![repo("gitlink-docs", "me"), repo("gitlink", "me"), repo("other", "you")];
    assert_eq!(matching_repo(&repos, "gitlink"), Some(0));
    assert_eq!(matching_repo(&repos, "other"), Some(2));
    assert_eq!(matching_repo(&repos, "you/other"), Some(2));
    assert_eq!(matching_repo(&repos, "missing"), None);
}

#[test]
fn filter_keeps_every_field_and_ignores_case() {
    let mut a = repo("GitLink", "me");
    a.is_private = true;
    a.url = "https://x/a".to_string();
    a.ssh_url = "git@x:a".to_string();
    a.description = Some("Terminal tool".to_string());
    let b = repo("other", "you");
    let sel = RepoSelector::from_repos(vec![a, b]);
    let found = sel.filter_by_name("link");
    assert_eq!(found.len(), 1);
    assert_eq!(found[0].name, "GitLink");
    assert!(found[0].is_private);
    assert_eq!(found[0].url, "https://x/a");
    assert_eq!(found[0].ssh_url, "git@x:a");
    let upper = sel.filter_by_name("LINK");
    assert_eq!(upper.len(), 1);
    assert_eq!(upper[0].name, "GitLink");
    assert_eq!(sel.filter_by_name("TERMINAL").len(), 1);
    let all = sel.filter_by_name("");
    let names: Vec<&str> = all.iter().map(|r| r.name.as_str()).collect();
    assert_eq!(names, vec!["GitLink", "other"]);
}
