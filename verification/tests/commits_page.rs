use gitlink::github::graphql::{
    BranchWithCommits, Commit, CommitAuthor, CommitHistory, CommitTarget, RepositoriesWithCommits,
    RepositoryWithCommits, UserCommitsResponse, ViewerCommits,
};
use gitlink::router::commits_text;

fn commit(msg: &str, date: &str, oid: &str) -> Commit {
    Commit {
        message: msg.to_string(),
        committed_date: date.to_string(),
        oid: oid.to_string(),
        additions: 1,
        deletions: 2,
        author: CommitAuthor { name: Some("Ann".to_string()), email: None, date: date.to_string() },
    }
}

fn repo(name: &str, commits: Vec<Commit>) -> RepositoryWithCommits {
    RepositoryWithCommits {
        name: name.to_string(),
        name_with_owner: format!("o/{}", name),
        default_branch_ref: Some(BranchWithCommits {
            target: CommitTarget { history: CommitHistory { nodes: commits } },
        }),
    }
}

#[test]
fn three_newest_commits_across_repositories() {
    let r = UserCommitsResponse {
        viewer: ViewerCommits {
            login: "ann".to_string(),
            repositories: RepositoriesWithCommits {
                nodes: vec![
                    repo("a", vec![commit("a1", "2024-01-01T00:00:00Z", "aaaaaaaa11"), commit("a2", "2024-01-05T00:00:00Z", "aaaaaaaa22")]),
                    repo("b", vec![commit("b1", "2024-01-03T00:00:00Z", "bbbbbbbb11"), commit("b2", "2024-01-04T00:00:00Z", "bbbbbbbb22")]),
                ],
            },
        },
    };
    let text = commits_text(&r);
    assert!(text.starts_with("3 Most Recent Commits — ann\n"));
    let a2 = text.find("💬 a2").unwrap();
    let b2 = text.find("💬 b2").unwrap();
    let b1 = text.find("💬 b1").unwrap();
    assert!(a2 < b2 && b2 < b1);
    assert!(!text.contains("💬 a1"));
    assert!(text.contains("📝 2024-01-05 00:00:00  🔑 aaaaaaaa\n"));
    assert!(text.contains("👤 Ann  📊 +1 -2\n"));
}
