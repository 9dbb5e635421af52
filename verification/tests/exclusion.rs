use gitlink::prp_hub::config::PrpConfig;
use gitlink::prp_hub::session::{split_by_exclusion, RepositoryInfo};

fn repo(name: &str, path: &str) -> RepositoryInfo {
    RepositoryInfo { name: name.to_string(), path: path.to_string() }
}

#[test]
fn repositories_split_by_the_exclusion_list() {
    let repos = vec![repo("a", "/w/a"), repo("b", "/w/b"), repo("c", "/w/c")];
    let config = PrpConfig { excluded_repos: vec!["/w/b/".to_string()] };
    let (active, left_out) = split_by_exclusion(&repos, &config);
    assert_eq!(active.iter().map(|r| r.name.clone()).collect::<Vec<_>>(), vec!["a", "c"]);
    assert_eq!(left_out.iter().map(|r| r.path.clone()).collect::<Vec<_>>(), vec!["/w/b"]);
}
