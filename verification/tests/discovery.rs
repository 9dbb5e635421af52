use gitlink::prp_hub::discovery::order_repositories;
use gitlink::prp_hub::errors::PrpError;
use gitlink::prp_hub::session::RepositoryInfo;

fn repo(name: &str, path: &str) -> RepositoryInfo {
    RepositoryInfo { name: name.to_string(), path: path.to_string() }
}

fn paths(rs: &[RepositoryInfo]) -> Vec<String> {
    rs.iter().map(|r| r.path.clone()).collect()
}

#[test]
fn repositories_are_sorted_by_path_components() {
    let found = vec![repo("a-b", "/w/a-b"), repo("b", "/w/a/b"), repo("w", "/w"), repo("z", "/w/z")];
    let out = order_repositories(&found).ok().unwrap();
    assert_eq!(paths(&out), vec!["/w", "/w/a/b", "/w/a-b", "/w/z"]);
}

#[test]
fn each_path_is_kept_once_first_seen() {
    let found = vec![repo("first", "/w/x"), repo("y", "/w/y"), repo("second", "/w/x/")];
    let out = order_repositories(&found).ok().unwrap();
    assert_eq!(paths(&out), vec!["/w/x", "/w/y"]);
    assert_eq!(out[0].name, "first");
}

#[test]
fn nothing_found_is_an_error() {
    assert!(matches!(order_repositories(&Vec::new()), Err(PrpError::NoRepositoriesFound)));
}
