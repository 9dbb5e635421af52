use gitlink::prp_hub::config::paths_equal;
use gitlink::prp_hub::config::{exclude_repo, include_repo, is_excluded, PrpConfig};

#[test]
fn exclude_then_include() {
    let mut c = PrpConfig { excluded_repos: Vec::new() };
    exclude_repo(&mut c, "a".to_string());
    exclude_repo(&mut c, "a".to_string());
    exclude_repo(&mut c, "b".to_string());
    assert_eq!(c.excluded_repos, vec!["a".to_string(), "b".to_string()]);
    assert!(is_excluded(&c, "a"));
    include_repo(&mut c, "a");
    assert!(!is_excluded(&c, "a"));
    assert!(is_excluded(&c, "b"));
}

#[test]
fn paths_are_compared_by_components() {
    assert!(paths_equal("a/b", "a/b/"));
    assert!(paths_equal("a/b", "a//b"));
    assert!(paths_equal("a/./b", "a/b"));
    assert!(paths_equal("/x/y", "/x/./y/"));
    assert!(!paths_equal("/a", "a"));
    assert!(!paths_equal("./a", "a"));
    assert!(!paths_equal("a/../b", "b"));
    let mut c = PrpConfig::default();
    exclude_repo(&mut c, "a/b".to_string());
    assert!(is_excluded(&c, "a/b/"));
    exclude_repo(&mut c, "a/b/".to_string());
    assert_eq!(c.excluded_repos, vec!["a/b"]);
    exclude_repo(&mut c, "c".to_string());
    exclude_repo(&mut c, "a".to_string());
    include_repo(&mut c, "a/./b//");
    assert_eq!(c.excluded_repos, vec!["c", "a"]);
}
