use gitlink::github::push_checker::{push_preview_if_fits, push_totals_fit, PreviewCommit};

fn commit(id: &str, files: usize, ins: usize, del: usize) -> PreviewCommit {
    PreviewCommit {
        short_id: id.to_string(),
        message: format!("commit {}", id),
        files_changed: files,
        insertions: ins,
        deletions: del,
    }
}

#[test]
fn preview_lists_commits_oldest_first_with_totals() {
    let p = push_preview_if_fits("main", vec![commit("new", 2, 10, 1), commit("old", 3, 5, 4)]).unwrap();
    assert_eq!(p.branch, "main");
    assert_eq!(p.commits.iter().map(|c| c.short_id.clone()).collect::<Vec<_>>(), vec!["old", "new"]);
    assert_eq!((p.total_files, p.total_insertions, p.total_deletions), (5, 15, 5));
}

#[test]
fn totals_that_overflow_give_no_preview() {
    let cs = vec![commit("a", usize::MAX, 0, 0), commit("b", 1, 0, 0)];
    assert!(!push_totals_fit(&cs));
    assert!(push_preview_if_fits("main", cs).is_none());
    let exact = vec![commit("a", usize::MAX - 1, 0, 0), commit("b", 1, 0, 0)];
    assert!(push_totals_fit(&exact));
    assert!(push_totals_fit(&Vec::new()));
}
