use gitlink::scanner::ignore::{
    add_ignored, empty_database, get_ignored_list_string, gitignore_entries_to_add,
    remove_by_short_id, IgnoredItem,
};

fn item(fp: &str, id: &str) -> IgnoredItem {
    IgnoredItem {
        fingerprint: fp.to_string(),
        short_id: id.to_string(),
        variable: "API_KEY".to_string(),
        source: "working".to_string(),
        commit: None,
    }
}

#[test]
fn adding_twice_keeps_one() {
    let mut db = empty_database();
    assert!(add_ignored(&mut db, item("f1", "a1")));
    assert!(!add_ignored(&mut db, item("f1", "zz")));
    assert!(add_ignored(&mut db, item("f2", "b2")));
    assert_eq!(db.ignored.len(), 2);
}

#[test]
fn removed_short_id_is_gone() {
    let mut db = empty_database();
    add_ignored(&mut db, item("f1", "a1"));
    add_ignored(&mut db, item("f2", "b2"));
    remove_by_short_id(&mut db, "a1");
    assert_eq!(db.ignored.len(), 1);
    assert_eq!(db.ignored[0].short_id, "b2");
    let listing = get_ignored_list_string(&db);
    assert!(listing.contains("b2"));
    assert!(!listing.contains("a1"));
}

#[test]
fn gitignore_additions() {
    let added = gitignore_entries_to_add("").expect("an empty file lacks every entry");
    assert!(added.starts_with("\n# GitLink Auto-Ignored Items\n.gitlinkignore.json\n.git\ntarget\n"));
    assert!(added.ends_with("*.tar\n*.gz\n"));
    // A file that already holds every entry needs nothing more.
    assert_eq!(gitignore_entries_to_add(&added), None);
    // Entries present (even with spaces around them) are not added again.
    let partial = gitignore_entries_to_add("  target  \nfoo\n").unwrap();
    assert!(!partial.contains("\ntarget\n"));
    assert!(partial.contains("\nnode_modules\n"));
}
