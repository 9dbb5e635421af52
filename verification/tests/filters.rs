use gitlink::scanner::filters::{looks_binary, skip_path, too_large, MAX_FILE_SIZE};

#[test]
fn build_directories_are_skipped() {
    assert!(skip_path("target/debug/main.rs"));
    assert!(skip_path("./web/node_modules/lib/index.js"));
    assert!(skip_path("a/.git/config"));
    assert!(!skip_path("src/main.rs"));
    assert!(!skip_path("build"));
}

#[test]
fn lock_files_and_binaries_are_skipped() {
    assert!(skip_path("Cargo.lock"));
    assert!(skip_path("app/package-lock.json"));
    assert!(skip_path("img/logo.png"));
    assert!(skip_path("lib/x.tar.gz"));
    assert!(skip_path("out.d"));
    assert!(!skip_path("x/.env"));
    assert!(!skip_path("notes.txt"));
}

#[test]
fn generated_segments_are_skipped() {
    assert!(skip_path("t/release/deps/foo.txt"));
    assert!(skip_path("x/.fingerprint/y"));
}

#[test]
fn size_and_binary_checks() {
    assert_eq!(MAX_FILE_SIZE, 2_000_000);
    assert!(too_large(2_000_001));
    assert!(!too_large(2_000_000));
    assert!(looks_binary("ab\0cd"));
    assert!(!looks_binary("plain text"));
}
