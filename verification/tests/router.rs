use gitlink::github::cache::cache_path_in;
use gitlink::router::{help_text, parse_route, show_date, Route};

#[test]
fn routes_of_commands() {
    assert!(matches!(parse_route("/help"), Route::Help));
    assert!(matches!(parse_route("/auth login"), Route::AuthLogin));
    assert!(matches!(parse_route("/auth logout"), Route::AuthLogout));
    assert!(matches!(parse_route("/scan history"), Route::ScanHistory));
    assert!(matches!(parse_route("/scan"), Route::ScanDirectory));
    assert!(matches!(parse_route("/prp list"), Route::PrpList));
    assert!(matches!(parse_route("/push-verify"), Route::PushVerify));
    assert!(matches!(parse_route("/frobnicate"), Route::Unknown(c) if c == "frobnicate"));
}

#[test]
fn help_lists_commands() {
    let h = help_text();
    assert!(h.starts_with("Available commands:\n"));
    assert!(h.contains("/multi-sync"));
    assert!(h.ends_with("Ctrl+C quit"));
}

#[test]
fn dates_are_formatted() {
    assert_eq!(show_date("2024-01-03T10:20:30Z", "%Y-%m-%d %H:%M:%S", "?"), "2024-01-03 10:20:30");
    assert_eq!(show_date("yesterday", "%Y", "?"), "?");
    assert_eq!(show_date("2024-01-03T10:20:30Z", "%Q", "bad"), "bad");
    assert_eq!(show_date("2024-01-03T10:20:30Z", "%Y %", "bad"), "bad");
    assert_eq!(show_date("2024-01-03T10:20:30+02:00", "%H:%M", "?"), "10:20");
    assert_eq!(show_date("nope", "%H:%M", "?"), "?");
}

#[test]
fn cache_paths() {
    assert_eq!(cache_path_in("/home/u/.cache", "repos"), "/home/u/.cache/gitlink/repos.json");
    assert_eq!(cache_path_in("/home/u/.cache/", "repos"), "/home/u/.cache/gitlink/repos.json");
}
