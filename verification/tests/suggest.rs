use gitlink::tui::suggest::{closest_command, matching};

#[test]
fn closest_command_to_typo() {
    assert_eq!(closest_command("comits").name, "commits");
    assert_eq!(closest_command("user-inf").name, "user-info");
    assert_eq!(closest_command("clear").name, "clear");
}

#[test]
fn matching_commands_by_text() {
    let m = matching("pu");
    let names: Vec<&str> = m.iter().map(|c| c.name).collect();
    assert!(names.contains(&"push-check"));
    assert!(names.contains(&"push-verify"));
    assert!(names.contains(&"pull-requests"));
    assert!(!names.contains(&"plan"));
    assert_eq!(matching("").len(), 20);
}
