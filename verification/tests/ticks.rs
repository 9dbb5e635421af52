use gitlink::tui::app::App;
use gitlink::tui::keys::{KeyCode, KeyEvent};
use gitlink::tui::overlays::{auth_overlay_tick, AuthOverlay, AuthStep};

fn polling() -> AuthOverlay {
    let mut ov = AuthOverlay::new();
    ov.step = AuthStep::Polling { user_code: "AB-12".to_string(), url: "u".to_string(), frame: 0 };
    ov.polling = true;
    ov
}

#[test]
fn login_success_closes_the_overlay() {
    let mut ov = polling();
    assert!(auth_overlay_tick(&mut ov, Some("__AUTH_SUCCESS__".to_string())));
    assert!(ov.done);
    assert!(!ov.polling);
}

#[test]
fn other_ticks_keep_the_overlay() {
    let mut ov = polling();
    assert!(!auth_overlay_tick(&mut ov, None));
    assert!(!ov.done);
    assert!(!auth_overlay_tick(&mut ov, Some("Error: denied".to_string())));
    assert!(matches!(ov.step, AuthStep::Result(_)));
    let mut idle = AuthOverlay::new();
    assert!(!auth_overlay_tick(&mut idle, Some("__AUTH_SUCCESS__".to_string())));
    assert!(!idle.done);
}

#[test]
fn ctrl_c_quits_while_a_command_runs() {
    let mut app = App::new();
    app.is_executing = true;
    let out = app.on_key(KeyEvent { code: KeyCode::Char('c'), ctrl: true, is_press: true });
    assert!(out.quit);
    let plain = app.on_key(KeyEvent { code: KeyCode::Char('c'), ctrl: false, is_press: true });
    assert!(!plain.quit);
}

#[test]
fn ctrl_c_quits_from_an_overlay() {
    let mut app = App::new();
    app.open_auth_overlay();
    let out = app.on_key(KeyEvent { code: KeyCode::Char('c'), ctrl: true, is_press: true });
    assert!(out.quit);
}
