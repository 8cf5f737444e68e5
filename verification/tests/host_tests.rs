use muednote::startup::{
    accelerator, database_url, database_url_key, event_on, Signal, ACQUIRE_TIMEOUT_SECS,
    MAX_CONNECTIONS,
};
use muednote::window::{needs_visibility, plan, target, WindowCommand, WindowOp};

#[test]
fn toggle_hides_a_visible_main_window() {
    assert_eq!(target(WindowCommand::ToggleVisibility), "main");
    assert!(needs_visibility(WindowCommand::ToggleVisibility));
    assert_eq!(plan(WindowCommand::ToggleVisibility, true), vec![WindowOp::Hide]);
}

#[test]
fn toggle_shows_and_focuses_a_hidden_main_window() {
    assert_eq!(
        plan(WindowCommand::ToggleVisibility, false),
        vec![WindowOp::Show, WindowOp::SetFocus]
    );
}

#[test]
fn overlay_is_shown_focused_and_centred() {
    assert_eq!(target(WindowCommand::ShowOverlay), "overlay");
    assert!(!needs_visibility(WindowCommand::ShowOverlay));
    let ops = vec![WindowOp::Show, WindowOp::SetFocus, WindowOp::Center];
    assert_eq!(plan(WindowCommand::ShowOverlay, false), ops);
    assert_eq!(plan(WindowCommand::ShowOverlay, true), ops);
}

#[test]
fn overlay_is_hidden() {
    assert_eq!(target(WindowCommand::HideOverlay), "overlay");
    assert!(!needs_visibility(WindowCommand::HideOverlay));
    assert_eq!(plan(WindowCommand::HideOverlay, true), vec![WindowOp::Hide]);
    assert_eq!(plan(WindowCommand::HideOverlay, false), vec![WindowOp::Hide]);
}

#[test]
fn database_url_falls_back() {
    assert_eq!(database_url(None), "postgres://localhost/muednote");
    assert_eq!(database_url(Some("postgres://db/notes".to_string())), "postgres://db/notes");
    assert_eq!(database_url(Some(String::new())), "");
    assert_eq!(database_url_key(), "MUEDNOTE_DATABASE_URL");
}

#[test]
fn pool_bounds() {
    assert_eq!(MAX_CONNECTIONS, 5);
    assert_eq!(ACQUIRE_TIMEOUT_SECS, 30);
}

#[test]
fn shortcuts_raise_their_signal_on_press_only() {
    assert_eq!(accelerator(Signal::ToggleConsole), "CmdOrCtrl+Shift+Space");
    assert_eq!(accelerator(Signal::ToggleDashboard), "CmdOrCtrl+Shift+D");
    assert_eq!(event_on(Signal::ToggleConsole, true), Some("toggle-console"));
    assert_eq!(event_on(Signal::ToggleDashboard, true), Some("toggle-dashboard"));
    assert_eq!(event_on(Signal::ToggleConsole, false), None);
    assert_eq!(event_on(Signal::ToggleDashboard, false), None);
}
