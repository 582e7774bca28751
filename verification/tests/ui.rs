use wiremock_ui::ui::{AppState, Scenario, Screen, ServerAction, SERVER_PORT};

#[test]
fn new_panel_state() {
    let s = AppState::new();
    assert_eq!(s.mock_path.as_deref(), Some(""));
    assert!(s.output.is_empty());
    assert_eq!(s.scenarios.len(), 1);
    assert_eq!(s.scenarios[0].name, "test");
    assert_eq!(s.scenarios[0].selected, "Updated");
    assert_eq!(s.scenarios[0].states, vec!["Started", "Updated"]);
    assert!(!s.server_running);
}

#[test]
fn new_panel_opens_on_main_screen() {
    assert_eq!(AppState::new().screen(), Screen::Main);
}

#[test]
fn no_folder_shows_setup_screen() {
    let mut s = AppState::new();
    s.mock_path = None;
    assert_eq!(s.screen(), Screen::Setup);
    s.choose_folder("/srv/mocks".to_string());
    assert_eq!(s.screen(), Screen::Main);
    assert_eq!(s.mock_path.as_deref(), Some("/srv/mocks"));
}

#[test]
fn server_button_starts_then_stops() {
    let mut s = AppState::new();
    s.choose_folder("/srv/mocks".to_string());
    assert_eq!(s.server_button_label(), "Start server");
    match s.press_server_button() {
        ServerAction::Start { root_dir, port } => {
            assert_eq!(root_dir, "/srv/mocks");
            assert_eq!(port, 7070);
            assert_eq!(port, SERVER_PORT);
        }
        ServerAction::Stop => panic!("no server was running"),
    }
    assert!(!s.server_running);
    s.record_server_start(true);
    assert_eq!(s.server_button_label(), "Stop server");
    assert!(matches!(s.press_server_button(), ServerAction::Stop));
    assert!(!s.server_running);
    assert_eq!(s.server_button_label(), "Start server");
}

#[test]
fn failed_spawn_leaves_server_stopped() {
    let mut s = AppState::new();
    assert!(matches!(s.press_server_button(), ServerAction::Start { .. }));
    s.record_server_start(false);
    assert!(!s.server_running);
    assert_eq!(s.server_button_label(), "Start server");
}

#[test]
fn selected_state_is_marked() {
    let scenario = Scenario {
        name: "test".to_string(),
        selected: "Updated".to_string(),
        states: vec!["Started".to_string(), "Updated".to_string()],
    };
    assert!(!scenario.is_selected(&scenario.states[0]));
    assert!(scenario.is_selected(&scenario.states[1]));
}
