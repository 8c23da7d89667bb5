use leftwm_core::command::Command;
use leftwm_core::command::Keybind;
use leftwm_core::command::build_command;
use leftwm_core::config::Config;
use leftwm_core::config::TestConfig;
use leftwm_core::display_action::DisplayAction;
use leftwm_core::display_event::DisplayEvent;
use leftwm_core::manager::Manager;
use leftwm_core::models::Mode;
use leftwm_core::models::Screen;

#[test]
fn ensure_command_handler_trait_boundary() {
    let mut manager = Manager::new_test(vec!["1".to_string(), "2".to_string()]);
    manager.screen_create_handler(Screen::default());
    assert!(TestConfig::command_handler("GoToTag2", &mut manager));
    assert_eq!(manager.state.focus_manager.tag_history, &[2, 1]);
}

#[test]
fn unknown_custom_command_is_not_handled() {
    let mut manager = Manager::new_test(vec!["1".to_string(), "2".to_string()]);
    manager.screen_create_handler(Screen::default());
    assert!(!TestConfig::command_handler("NoSuchCommand", &mut manager));
    assert_eq!(manager.state.focus_manager.tag_history, &[1]);
}

#[test]
fn registering_screen_then_going_to_tag_two_orders_history() {
    let mut manager = Manager::new_test(vec!["1".to_string(), "2".to_string()]);
    manager.screen_create_handler(Screen::default());
    assert_eq!(manager.state.focus_manager.tag_history, &[1]);
    let handled = manager.command_handler(&Command::GoToTag { tag: 2, swap: false });
    assert!(handled);
    assert_eq!(manager.state.focus_manager.tag_history, &[2, 1]);
    assert_eq!(manager.state.workspaces[0].tag, 2);
}

#[test]
fn going_to_same_tag_twice_keeps_history_free_of_duplicates() {
    let mut manager = Manager::new_test(vec!["1".to_string(), "2".to_string()]);
    manager.screen_create_handler(Screen::default());
    assert!(manager.command_handler(&Command::GoToTag { tag: 2, swap: false }));
    assert!(manager.command_handler(&Command::GoToTag { tag: 2, swap: false }));
    assert_eq!(manager.state.focus_manager.tag_history, &[2, 1]);
}

#[test]
fn going_to_tag_with_swap_trades_places_with_the_front() {
    let mut manager = Manager::new_test(vec!["1".to_string(), "2".to_string()]);
    manager.screen_create_handler(Screen::default());
    assert!(manager.command_handler(&Command::GoToTag { tag: 2, swap: false }));
    assert_eq!(manager.state.focus_manager.tag_history, &[2, 1]);
    assert!(manager.command_handler(&Command::GoToTag { tag: 1, swap: true }));
    assert_eq!(manager.state.focus_manager.tag_history, &[1, 2]);
}

#[test]
fn going_to_invalid_tag_changes_nothing() {
    let mut manager = Manager::new_test(vec!["1".to_string(), "2".to_string()]);
    manager.screen_create_handler(Screen::default());
    let actions_before = manager.state.actions.len();
    assert!(!manager.command_handler(&Command::GoToTag { tag: 0, swap: false }));
    assert!(!manager.command_handler(&Command::GoToTag { tag: 3, swap: false }));
    assert_eq!(manager.state.focus_manager.tag_history, &[1]);
    assert_eq!(manager.state.workspaces[0].tag, 1);
    assert_eq!(manager.state.actions.len(), actions_before);
}

#[test]
fn going_to_tag_without_a_workspace_changes_nothing() {
    let mut manager = Manager::new_test(vec!["1".to_string(), "2".to_string()]);
    assert!(!manager.command_handler(&Command::GoToTag { tag: 2, swap: false }));
    assert_eq!(manager.state.focus_manager.tag_history.len(), 0);
}

#[test]
fn build_command_returns_first_matching_binding() {
    let bindings = vec![
        Keybind { modifier_mask: 8, keysym: 10, command: Command::GoToTag { tag: 1, swap: false } },
        Keybind { modifier_mask: 8, keysym: 11, command: Command::GoToTag { tag: 2, swap: false } },
        Keybind { modifier_mask: 8, keysym: 11, command: Command::GoToTag { tag: 9, swap: true } },
    ];
    let built = build_command(&bindings, 8, 11);
    assert_eq!(built, Some(Command::GoToTag { tag: 2, swap: false }));
}

#[test]
fn build_command_tolerates_unknown_chords() {
    let bindings = vec![
        Keybind { modifier_mask: 8, keysym: 10, command: Command::GoToTag { tag: 1, swap: false } },
    ];
    assert_eq!(build_command(&bindings, 4, 10), None);
    assert_eq!(build_command(&Vec::new(), 0, 0), None);
}

#[test]
fn chord_resolving_to_go_to_tag_renders_and_updates_history() {
    let mut manager = Manager::new_test(vec!["1".to_string(), "2".to_string()]);
    manager.screen_create_handler(Screen::default());
    let bindings = vec![
        Keybind { modifier_mask: 8, keysym: 11, command: Command::GoToTag { tag: 2, swap: false } },
    ];
    let built = build_command(&bindings, 8, 11).expect("the chord is bound");
    let actions_before = manager.state.actions.len();
    let rendered = manager.display_event_handler(DisplayEvent::SendCommand(built));
    assert!(rendered);
    assert_eq!(manager.state.focus_manager.tag_history, &[2, 1]);
    assert!(manager.state.actions.len() > actions_before);
    assert!(matches!(manager.state.mode, Mode::Normal));
    assert!(manager
        .state
        .actions
        .iter()
        .any(|a| matches!(a, DisplayAction::SetCurrentTags(2))));
}

#[test]
fn test_config_reports_its_documented_defaults() {
    let config = TestConfig { tags: vec!["1".to_string(), "2".to_string()] };
    assert_eq!(config.create_list_of_tag_labels(), vec!["1".to_string(), "2".to_string()]);
    assert_eq!(config.focus_behaviour(), leftwm_core::models::FocusBehaviour::ClickTo);
    assert_eq!(config.mousekey(), "Mod4");
    assert!(!config.focus_new_windows());
    assert!(!config.always_float());
    assert_eq!(config.default_width(), 1000);
    assert_eq!(config.default_height(), 800);
    assert_eq!(config.border_width(), 0);
    let margin = config.margin();
    assert_eq!((margin.top, margin.right, margin.bottom, margin.left), (0, 0, 0, 0));
    assert!(config.workspace_margin().is_none());
    assert!(config.on_new_window_cmd().is_none());
    assert!(config.max_window_width().is_none());
    assert!(config.mapped_bindings().is_empty());
    assert!(config.get_list_of_gutters().is_empty());
}
