use leftwm_core::display_action::DisplayAction;
use leftwm_core::display_event::DisplayEvent;
use leftwm_core::manager::Manager;
use leftwm_core::models::FocusBehaviour;
use leftwm_core::models::Mode;
use leftwm_core::models::Screen;
use leftwm_core::models::Window;

fn two_tag_manager() -> Manager<leftwm_core::config::TestConfig> {
    let mut manager = Manager::new_test(vec!["1".to_string(), "2".to_string()]);
    manager.screen_create_handler(Screen::default());
    manager
}

fn plain_window(handle: u64) -> Window {
    Window {
        handle,
        tag: 1,
        floating: false,
        visible: false,
        x: 5,
        y: 5,
        width: 100,
        height: 100,
    }
}

#[test]
fn verify_focused_at_is_a_no_op_for_every_policy_but_sloppy() {
    for behaviour in [FocusBehaviour::ClickTo, FocusBehaviour::Driven] {
        let mut manager = two_tag_manager();
        manager.display_event_handler(DisplayEvent::WindowCreate(plain_window(7), 5, 5));
        manager.state.focus_manager.behaviour = behaviour;
        let focused_before = manager.state.focus_manager.focused_window;
        let actions_before = manager.state.actions.len();
        assert!(!manager.display_event_handler(DisplayEvent::VerifyFocusedAt(7)));
        assert_eq!(manager.state.focus_manager.focused_window, focused_before);
        assert_eq!(manager.state.actions.len(), actions_before);
    }
}

#[test]
fn verify_focused_at_corrects_focus_under_sloppy() {
    let mut manager = two_tag_manager();
    manager.display_event_handler(DisplayEvent::WindowCreate(plain_window(7), 5, 5));
    manager.state.focus_manager.behaviour = FocusBehaviour::Sloppy;
    assert!(manager.display_event_handler(DisplayEvent::VerifyFocusedAt(7)));
    assert_eq!(manager.state.focus_manager.focused_window, Some(7));
    // a second report for the same window needs no correction
    assert!(!manager.display_event_handler(DisplayEvent::VerifyFocusedAt(7)));
}

#[test]
fn change_to_normal_mode_always_lands_in_normal_and_renders() {
    // from Normal
    let mut manager = two_tag_manager();
    assert!(manager.display_event_handler(DisplayEvent::ChangeToNormalMode));
    assert!(matches!(manager.state.mode, Mode::Normal));
    assert!(matches!(
        manager.state.actions.back(),
        Some(DisplayAction::NormalMode)
    ));
    // from a modal move, entered through a mouse chord
    let mut manager = two_tag_manager();
    manager.display_event_handler(DisplayEvent::WindowCreate(plain_window(7), 5, 5));
    assert!(manager.display_event_handler(DisplayEvent::MouseCombo(0, 1, 7)));
    assert!(matches!(manager.state.mode, Mode::MovingWindow(7)));
    assert!(manager.display_event_handler(DisplayEvent::ChangeToNormalMode));
    assert!(matches!(manager.state.mode, Mode::Normal));
    assert_eq!(manager.state.focus_manager.focused_window, Some(7));
}

#[test]
fn configure_request_for_unknown_window_queues_nothing() {
    let mut manager = two_tag_manager();
    let actions_before = manager.state.actions.len();
    assert!(!manager.display_event_handler(DisplayEvent::ConfigureXlibWindow(99)));
    assert_eq!(manager.state.actions.len(), actions_before);
}

#[test]
fn configure_request_for_known_window_queues_exactly_one_action() {
    let mut manager = two_tag_manager();
    manager.display_event_handler(DisplayEvent::WindowCreate(plain_window(7), 5, 5));
    let actions_before = manager.state.actions.len();
    assert!(manager.display_event_handler(DisplayEvent::ConfigureXlibWindow(7)));
    assert_eq!(manager.state.actions.len(), actions_before + 1);
    match manager.state.actions.back() {
        Some(DisplayAction::ConfigureXlibWindow(w)) => assert_eq!(w.handle, 7),
        other => panic!("expected a configuration-sync action, got {:?}", other),
    }
}

#[test]
fn movement_over_a_non_root_handle_changes_no_focus() {
    let mut manager = two_tag_manager();
    let focused_before = manager.state.focus_manager.focused_workspace;
    let history_before = manager.state.focus_manager.tag_history.clone();
    assert!(!manager.display_event_handler(DisplayEvent::Movement(4242, 10, 10)));
    assert_eq!(manager.state.focus_manager.focused_workspace, focused_before);
    assert_eq!(manager.state.focus_manager.tag_history, history_before);
}

#[test]
fn movement_over_a_screen_root_focuses_the_workspace_under_the_pointer() {
    let mut manager = Manager::new_test(vec!["1".to_string(), "2".to_string()]);
    manager.screen_create_handler(Screen { root: 1, x: 0, y: 0, width: 800, height: 600 });
    manager.screen_create_handler(Screen { root: 1, x: 800, y: 0, width: 800, height: 600 });
    assert_eq!(manager.state.focus_manager.focused_workspace, Some(1));
    assert!(manager.display_event_handler(DisplayEvent::Movement(1, 10, 10)));
    assert_eq!(manager.state.focus_manager.focused_workspace, Some(0));
    // the first workspace's tag moved to the front of the history
    assert_eq!(manager.state.focus_manager.tag_history, &[1, 2]);
}

#[test]
fn key_grab_reload_queues_exactly_one_reload_action_and_never_renders() {
    let mut manager = two_tag_manager();
    let actions_before = manager.state.actions.len();
    assert!(!manager.display_event_handler(DisplayEvent::KeyGrabReload));
    assert_eq!(manager.state.actions.len(), actions_before + 1);
    assert!(matches!(
        manager.state.actions.back(),
        Some(DisplayAction::ReloadKeyGrabs(_))
    ));
}

#[test]
fn unmatched_key_chord_is_not_an_error() {
    let mut manager = two_tag_manager();
    assert!(!manager.display_event_handler(DisplayEvent::KeyCombo(64, 38)));
}

#[test]
fn mouse_entered_window_focuses_it_once() {
    let mut manager = two_tag_manager();
    manager.display_event_handler(DisplayEvent::WindowCreate(plain_window(7), 5, 5));
    assert!(manager.display_event_handler(DisplayEvent::MouseEnteredWindow(7)));
    assert_eq!(manager.state.focus_manager.focused_window, Some(7));
    assert!(!manager.display_event_handler(DisplayEvent::MouseEnteredWindow(7)));
    assert!(!manager.display_event_handler(DisplayEvent::MouseEnteredWindow(99)));
}

#[test]
fn move_focus_to_point_focuses_the_window_under_the_pointer() {
    let mut manager = two_tag_manager();
    manager.display_event_handler(DisplayEvent::WindowCreate(plain_window(7), 5, 5));
    assert!(manager.display_event_handler(DisplayEvent::MoveFocusTo(10, 10)));
    assert_eq!(manager.state.focus_manager.focused_window, Some(7));
    assert!(!manager.display_event_handler(DisplayEvent::MoveFocusTo(-50, -50)));
}

#[test]
fn mouse_chord_enters_moving_only_from_normal() {
    let mut manager = two_tag_manager();
    manager.display_event_handler(DisplayEvent::WindowCreate(plain_window(7), 5, 5));
    assert!(manager.display_event_handler(DisplayEvent::MouseCombo(0, 1, 7)));
    assert!(matches!(manager.state.mode, Mode::MovingWindow(7)));
    assert!(matches!(
        manager.state.actions.back(),
        Some(DisplayAction::ReadyToMoveWindow(7))
    ));
    // while a move is active another chord changes nothing
    assert!(!manager.display_event_handler(DisplayEvent::MouseCombo(0, 3, 7)));
    assert!(matches!(manager.state.mode, Mode::MovingWindow(7)));
}

#[test]
fn mouse_chord_enters_resizing_with_the_secondary_button() {
    let mut manager = two_tag_manager();
    manager.display_event_handler(DisplayEvent::WindowCreate(plain_window(7), 5, 5));
    assert!(manager.display_event_handler(DisplayEvent::MouseCombo(0, 3, 7)));
    assert!(matches!(manager.state.mode, Mode::ResizingWindow(7)));
    assert!(matches!(
        manager.state.actions.back(),
        Some(DisplayAction::ReadyToResizeWindow(7))
    ));
}

#[test]
fn plain_click_focuses_instead_of_grabbing() {
    let mut manager = two_tag_manager();
    manager.state.mousekey_mask = 64;
    manager.display_event_handler(DisplayEvent::WindowCreate(plain_window(7), 5, 5));
    assert!(manager.display_event_handler(DisplayEvent::MouseCombo(0, 1, 7)));
    assert!(matches!(manager.state.mode, Mode::Normal));
    assert_eq!(manager.state.focus_manager.focused_window, Some(7));
}

#[test]
fn modal_move_and_resize_float_the_window_and_bypass_layout() {
    let mut manager = two_tag_manager();
    manager.display_event_handler(DisplayEvent::WindowCreate(plain_window(7), 5, 5));
    assert!(manager.display_event_handler(DisplayEvent::MoveWindow(7, 40, 50)));
    let w = manager.state.windows[0];
    assert!(w.floating);
    assert_eq!((w.x, w.y), (40, 50));
    assert!(manager.display_event_handler(DisplayEvent::ResizeWindow(7, 320, 240)));
    let w = manager.state.windows[0];
    assert_eq!((w.width, w.height), (320, 240));
    assert!(!manager.display_event_handler(DisplayEvent::MoveWindow(99, 0, 0)));
    assert!(!manager.display_event_handler(DisplayEvent::ResizeWindow(99, 0, 0)));
}

#[test]
fn window_change_updates_stored_properties() {
    let mut manager = two_tag_manager();
    manager.display_event_handler(DisplayEvent::WindowCreate(plain_window(7), 5, 5));
    let mut notice = plain_window(7);
    notice.floating = true;
    notice.x = 33;
    assert!(manager.display_event_handler(DisplayEvent::WindowChange(notice)));
    let w = manager.state.windows[0];
    assert!(w.floating);
    assert_eq!(w.x, 33);
    // an unknown handle is a no-op
    assert!(!manager.display_event_handler(DisplayEvent::WindowChange(plain_window(99))));
}

#[test]
fn destroying_the_focused_window_reassigns_focus() {
    let mut manager = two_tag_manager();
    manager.display_event_handler(DisplayEvent::WindowCreate(plain_window(7), 5, 5));
    manager.display_event_handler(DisplayEvent::WindowCreate(plain_window(8), 5, 5));
    manager.display_event_handler(DisplayEvent::MouseEnteredWindow(7));
    assert!(manager.display_event_handler(DisplayEvent::WindowDestroy(7)));
    assert_eq!(manager.state.windows.len(), 1);
    assert_eq!(manager.state.focus_manager.focused_window, Some(8));
    assert!(manager.display_event_handler(DisplayEvent::WindowDestroy(8)));
    assert_eq!(manager.state.focus_manager.focused_window, None);
    assert!(!manager.display_event_handler(DisplayEvent::WindowDestroy(8)));
}

#[test]
fn screen_create_always_renders_and_registers_a_workspace() {
    let mut manager = Manager::new_test(vec!["1".to_string()]);
    assert!(manager.display_event_handler(DisplayEvent::ScreenCreate(Screen::default())));
    assert_eq!(manager.state.screens.len(), 1);
    assert_eq!(manager.state.workspaces.len(), 1);
    assert_eq!(manager.state.workspaces[0].tag, 1);
    // a second screen with no tag left for it keeps the history unchanged
    assert!(manager.display_event_handler(DisplayEvent::ScreenCreate(Screen::default())));
    assert_eq!(manager.state.focus_manager.tag_history, &[1]);
}

#[test]
fn sloppy_focus_correction_triggers_a_relayout() {
    let mut manager = two_tag_manager();
    manager.state.windows.push(plain_window(7));
    assert!(!manager.state.windows[0].visible);
    manager.state.focus_manager.behaviour = FocusBehaviour::Sloppy;
    assert!(manager.display_event_handler(DisplayEvent::VerifyFocusedAt(7)));
    assert_eq!(manager.state.focus_manager.focused_window, Some(7));
    let w = manager.state.windows[0];
    assert!(w.visible);
    assert_eq!((w.x, w.y, w.width, w.height), (0, 0, 800, 600));
}

#[test]
fn configure_request_re_lays_out_an_unsettled_state() {
    let mut manager = two_tag_manager();
    manager.state.windows.push(plain_window(7));
    let actions_before = manager.state.actions.len();
    assert!(manager.display_event_handler(DisplayEvent::ConfigureXlibWindow(7)));
    // one snapshot action, then the re-layout's window updates
    assert!(matches!(
        manager.state.actions[actions_before],
        DisplayAction::ConfigureXlibWindow(_)
    ));
    let sync_count = manager
        .state
        .actions
        .iter()
        .skip(actions_before)
        .filter(|a| matches!(a, DisplayAction::ConfigureXlibWindow(_)))
        .count();
    assert_eq!(sync_count, 1);
    assert!(manager.state.windows[0].visible);
}
