use leftwm_core::command::Command;
use leftwm_core::display_action::DisplayAction;
use leftwm_core::display_event::DisplayEvent;
use leftwm_core::manager::Manager;
use leftwm_core::models::Screen;
use leftwm_core::models::Window;

fn fresh_window(handle: u64) -> Window {
    Window {
        handle,
        tag: 1,
        floating: false,
        visible: false,
        x: 0,
        y: 0,
        width: 10,
        height: 10,
    }
}

#[test]
fn layout_recomputation_is_idempotent() {
    let mut manager = Manager::new_test(vec!["1".to_string(), "2".to_string()]);
    manager.screen_create_handler(Screen::default());
    manager.state.windows.push(fresh_window(7));
    manager.update_windows();
    let actions_after_first = manager.state.actions.len();
    let windows_after_first = manager.state.windows.clone();
    manager.update_windows();
    assert_eq!(manager.state.actions.len(), actions_after_first);
    assert_eq!(manager.state.windows, windows_after_first);
}

#[test]
fn a_tiled_window_fills_the_workspace_showing_its_tag() {
    let mut manager = Manager::new_test(vec!["1".to_string(), "2".to_string()]);
    manager.screen_create_handler(Screen::default());
    assert!(manager.display_event_handler(DisplayEvent::WindowCreate(fresh_window(7), 1, 1)));
    let w = manager.state.windows[0];
    assert!(w.visible);
    assert_eq!((w.x, w.y, w.width, w.height), (0, 0, 800, 600));
    assert!(manager
        .state
        .actions
        .iter()
        .any(|a| matches!(a, DisplayAction::UpdateWindow(_))));
}

#[test]
fn a_window_whose_tag_is_shown_nowhere_is_hidden() {
    let mut manager = Manager::new_test(vec!["1".to_string(), "2".to_string()]);
    manager.screen_create_handler(Screen::default());
    assert!(manager.display_event_handler(DisplayEvent::WindowCreate(fresh_window(7), 1, 1)));
    assert!(manager.state.windows[0].visible);
    assert!(manager.command_handler(&Command::GoToTag { tag: 2, swap: false }));
    manager.update_windows();
    assert!(!manager.state.windows[0].visible);
}

#[test]
fn a_floating_window_keeps_its_own_geometry() {
    let mut manager = Manager::new_test(vec!["1".to_string(), "2".to_string()]);
    manager.screen_create_handler(Screen::default());
    let mut floater = fresh_window(7);
    floater.floating = true;
    floater.x = 123;
    floater.y = 45;
    assert!(manager.display_event_handler(DisplayEvent::WindowCreate(floater, 1, 1)));
    let w = manager.state.windows[0];
    assert!(w.visible);
    assert_eq!((w.x, w.y, w.width, w.height), (123, 45, 10, 10));
}

#[test]
fn window_created_handler_assigns_the_tag_under_the_creation_point() {
    let mut manager = Manager::new_test(vec!["1".to_string(), "2".to_string()]);
    manager.screen_create_handler(Screen { root: 0, x: 0, y: 0, width: 800, height: 600 });
    manager.screen_create_handler(Screen { root: 0, x: 800, y: 0, width: 800, height: 600 });
    assert!(manager.display_event_handler(DisplayEvent::WindowCreate(fresh_window(7), 900, 10)));
    assert_eq!(manager.state.windows[0].tag, 2);
    // a point outside every workspace falls back to the focused workspace
    assert!(manager.display_event_handler(DisplayEvent::WindowCreate(fresh_window(8), -5, -5)));
    assert_eq!(manager.state.windows[1].tag, 2);
}
