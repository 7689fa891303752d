use tray_shell::controller::Action;
use tray_shell::controller::ControllerState;
use tray_shell::controller::Event;
use tray_shell::controller::MenuId;
use tray_shell::controller::MouseButton;
use tray_shell::controller::MouseButtonState;
use tray_shell::controller::menu_id_of;
use tray_shell::controller::on_second_instance;
use tray_shell::controller::on_tray_icon_event;
use tray_shell::controller::on_tray_menu_event;
use tray_shell::controller::on_window_close_requested;
use tray_shell::controller::step;
use tray_shell::controller::str_eq;
use tray_shell::controller::tray_menu_entries;

fn running_visible() -> ControllerState {
    ControllerState { window_present: true, visible: true, focused: false, running: true }
}

fn running_hidden() -> ControllerState {
    ControllerState { window_present: true, visible: false, focused: false, running: true }
}

#[test]
fn close_requests_never_exit() {
    let mut s = running_visible();
    for _ in 0..100 {
        let (next, action) = on_window_close_requested(s);
        assert_eq!(action, Action::HidePreventClose);
        assert!(next.running);
        assert!(!next.visible);
        s = next;
    }
    assert!(s.running);
}

#[test]
fn mixed_events_without_quit_keep_running() {
    let mut s = running_visible();
    let events = [
        Event::CloseRequested,
        Event::TrayClick { button: MouseButton::Left, button_state: MouseButtonState::Up },
        Event::CloseRequested,
        Event::Menu(MenuId::Show),
        Event::Menu(MenuId::Other),
        Event::SecondInstance,
        Event::CloseRequested,
    ];
    for e in events {
        let (next, _) = step(s, e);
        assert!(next.running);
        s = next;
    }
}

#[test]
fn menu_show_shows_and_focuses_hidden_window() {
    let (next, action) = on_tray_menu_event(running_hidden(), MenuId::Show);
    assert_eq!(action, Action::ShowFocus);
    assert!(next.visible);
    assert!(next.focused);
}

#[test]
fn tray_left_click_release_shows_and_focuses() {
    let (next, action) = on_tray_icon_event(
        running_hidden(),
        MouseButton::Left,
        MouseButtonState::Up,
    );
    assert_eq!(action, Action::ShowFocus);
    assert!(next.visible);
    assert!(next.focused);
}

#[test]
fn show_when_already_visible_is_idempotent() {
    let (once, action1) = on_tray_menu_event(running_hidden(), MenuId::Show);
    let (twice, action2) = on_tray_menu_event(once, MenuId::Show);
    assert_eq!(action1, Action::ShowFocus);
    assert_eq!(action2, Action::ShowFocus);
    assert_eq!(once, twice);
    assert!(twice.visible);
    assert!(twice.focused);
}

#[test]
fn other_tray_clicks_are_ignored() {
    let s = running_hidden();
    let (next, action) = on_tray_icon_event(s, MouseButton::Right, MouseButtonState::Up);
    assert_eq!(action, Action::NoOp);
    assert_eq!(next, s);
    let (next, action) = on_tray_icon_event(s, MouseButton::Left, MouseButtonState::Down);
    assert_eq!(action, Action::NoOp);
    assert_eq!(next, s);
    let (next, action) = on_tray_icon_event(s, MouseButton::Middle, MouseButtonState::Up);
    assert_eq!(action, Action::NoOp);
    assert_eq!(next, s);
}

#[test]
fn quit_exits_with_code_zero() {
    let (next, action) = on_tray_menu_event(running_visible(), MenuId::Quit);
    assert_eq!(action, Action::Exit { code: 0 });
    assert!(!next.running);
}

#[test]
fn events_after_exit_have_no_effect() {
    let (dead, _) = on_tray_menu_event(running_visible(), MenuId::Quit);
    let (next, action) = step(dead, Event::Menu(MenuId::Show));
    assert_eq!(action, Action::NoOp);
    assert_eq!(next, dead);
    let (next, action) = step(dead, Event::CloseRequested);
    assert_eq!(action, Action::NoOp);
    assert_eq!(next, dead);
}

#[test]
fn unmatched_menu_key_is_a_noop() {
    let s = running_hidden();
    let (next, action) = on_tray_menu_event(s, MenuId::Other);
    assert_eq!(action, Action::NoOp);
    assert_eq!(next, s);
}

#[test]
fn show_without_window_is_a_silent_noop() {
    let s = ControllerState {
        window_present: false,
        visible: false,
        focused: false,
        running: true,
    };
    let (next, action) = on_tray_menu_event(s, MenuId::Show);
    assert_eq!(action, Action::NoOp);
    assert_eq!(next, s);
}

#[test]
fn close_then_show_restores_the_window() {
    let (hidden, _) = on_window_close_requested(running_visible());
    assert!(!hidden.visible);
    let (shown, action) = on_tray_menu_event(hidden, MenuId::Show);
    assert_eq!(action, Action::ShowFocus);
    assert!(shown.visible);
    assert!(shown.focused);
    assert!(shown.running);
}

#[test]
fn second_instance_focuses_the_existing_window() {
    let s = running_visible();
    let (next, action) = on_second_instance(s);
    assert_eq!(action, Action::ShowFocus);
    assert!(next.visible);
    assert!(next.focused);
    assert!(next.running);
}

#[test]
fn second_instance_shows_a_hidden_window() {
    let (next, action) = on_second_instance(running_hidden());
    assert_eq!(action, Action::ShowFocus);
    assert!(next.visible);
    assert!(next.focused);
}

#[test]
fn menu_keys_decode_to_the_closed_enum() {
    assert_eq!(menu_id_of("show"), MenuId::Show);
    assert_eq!(menu_id_of("quit"), MenuId::Quit);
    assert_eq!(menu_id_of("help"), MenuId::Other);
    assert_eq!(menu_id_of(""), MenuId::Other);
    assert_eq!(menu_id_of("Show"), MenuId::Other);
    assert_eq!(menu_id_of("quitt"), MenuId::Other);
}

#[test]
fn tray_menu_has_the_two_fixed_entries() {
    let entries = tray_menu_entries();
    assert_eq!(entries.len(), 2);
    assert_eq!(entries[0].key, "show");
    assert_eq!(entries[0].label, "Show");
    assert_eq!(entries[1].key, "quit");
    assert_eq!(entries[1].label, "Exit");
}

#[test]
fn menu_entry_keys_round_trip_through_decoding() {
    let entries = tray_menu_entries();
    assert_eq!(menu_id_of(entries[0].key), MenuId::Show);
    assert_eq!(menu_id_of(entries[1].key), MenuId::Quit);
}

#[test]
fn str_eq_agrees_with_string_equality() {
    assert!(str_eq("show", "show"));
    assert!(str_eq("", ""));
    assert!(!str_eq("show", "quit"));
    assert!(!str_eq("show", "shows"));
    assert!(!str_eq("shows", "show"));
    assert!(str_eq("naïve", "naïve"));
    assert!(!str_eq("naïve", "naive"));
}
