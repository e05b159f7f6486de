use pomo_tray::coordinator::Coordinator;
use pomo_tray::events::DomainEvent;
use pomo_tray::events::EventBridge;
use pomo_tray::tray::Action;
use pomo_tray::tray::MouseButton;
use pomo_tray::tray::MouseButtonState;
use pomo_tray::tray::TrayIconEvent;
use pomo_tray::tray::TrayManager;
use pomo_tray::window::WindowState;

#[test]
fn play_pause_emits_exactly_one_event() {
    let mut c = Coordinator::startup().expect("default menu ids are unique");
    let a = c.handle_menu_event("play_pause");
    assert_eq!(a, Action::EmitEvent(DomainEvent::PlayPause));
    assert_eq!(c.bridge.emitted, vec![DomainEvent::PlayPause]);
    assert_eq!(c.bridge.emitted[0].name(), "tray-play-pause");
}

#[test]
fn reset_and_skip_emit_their_events() {
    let mut c = Coordinator::startup().expect("default menu ids are unique");
    assert_eq!(c.handle_menu_event("reset"), Action::EmitEvent(DomainEvent::Reset));
    assert_eq!(c.handle_menu_event("skip"), Action::EmitEvent(DomainEvent::Skip));
    assert_eq!(c.bridge.emitted, vec![DomainEvent::Reset, DomainEvent::Skip]);
}

#[test]
fn unknown_menu_id_emits_nothing() {
    let mut c = Coordinator::startup().expect("default menu ids are unique");
    let a = c.handle_menu_event("settings");
    assert_eq!(a, Action::NoOp);
    assert!(c.bridge.emitted.is_empty());
    assert_eq!(c.window.state, WindowState::Shown);
}

#[test]
fn emission_order_is_preserved() {
    let mut c = Coordinator::startup().expect("default menu ids are unique");
    c.handle_menu_event("play_pause");
    c.handle_menu_event("skip");
    c.handle_menu_event("reset");
    c.handle_menu_event("play_pause");
    assert_eq!(
        c.bridge.emitted,
        vec![DomainEvent::PlayPause, DomainEvent::Skip, DomainEvent::Reset, DomainEvent::PlayPause],
    );
}

#[test]
fn right_click_does_nothing() {
    let mut c = Coordinator::startup().expect("default menu ids are unique");
    c.handle_close_requested();
    assert_eq!(c.window.state, WindowState::Hidden);
    let a = c.handle_tray_icon_event(TrayIconEvent::Click {
        button: MouseButton::Right,
        button_state: MouseButtonState::Up,
    });
    assert_eq!(a, Action::NoOp);
    assert_eq!(c.window.state, WindowState::Hidden);
    assert!(c.bridge.emitted.is_empty());
}

#[test]
fn non_release_and_non_click_gestures_do_nothing() {
    let mut c = Coordinator::startup().expect("default menu ids are unique");
    c.handle_close_requested();
    let gestures = [
        TrayIconEvent::Click { button: MouseButton::Left, button_state: MouseButtonState::Down },
        TrayIconEvent::Click { button: MouseButton::Middle, button_state: MouseButtonState::Up },
        TrayIconEvent::Click { button: MouseButton::Right, button_state: MouseButtonState::Down },
        TrayIconEvent::Other,
    ];
    for g in gestures {
        assert_eq!(c.handle_tray_icon_event(g), Action::NoOp);
        assert_eq!(c.window.state, WindowState::Hidden);
    }
    assert!(c.bridge.emitted.is_empty());
}

#[test]
fn left_release_reveals_window() {
    let mut c = Coordinator::startup().expect("default menu ids are unique");
    c.handle_close_requested();
    let a = c.handle_tray_icon_event(TrayIconEvent::Click {
        button: MouseButton::Left,
        button_state: MouseButtonState::Up,
    });
    assert_eq!(a, Action::ShowAndFocus);
    assert_eq!(c.window.state, WindowState::Shown);
    assert!(c.bridge.emitted.is_empty());
}

#[test]
fn tooltip_without_tray_is_a_silent_noop() {
    let mut c = Coordinator::new(TrayManager::new());
    assert!(!c.tray.registered);
    c.set_tray_tooltip("X".to_owned());
    assert!(!c.tray.registered);
    assert_eq!(c.tray.tooltip, "");
    assert!(c.tray.menu.is_empty());
    assert_eq!(c.window.state, WindowState::Shown);
    assert!(c.bridge.emitted.is_empty());
}

#[test]
fn tooltip_with_tray_is_updated() {
    let mut c = Coordinator::startup().expect("default menu ids are unique");
    assert_eq!(c.tray.tooltip, "Pomo");
    c.set_tray_tooltip("25:00 left".to_owned());
    assert!(c.tray.registered);
    assert_eq!(c.tray.tooltip, "25:00 left");
    assert_eq!(c.tray.menu.len(), 5);
}

#[test]
fn bridge_records_in_order() {
    let mut b = EventBridge::new();
    assert!(b.emitted.is_empty());
    b.emit(DomainEvent::Skip);
    b.emit(DomainEvent::Reset);
    assert_eq!(b.emitted, vec![DomainEvent::Skip, DomainEvent::Reset]);
}

#[test]
fn event_wire_names() {
    assert_eq!(DomainEvent::PlayPause.name(), "tray-play-pause");
    assert_eq!(DomainEvent::Reset.name(), "tray-reset");
    assert_eq!(DomainEvent::Skip.name(), "tray-skip");
}
