use pomo_tray::menu::MenuEntry;
use pomo_tray::menu::MenuId;
use pomo_tray::menu::MenuItem;
use pomo_tray::menu::check_menu_ids_unique;
use pomo_tray::menu::default_menu;
use pomo_tray::menu::parse_menu_id;
use pomo_tray::tray::TrayCreationError;
use pomo_tray::tray::TrayManager;
use pomo_tray::tray::default_tooltip;

fn item(id: MenuId, label: &str) -> MenuEntry {
    MenuEntry::Item(MenuItem { id, label: label.to_owned(), enabled: true })
}

#[test]
fn parse_recognizes_the_closed_id_set() {
    assert_eq!(parse_menu_id("play_pause"), Some(MenuId::PlayPause));
    assert_eq!(parse_menu_id("reset"), Some(MenuId::Reset));
    assert_eq!(parse_menu_id("skip"), Some(MenuId::Skip));
    assert_eq!(parse_menu_id("quit"), Some(MenuId::Quit));
}

#[test]
fn parse_rejects_unknown_ids() {
    assert_eq!(parse_menu_id(""), None);
    assert_eq!(parse_menu_id("Quit"), None);
    assert_eq!(parse_menu_id("play_pause "), None);
    assert_eq!(parse_menu_id("pause"), None);
}

#[test]
fn parse_inverts_wire_names() {
    for id in [MenuId::PlayPause, MenuId::Reset, MenuId::Skip, MenuId::Quit] {
        assert_eq!(parse_menu_id(&id.name()), Some(id));
    }
}

#[test]
fn menu_id_wire_names() {
    assert_eq!(MenuId::PlayPause.name(), "play_pause");
    assert_eq!(MenuId::Reset.name(), "reset");
    assert_eq!(MenuId::Skip.name(), "skip");
    assert_eq!(MenuId::Quit.name(), "quit");
}

#[test]
fn default_menu_layout() {
    let m = default_menu();
    assert_eq!(m.len(), 5);
    let expect = [
        (MenuId::PlayPause, "Start/Pause"),
        (MenuId::Reset, "Reset"),
        (MenuId::Skip, "Skip Phase"),
    ];
    for (slot, (id, label)) in m.iter().take(3).zip(expect) {
        match slot {
            MenuEntry::Item(it) => {
                assert_eq!(it.id, id);
                assert_eq!(it.label, label);
                assert!(it.enabled);
            },
            MenuEntry::Separator => panic!("expected a selectable item"),
        }
    }
    assert!(matches!(m[3], MenuEntry::Separator));
    match &m[4] {
        MenuEntry::Item(it) => {
            assert_eq!(it.id, MenuId::Quit);
            assert_eq!(it.label, "Quit");
            assert!(it.enabled);
        },
        MenuEntry::Separator => panic!("expected the quit item"),
    }
    assert!(check_menu_ids_unique(&m));
}

#[test]
fn uniqueness_check_sees_through_separators() {
    let m = vec![
        item(MenuId::PlayPause, "a"),
        MenuEntry::Separator,
        item(MenuId::Quit, "b"),
        MenuEntry::Separator,
    ];
    assert!(check_menu_ids_unique(&m));
    let dup = vec![
        item(MenuId::PlayPause, "a"),
        MenuEntry::Separator,
        item(MenuId::PlayPause, "b"),
    ];
    assert!(!check_menu_ids_unique(&dup));
    assert!(check_menu_ids_unique(&Vec::new()));
}

#[test]
fn create_succeeds_on_unique_ids() {
    let t = TrayManager::create(default_menu(), default_tooltip())
        .expect("unique ids must be accepted");
    assert!(t.registered);
    assert_eq!(t.tooltip, "Pomo");
    assert_eq!(t.menu.len(), 5);
}

#[test]
fn create_rejects_duplicate_ids() {
    let dup = vec![item(MenuId::Reset, "a"), item(MenuId::Reset, "b")];
    let r = TrayManager::create(dup, default_tooltip());
    assert!(matches!(r, Err(TrayCreationError::DuplicateMenuId)));
}

#[test]
fn fresh_manager_has_no_icon() {
    let t = TrayManager::new();
    assert!(!t.registered);
    assert_eq!(t.tooltip, "");
    assert!(t.menu.is_empty());
}

#[test]
fn default_tooltip_value() {
    assert_eq!(default_tooltip(), "Pomo");
}
