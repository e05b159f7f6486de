//! The tray manager: owns the singleton tray icon, translates menu
//! selections and tray clicks into actions, and mutates the tooltip.
//!
//! Handlers never perform OS effects themselves: each returns an [`Action`]
//! naming the one effect the host shell must carry out, so the decision logic
//! stays separate from the platform tray API.

use vstd::prelude::*;

use crate::events::DomainEvent;
use crate::events::EventBridge;
use crate::menu::MenuEntry;
use crate::menu::MenuId;
use crate::menu::check_menu_ids_unique;
use crate::menu::menu_ids_unique;
use crate::menu::parse_menu_id;
use crate::menu::parse_menu_id_spec;
use crate::window::LifecycleEvent;
use crate::window::WindowLifecycleController;
use crate::window::WindowState;
use crate::window::next_state;

verus! {

/// The one OS effect, if any, that the host shell must perform after a
/// handler returns.
#[derive(Clone, Copy, Debug, PartialEq, Eq, Structural)]
pub enum Action {
    /// Nothing to do.
    NoOp,
    /// Broadcast the named domain event to the application layer.
    EmitEvent(DomainEvent),
    /// Show the window and request OS focus for it.
    ShowAndFocus,
    /// Exit the process with the given code.
    Exit(i32),
}

/// Mouse button of a tray-icon click, as reported by the host shell.
#[derive(Clone, Copy, Debug, PartialEq, Eq, Structural)]
pub enum MouseButton {
    Left,
    Right,
    Middle,
}

/// Whether the reported click is a press or a release.
#[derive(Clone, Copy, Debug, PartialEq, Eq, Structural)]
pub enum MouseButtonState {
    Up,
    Down,
}

/// A tray-icon interaction. Everything that is not a click (pointer enter,
/// move, leave, double click) is `Other`: the dispatch ignores it.
#[derive(Clone, Copy, Debug, PartialEq, Eq, Structural)]
pub enum TrayIconEvent {
    Click { button: MouseButton, button_state: MouseButtonState },
    Other,
}

/// The only gesture that reveals the window: a left-button release click.
pub open spec fn is_reveal_click(e: TrayIconEvent) -> bool {
    e matches TrayIconEvent::Click {
        button: MouseButton::Left,
        button_state: MouseButtonState::Up,
    }
}

/// Why tray setup failed. Any of these aborts application startup.
#[derive(Clone, Copy, Debug, PartialEq, Eq, Structural)]
pub enum TrayCreationError {
    /// Two selectable menu entries share an id.
    DuplicateMenuId,
    /// The host shell has no icon resource for the tray icon.
    IconUnavailable,
    /// The OS tray API refused the registration (no system tray present).
    TrayUnavailable,
}

/// Owns the singleton tray icon. `registered` says whether the icon
/// currently exists; while it does, `tooltip` and `menu` are its displayed
/// tooltip and attached menu.
pub struct TrayManager {
    pub registered: bool,
    pub tooltip: String,
    pub menu: Vec<MenuEntry>,
}

impl TrayManager {
    /// A manager with no tray icon registered, as before creation or after
    /// teardown on platforms without a system tray.
    pub fn new() -> (t: TrayManager)
        ensures
            !t.registered,
            t.tooltip@ == Seq::<char>::empty(),
            t.menu@ == Seq::<MenuEntry>::empty(),
    {
        TrayManager { registered: false, tooltip: String::new(), menu: Vec::new() }
    }

    /// Builds the tray icon from a menu and a tooltip. Succeeds exactly when
    /// the menu's ids are unique, the one invariant the menu must satisfy;
    /// failures of the host shell itself (missing icon resource, no system
    /// tray) are reported by the shell with the remaining error variants.
    pub fn create(menu: Vec<MenuEntry>, tooltip: String) -> (r: Result<
        TrayManager,
        TrayCreationError,
    >)
        ensures
            menu_ids_unique(menu@) ==> (r matches Ok(t) && t.registered && t.tooltip == tooltip
                && t.menu == menu),
            !menu_ids_unique(menu@) ==> r == Err::<TrayManager, TrayCreationError>(
                TrayCreationError::DuplicateMenuId,
            ),
    {
        if check_menu_ids_unique(&menu) {
            Ok(TrayManager { registered: true, tooltip, menu })
        } else {
            Err(TrayCreationError::DuplicateMenuId)
        }
    }

    /// Mutates the displayed tooltip. If no tray icon is registered this is
    /// a silent no-op: nothing changes and nothing is reported.
    pub fn set_tooltip(&mut self, text: String)
        ensures
            old(self).registered ==> final(self).registered && final(self).tooltip == text
                && final(self).menu == old(self).menu,
            !old(self).registered ==> *final(self) == *old(self),
    {
        if self.registered {
            self.tooltip = text;
        }
    }

    /// Dispatches a selected menu-item id. The play/pause, reset and skip
    /// entries each emit exactly their one domain event and touch nothing
    /// else; quit terminates the window state machine and asks the shell to
    /// exit with code 0, emitting nothing; an unrecognized id is a no-op.
    /// Once the window is terminated nothing is processed any more.
    pub fn on_menu_event(
        &self,
        id: &str,
        window: &mut WindowLifecycleController,
        bridge: &mut EventBridge,
    ) -> (a: Action)
        ensures
            old(window).state == WindowState::Terminated ==> a == Action::NoOp
                && final(window).state == old(window).state
                && final(bridge).emitted@ == old(bridge).emitted@,
            old(window).state != WindowState::Terminated
                && parse_menu_id_spec(id@) == Some(MenuId::PlayPause)
                ==> a == Action::EmitEvent(DomainEvent::PlayPause)
                && final(bridge).emitted@ == old(bridge).emitted@.push(DomainEvent::PlayPause)
                && final(window).state == old(window).state,
            old(window).state != WindowState::Terminated
                && parse_menu_id_spec(id@) == Some(MenuId::Reset)
                ==> a == Action::EmitEvent(DomainEvent::Reset)
                && final(bridge).emitted@ == old(bridge).emitted@.push(DomainEvent::Reset)
                && final(window).state == old(window).state,
            old(window).state != WindowState::Terminated
                && parse_menu_id_spec(id@) == Some(MenuId::Skip)
                ==> a == Action::EmitEvent(DomainEvent::Skip)
                && final(bridge).emitted@ == old(bridge).emitted@.push(DomainEvent::Skip)
                && final(window).state == old(window).state,
            old(window).state != WindowState::Terminated
                && parse_menu_id_spec(id@) == Some(MenuId::Quit)
                ==> a == Action::Exit(0)
                && final(window).state == next_state(old(window).state, LifecycleEvent::Quit)
                && final(window).state == WindowState::Terminated
                && final(bridge).emitted@ == old(bridge).emitted@,
            old(window).state != WindowState::Terminated && parse_menu_id_spec(id@) is None
                ==> a == Action::NoOp
                && final(window).state == old(window).state
                && final(bridge).emitted@ == old(bridge).emitted@,
    {
        match window.state {
            WindowState::Terminated => Action::NoOp,
            _ => match parse_menu_id(id) {
                Some(MenuId::PlayPause) => {
                    bridge.emit(DomainEvent::PlayPause);
                    Action::EmitEvent(DomainEvent::PlayPause)
                },
                Some(MenuId::Reset) => {
                    bridge.emit(DomainEvent::Reset);
                    Action::EmitEvent(DomainEvent::Reset)
                },
                Some(MenuId::Skip) => {
                    bridge.emit(DomainEvent::Skip);
                    Action::EmitEvent(DomainEvent::Skip)
                },
                Some(MenuId::Quit) => {
                    window.quit();
                    Action::Exit(0)
                },
                None => Action::NoOp,
            },
        }
    }

    /// Handles a tray-icon interaction. Only a left-button release click
    /// reveals the window; every other gesture changes nothing and requests
    /// nothing. No gesture can emit a domain event: the bridge is not even
    /// reachable from here.
    pub fn on_tray_icon_event(
        &self,
        event: TrayIconEvent,
        window: &mut WindowLifecycleController,
    ) -> (a: Action)
        ensures
            old(window).state != WindowState::Terminated && is_reveal_click(event)
                ==> a == Action::ShowAndFocus
                && final(window).state == next_state(
                    old(window).state,
                    LifecycleEvent::TrayLeftClickUp,
                )
                && final(window).state == WindowState::Shown,
            !is_reveal_click(event) ==> a == Action::NoOp
                && final(window).state == old(window).state,
            old(window).state == WindowState::Terminated ==> a == Action::NoOp
                && final(window).state == old(window).state,
    {
        match window.state {
            WindowState::Terminated => Action::NoOp,
            _ => match event {
                TrayIconEvent::Click {
                    button: MouseButton::Left,
                    button_state: MouseButtonState::Up,
                } => {
                    let _focused = window.show_and_focus();
                    Action::ShowAndFocus
                },
                _ => Action::NoOp,
            },
        }
    }
}

/// The default tooltip the tray icon is created with.
pub fn default_tooltip() -> (r: String)
    ensures
        r@ == "Pomo"@,
{
    "Pomo".to_owned()
}

} // verus!
