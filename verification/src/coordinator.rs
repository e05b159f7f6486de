//! The application context: one value that owns the three components and
//! routes every host callback to the right one.
//!
//! The host shell keeps exactly one `Coordinator` for the process lifetime
//! and calls a handler for each native callback, serially, on its single
//! UI/event-loop thread; the handler's result names the one OS effect the
//! shell must then perform.

use vstd::prelude::*;

use crate::events::DomainEvent;
use crate::events::EventBridge;
use crate::menu::MenuId;
use crate::menu::default_menu;
use crate::menu::is_default_menu;
use crate::menu::parse_menu_id_spec;
use crate::tray::Action;
use crate::tray::TrayCreationError;
use crate::tray::TrayIconEvent;
use crate::tray::TrayManager;
use crate::tray::default_tooltip;
use crate::tray::is_reveal_click;
use crate::window::CloseResponse;
use crate::window::LifecycleEvent;
use crate::window::WindowLifecycleController;
use crate::window::WindowState;
use crate::window::next_state;

verus! {

/// Owns the tray manager, the window lifecycle controller and the event
/// bridge for the process.
pub struct Coordinator {
    pub tray: TrayManager,
    pub window: WindowLifecycleController,
    pub bridge: EventBridge,
}

impl Coordinator {
    /// A coordinator around an already-built tray manager: the window starts
    /// shown and nothing has been emitted.
    pub fn new(tray: TrayManager) -> (c: Coordinator)
        ensures
            c.tray == tray,
            c.window.state == WindowState::Shown,
            c.bridge.emitted@ == Seq::<DomainEvent>::empty(),
    {
        Coordinator {
            tray,
            window: WindowLifecycleController::new(),
            bridge: EventBridge::new(),
        }
    }

    /// Builds the coordinator the application starts with: the fixed default
    /// menu and tooltip. The default menu's ids are unique, so this always
    /// succeeds; only the host shell's own registration can still fail at
    /// startup, and the shell reports that itself.
    pub fn startup() -> (r: Result<Coordinator, TrayCreationError>)
        ensures
            r matches Ok(c) && c.tray.registered && is_default_menu(c.tray.menu@)
                && c.tray.tooltip@ == "Pomo"@ && c.window.state == WindowState::Shown
                && c.bridge.emitted@ == Seq::<DomainEvent>::empty(),
    {
        let menu = default_menu();
        match TrayManager::create(menu, default_tooltip()) {
            Ok(tray) => Ok(Coordinator::new(tray)),
            Err(e) => Err(e),
        }
    }

    /// Routes a selected menu-item id to the tray manager's dispatch. The
    /// tray icon itself is untouched.
    pub fn handle_menu_event(&mut self, id: &str) -> (a: Action)
        ensures
            final(self).tray == old(self).tray,
            old(self).window.state == WindowState::Terminated ==> a == Action::NoOp
                && final(self).window.state == old(self).window.state
                && final(self).bridge.emitted@ == old(self).bridge.emitted@,
            old(self).window.state != WindowState::Terminated
                && parse_menu_id_spec(id@) == Some(MenuId::PlayPause)
                ==> a == Action::EmitEvent(DomainEvent::PlayPause)
                && final(self).bridge.emitted@ == old(self).bridge.emitted@.push(
                    DomainEvent::PlayPause,
                )
                && final(self).window.state == old(self).window.state,
            old(self).window.state != WindowState::Terminated
                && parse_menu_id_spec(id@) == Some(MenuId::Reset)
                ==> a == Action::EmitEvent(DomainEvent::Reset)
                && final(self).bridge.emitted@ == old(self).bridge.emitted@.push(
                    DomainEvent::Reset,
                )
                && final(self).window.state == old(self).window.state,
            old(self).window.state != WindowState::Terminated
                && parse_menu_id_spec(id@) == Some(MenuId::Skip)
                ==> a == Action::EmitEvent(DomainEvent::Skip)
                && final(self).bridge.emitted@ == old(self).bridge.emitted@.push(
                    DomainEvent::Skip,
                )
                && final(self).window.state == old(self).window.state,
            old(self).window.state != WindowState::Terminated
                && parse_menu_id_spec(id@) == Some(MenuId::Quit)
                ==> a == Action::Exit(0)
                && final(self).window.state == WindowState::Terminated
                && final(self).bridge.emitted@ == old(self).bridge.emitted@,
            old(self).window.state != WindowState::Terminated && parse_menu_id_spec(id@) is None
                ==> a == Action::NoOp
                && final(self).window.state == old(self).window.state
                && final(self).bridge.emitted@ == old(self).bridge.emitted@,
    {
        self.tray.on_menu_event(id, &mut self.window, &mut self.bridge)
    }

    /// Routes a tray-icon interaction. Only a left-button release click
    /// reveals the window; nothing here can emit a domain event.
    pub fn handle_tray_icon_event(&mut self, event: TrayIconEvent) -> (a: Action)
        ensures
            final(self).tray == old(self).tray,
            final(self).bridge.emitted@ == old(self).bridge.emitted@,
            old(self).window.state != WindowState::Terminated && is_reveal_click(event)
                ==> a == Action::ShowAndFocus
                && final(self).window.state == WindowState::Shown,
            !is_reveal_click(event) ==> a == Action::NoOp
                && final(self).window.state == old(self).window.state,
            old(self).window.state == WindowState::Terminated ==> a == Action::NoOp
                && final(self).window.state == old(self).window.state,
    {
        self.tray.on_tray_icon_event(event, &mut self.window)
    }

    /// Routes the window's close request to the lifecycle controller: while
    /// the window is live, the default destroy is canceled and the window is
    /// hidden, never destroyed. Nothing is emitted and the tray is untouched.
    pub fn handle_close_requested(&mut self) -> (r: CloseResponse)
        ensures
            final(self).tray == old(self).tray,
            final(self).bridge.emitted@ == old(self).bridge.emitted@,
            final(self).window.state == next_state(
                old(self).window.state,
                LifecycleEvent::CloseRequested,
            ),
            old(self).window.state != WindowState::Terminated ==> r.cancel_default
                && r.hide_window && final(self).window.state == WindowState::Hidden,
            old(self).window.state == WindowState::Terminated ==> !r.cancel_default
                && !r.hide_window,
    {
        self.window.on_close_requested()
    }

    /// The inbound tooltip command: mutates the tray tooltip, or does
    /// nothing at all if no tray icon is registered. Never fails, never
    /// touches the window or the bridge.
    pub fn set_tray_tooltip(&mut self, text: String)
        ensures
            final(self).window == old(self).window,
            final(self).bridge == old(self).bridge,
            old(self).tray.registered ==> final(self).tray.registered
                && final(self).tray.tooltip == text
                && final(self).tray.menu == old(self).tray.menu,
            !old(self).tray.registered ==> final(self).tray == old(self).tray,
    {
        self.tray.set_tooltip(text);
    }
}

} // verus!
