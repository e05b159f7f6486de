//! Tray-and-window lifecycle coordinator for a resident desktop utility.
//!
//! The library owns the decision logic of three collaborating components:
//! a tray manager (menu and click dispatch), a window lifecycle controller
//! (the hide-not-destroy policy), and an event bridge (ordered, fire-and-forget
//! domain events). The host shell performs the OS-level effects that the
//! handlers request through [`tray::Action`] values.

pub mod coordinator;
pub mod events;
pub mod menu;
pub mod tray;
pub mod window;
