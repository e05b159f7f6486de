//! The window lifecycle state machine and its controller.
//!
//! The window is a singleton whose visibility moves between `Shown` and
//! `Hidden`; `Terminated` is the absorbing state entered only by the explicit
//! quit action. Closing the window never destroys it: the close request is
//! canceled and the window is hidden instead, which keeps the application
//! resident until the user quits from the tray menu.

use vstd::prelude::*;

verus! {

/// Visibility state of the singleton application window.
#[derive(Clone, Copy, Debug, PartialEq, Eq, Structural)]
pub enum WindowState {
    Shown,
    Hidden,
    Terminated,
}

/// The inputs of the window state machine, one per host callback.
#[derive(Clone, Copy, Debug, PartialEq, Eq, Structural)]
pub enum LifecycleEvent {
    CloseRequested,
    TrayLeftClickUp,
    Quit,
}

/// The transition function of the window state machine.
///
/// `Terminated` is absorbing: once the process has been asked to exit, no
/// further event changes the state. From a live state, a close request hides
/// the window, a left-click release on the tray icon reveals it, and quit
/// terminates.
pub open spec fn next_state(s: WindowState, e: LifecycleEvent) -> WindowState {
    match s {
        WindowState::Terminated => WindowState::Terminated,
        _ => match e {
            LifecycleEvent::CloseRequested => WindowState::Hidden,
            LifecycleEvent::TrayLeftClickUp => WindowState::Shown,
            LifecycleEvent::Quit => WindowState::Terminated,
        },
    }
}

/// The state reached from `s` after consuming the events of `evs` in order.
pub open spec fn state_after(s: WindowState, evs: Seq<LifecycleEvent>) -> WindowState
    decreases evs.len(),
{
    if evs.len() == 0 {
        s
    } else {
        state_after(next_state(s, evs[0]), evs.drop_first())
    }
}

/// Law: only an explicit quit terminates. A live window stays live under any
/// event sequence that contains no `Quit`, however many close requests or tray
/// clicks it holds; since every prefix of such a sequence also lacks `Quit`,
/// no intermediate state is `Terminated` either.
pub proof fn lemma_only_quit_terminates(s: WindowState, evs: Seq<LifecycleEvent>)
    requires
        s != WindowState::Terminated,
        forall|i: int| 0 <= i < evs.len() ==> evs[i] != LifecycleEvent::Quit,
    ensures
        state_after(s, evs) != WindowState::Terminated,
    decreases evs.len(),
{
    if evs.len() > 0 {
        let s1 = next_state(s, evs[0]);
        let rest = evs.drop_first();
        assert(forall|i: int| 0 <= i < rest.len() ==> rest[i] == evs[i + 1]);
        lemma_only_quit_terminates(s1, rest);
    }
}

/// Law: a sequence made only of close requests never terminates the window;
/// from a live state it ends, and stays, hidden.
pub proof fn lemma_close_requests_never_terminate(s: WindowState, evs: Seq<LifecycleEvent>)
    requires
        s != WindowState::Terminated,
        forall|i: int| 0 <= i < evs.len() ==> evs[i] == LifecycleEvent::CloseRequested,
    ensures
        state_after(s, evs) != WindowState::Terminated,
        evs.len() > 0 ==> state_after(s, evs) == WindowState::Hidden,
    decreases evs.len(),
{
    if evs.len() > 0 {
        let s1 = next_state(s, evs[0]);
        let rest = evs.drop_first();
        assert(forall|i: int| 0 <= i < rest.len() ==> rest[i] == evs[i + 1]);
        lemma_close_requests_never_terminate(s1, rest);
    }
}

/// Law: the close-request transition is idempotent. From a live state one
/// close request leaves the window hidden, and a second one changes nothing.
pub proof fn lemma_close_requested_idempotent(s: WindowState)
    requires
        s != WindowState::Terminated,
    ensures
        next_state(s, LifecycleEvent::CloseRequested) == WindowState::Hidden,
        next_state(
            next_state(s, LifecycleEvent::CloseRequested),
            LifecycleEvent::CloseRequested,
        ) == WindowState::Hidden,
{
}

/// What the host shell must do after a close request: whether to cancel the
/// default destroy behaviour and whether to hide the window.
#[derive(Clone, Copy, Debug, PartialEq, Eq, Structural)]
pub struct CloseResponse {
    pub cancel_default: bool,
    pub hide_window: bool,
}

/// Enforces the hide-not-destroy policy for the singleton window.
pub struct WindowLifecycleController {
    pub state: WindowState,
}

impl WindowLifecycleController {
    /// The window starts its life shown.
    pub fn new() -> (c: WindowLifecycleController)
        ensures
            c.state == WindowState::Shown,
    {
        WindowLifecycleController { state: WindowState::Shown }
    }

    /// Intercepts the window's close request. While the window is live the
    /// default destroy behaviour is always canceled and the window is hidden,
    /// whether or not it already was; the state never becomes `Terminated`
    /// on this path.
    pub fn on_close_requested(&mut self) -> (r: CloseResponse)
        ensures
            final(self).state == next_state(old(self).state, LifecycleEvent::CloseRequested),
            old(self).state != WindowState::Terminated ==> r.cancel_default && r.hide_window
                && final(self).state == WindowState::Hidden,
            old(self).state == WindowState::Terminated ==> !r.cancel_default && !r.hide_window,
    {
        match self.state {
            WindowState::Terminated => CloseResponse { cancel_default: false, hide_window: false },
            _ => {
                self.state = WindowState::Hidden;
                CloseResponse { cancel_default: true, hide_window: true }
            },
        }
    }

    /// Reveals the window on tray activation. While the window is live it
    /// ends up shown and focus is (re-)requested, also when it already was
    /// shown.
    pub fn show_and_focus(&mut self) -> (focus: bool)
        ensures
            final(self).state == next_state(old(self).state, LifecycleEvent::TrayLeftClickUp),
            old(self).state != WindowState::Terminated ==> focus
                && final(self).state == WindowState::Shown,
            old(self).state == WindowState::Terminated ==> !focus,
    {
        match self.state {
            WindowState::Terminated => false,
            _ => {
                self.state = WindowState::Shown;
                true
            },
        }
    }

    /// The only transition into `Terminated`; reached solely from the tray
    /// menu's quit entry, never from a close request.
    pub fn quit(&mut self)
        ensures
            final(self).state == next_state(old(self).state, LifecycleEvent::Quit),
            final(self).state == WindowState::Terminated,
    {
        self.state = WindowState::Terminated;
    }
}

} // verus!
