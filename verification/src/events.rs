//! Domain events and the bridge that carries them to the application layer.
//!
//! A domain event is a named, payload-free notification routed from a native
//! tray callback to the application layer. The bridge is one-directional and
//! fire-and-forget: emissions are recorded in order, nothing acknowledges
//! them, and nothing is buffered per listener. The host shell broadcasts each
//! recorded emission to whatever listeners are attached at that moment.

use vstd::prelude::*;

verus! {

/// The closed set of domain events this core can emit.
#[derive(Clone, Copy, Debug, PartialEq, Eq, Structural)]
pub enum DomainEvent {
    PlayPause,
    Reset,
    Skip,
}

/// The wire name of each domain event, as the application layer sees it.
pub open spec fn event_name_spec(e: DomainEvent) -> Seq<char> {
    match e {
        DomainEvent::PlayPause => "tray-play-pause"@,
        DomainEvent::Reset => "tray-reset"@,
        DomainEvent::Skip => "tray-skip"@,
    }
}

impl DomainEvent {
    /// The event's wire name.
    pub fn name(&self) -> (r: String)
        ensures
            r@ == event_name_spec(*self),
    {
        match self {
            DomainEvent::PlayPause => "tray-play-pause".to_owned(),
            DomainEvent::Reset => "tray-reset".to_owned(),
            DomainEvent::Skip => "tray-skip".to_owned(),
        }
    }
}

/// Records the ordered sequence of emitted domain events.
///
/// Emission order is exactly the order of the native callbacks that caused
/// the emissions; nothing is ever dropped, reordered or re-emitted.
pub struct EventBridge {
    pub emitted: Vec<DomainEvent>,
}

impl EventBridge {
    /// A bridge that has emitted nothing yet.
    pub fn new() -> (b: EventBridge)
        ensures
            b.emitted@ == Seq::<DomainEvent>::empty(),
    {
        EventBridge { emitted: Vec::new() }
    }

    /// Emits one event: it is appended to the emission sequence and nothing
    /// else changes. Fire-and-forget: there is no failure and no
    /// acknowledgment, whether or not any listener is attached.
    pub fn emit(&mut self, e: DomainEvent)
        ensures
            final(self).emitted@ == old(self).emitted@.push(e),
    {
        self.emitted.push(e);
    }
}

} // verus!
