use vstd::prelude::*;

verus! {

/// Something the process learns while it runs down.
#[derive(Clone, Copy, Debug, PartialEq, Eq, Structural)]
pub enum ShutdownEvent {
    /// The external interrupt arrived.
    Interrupt,
    /// The invalidation listener task ended.
    ListenerFinished,
    /// The server finished draining.
    ServerFinished,
}

/// What to do in answer to an event.
#[derive(Clone, Copy, Debug, PartialEq, Eq, Structural)]
pub struct ShutdownActions {
    /// Signal the invalidation listener to stop.
    pub cancel_listener: bool,
    /// Signal the server to stop accepting and drain.
    pub cancel_server: bool,
    /// Both tasks are done: exit with success.
    pub exit: bool,
}

/// Cooperative shutdown of the invalidation listener and the server: one
/// interrupt cancels both once, and the process exits only after both ended.
#[derive(Clone, Copy, Debug, PartialEq, Eq, Structural)]
pub struct Shutdown {
    pub interrupted: bool,
    pub listener_done: bool,
    pub server_done: bool,
}

/// The coordinator after `ev`.
pub open spec fn shutdown_after(s: Shutdown, ev: ShutdownEvent) -> Shutdown {
    match ev {
        ShutdownEvent::Interrupt => Shutdown { interrupted: true, ..s },
        ShutdownEvent::ListenerFinished => Shutdown { listener_done: true, ..s },
        ShutdownEvent::ServerFinished => Shutdown { server_done: true, ..s },
    }
}

impl Shutdown {
    /// Both tasks running, no interrupt seen.
    pub fn new() -> (r: Shutdown)
        ensures
            !r.interrupted && !r.listener_done && !r.server_done,
    {
        Shutdown { interrupted: false, listener_done: false, server_done: false }
    }

    /// Records `ev` and says what to do: the first interrupt cancels both
    /// tasks, later ones nothing; exit once both tasks have ended.
    pub fn on_event(&mut self, ev: ShutdownEvent) -> (a: ShutdownActions)
        ensures
            *final(self) == shutdown_after(*old(self), ev),
            a.cancel_listener == (ev == ShutdownEvent::Interrupt && !old(self).interrupted),
            a.cancel_server == (ev == ShutdownEvent::Interrupt && !old(self).interrupted),
            a.exit == (final(self).listener_done && final(self).server_done),
    {
        let first_interrupt = ev == ShutdownEvent::Interrupt && !self.interrupted;
        match ev {
            ShutdownEvent::Interrupt => self.interrupted = true,
            ShutdownEvent::ListenerFinished => self.listener_done = true,
            ShutdownEvent::ServerFinished => self.server_done = true,
        }
        ShutdownActions {
            cancel_listener: first_interrupt,
            cancel_server: first_interrupt,
            exit: self.listener_done && self.server_done,
        }
    }
}

} // verus!
