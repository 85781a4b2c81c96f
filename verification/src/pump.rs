//! The publisher message pump: the state machine that drives one publisher
//! connection.
//!
//! The runtime reads events off the publisher's socket and feeds each one to
//! `Pump::on_event` while holding the relay-wide lock. A text message becomes
//! a broadcast plan for the registry; an explicit close event force-closes
//! every subscriber and empties the registry; a message event without a text
//! payload is ignored. When the event sequence ends without an explicit close
//! event the runtime calls `Pump::on_stream_end`, which terminates the pump
//! and deliberately leaves the registry untouched.

use vstd::prelude::*;

use crate::registry::Action;
use crate::registry::Registry;
use crate::registry::is_broadcast_of;
use crate::registry::is_close_all_of;

verus! {

/// The pump's control state: it runs until the publisher's socket reports a
/// close event or its event sequence ends.
#[derive(Clone, Copy, PartialEq, Eq, Structural, Debug)]
pub enum PumpState {
    Running,
    Terminated,
}

/// One inbound event from the publisher's socket: a message frame, whose text
/// payload is absent for a non-text frame, or a close frame.
#[derive(Debug, PartialEq, Eq)]
pub enum SocketEvent {
    Message { text: Option<String> },
    Close,
}

/// The message-pump state machine of one publisher connection.
pub struct Pump {
    state: PumpState,
}

impl Pump {
    /// The pump's control state.
    pub closed spec fn state(self) -> PumpState {
        self.state
    }

    /// A fresh pump, running.
    pub fn new() -> (p: Pump)
        ensures
            p.state() is Running,
    {
        Pump { state: PumpState::Running }
    }

    /// Whether the pump is still running.
    pub fn is_running(&self) -> (b: bool)
        ensures
            b == (self.state() is Running),
    {
        match self.state {
            PumpState::Running => true,
            PumpState::Terminated => false,
        }
    }

    /// Feeds one socket event to the pump and returns the actions the runtime
    /// must perform.
    ///
    /// While running: a message with a text payload leaves the registry as it
    /// is and yields a broadcast of that text to every registered connection;
    /// a message without a text payload is ignored; a close event empties the
    /// registry, yields a close of every previously registered connection
    /// with the "going away" code, and terminates the pump. A terminated pump
    /// ignores every event.
    pub fn on_event(&mut self, reg: &mut Registry, ev: SocketEvent) -> (acts: Vec<Action>)
        requires
            old(reg).wf(),
        ensures
            final(reg).wf(),
            old(self).state() is Terminated ==> {
                &&& final(self).state() is Terminated
                &&& final(reg).entries() == old(reg).entries()
                &&& final(reg).count() == old(reg).count()
                &&& acts@.len() == 0
            },
            old(self).state() is Running ==> match ev {
                SocketEvent::Message { text: opt } => {
                    &&& final(self).state() is Running
                    &&& final(reg).entries() == old(reg).entries()
                    &&& final(reg).count() == old(reg).count()
                    &&& match opt {
                        Some(t) => is_broadcast_of(acts@, old(reg).entries(), t@),
                        None => acts@.len() == 0,
                    }
                },
                SocketEvent::Close => {
                    &&& final(self).state() is Terminated
                    &&& final(reg).entries().len() == 0
                    &&& final(reg).count() == 0
                    &&& is_close_all_of(acts@, old(reg).entries())
                },
            },
    {
        match self.state {
            PumpState::Terminated => Vec::new(),
            PumpState::Running => match ev {
                SocketEvent::Message { text } => match text {
                    Some(t) => reg.broadcast(&t),
                    None => Vec::new(),
                },
                SocketEvent::Close => {
                    self.state = PumpState::Terminated;
                    reg.close_all()
                },
            },
        }
    }

    /// The publisher's event sequence ended without an explicit close event:
    /// the pump terminates and the registry is deliberately left untouched.
    pub fn on_stream_end(&mut self)
        ensures
            final(self).state() is Terminated,
    {
        self.state = PumpState::Terminated;
    }
}

} // verus!
