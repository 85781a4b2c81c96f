//! A single-room broadcast relay: one publisher role pushes text messages and
//! every currently registered subscriber receives each message, in the order
//! the publisher sent it.
//!
//! The crate holds the relay's logic: the connection registry, the routing of
//! request paths, the subscribe step, and the publisher message pump, a state
//! machine that turns socket events into registry updates and send/close
//! actions. The surrounding runtime owns the sockets; it feeds events in and
//! carries the returned actions out.

pub mod laws;
pub mod pump;
pub mod registry;
pub mod route;
pub mod subscribe;

pub use pump::Pump;
pub use pump::PumpState;
pub use pump::SocketEvent;
pub use registry::Action;
pub use registry::Connection;
pub use registry::Registry;
pub use subscribe::subscribe;
