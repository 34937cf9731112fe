//! The accept/shutdown lifecycle of a small TCP server, as a verified state machine.
//!
//! A server binds its listeners ([`listeners`]), then runs one loop
//! ([`server`]) that admits connections, keeps track of their handlers
//! ([`pool`]) and, once told to shut down, lets the handlers in flight finish
//! before it stops. The loop performs no I/O of its own: it is told what
//! happened ([`event`]) and answers with what to do.

pub mod echo;
pub mod event;
pub mod laws;
pub mod listeners;
pub mod model;
pub mod phase;
pub mod pool;
pub mod server;

pub use crate::event::{Action, Event, Wait};
pub use crate::listeners::ListenerSet;
pub use crate::phase::Phase;
pub use crate::pool::{Polled, WorkerPool};
pub use crate::server::ServerLoop;
