//! Adapter between a callback-driven packet-processing engine and a
//! readiness-based, single-threaded event reactor.
//!
//! The engine pushes registration requests (descriptor interest, timers,
//! outgoing frames); the reactor is pull-based and recomputes its interest
//! set every cycle.  This crate holds the verified bookkeeping that
//! reconciles the two: the token table, timer lifetime, per-cycle descriptor
//! re-registration, and the translation between the two readiness-flag
//! vocabularies.  The engine, the reactor and the frame channel themselves
//! are outside collaborators, reached through the traits in [`mio`].

mod clock;
pub mod mio;
pub mod opt;
pub mod poll_events;
pub mod table;

pub use mio::{AdapterError, Channel, Engine, MioHandler, Reactor, NET_BUFSIZE, SOCKET};
pub use opt::OptTftp;
pub use poll_events::PollEvents;
