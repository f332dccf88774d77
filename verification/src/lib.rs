//! The core of a daemon that runs one Lightning channel: how a channel is
//! accepted, funded, signed and locked, and what the daemon says to the rest of its node
//! meanwhile.
//!
//! Nothing here sends or receives. An operation is a sequence of steps, each of which says
//! what has to be sent, signed or asked for next.

pub mod bus;
pub mod bytes;
pub mod effects;
pub mod formulas;
pub mod funding;
pub mod handlers;
pub mod ids;
pub mod keys;
pub mod laws;
pub mod messages;
pub mod notices;
pub mod params;
pub mod request;
pub mod runtime;
pub mod setup;
pub mod transitions;
