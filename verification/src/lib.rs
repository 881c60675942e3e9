//! Core logic of a Daytime Protocol (RFC 867) service: the transport
//! configuration, the broadcast shutdown channel, the listener runner state
//! machine, and the timestamp line sent to clients.

pub mod daytime;
pub mod protocol;
pub mod runner;
pub mod shutdown;
pub mod supervisor;
