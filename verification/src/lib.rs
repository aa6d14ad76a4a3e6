//! A minimal network listener library: binding with bounded exponential-backoff
//! retry, and a per-connection read/respond state machine. The I/O itself lives
//! in the surrounding application; this crate holds the verified decision logic.

pub mod handler;
pub mod retry;
pub mod server;
