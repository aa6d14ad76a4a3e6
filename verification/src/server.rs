use vstd::prelude::*;
use vstd::string::StringExecFns;

verus! {

/// The class of a fatal server failure, kept as a tag so that callers can tell
/// the failure paths apart instead of receiving one erased error.
#[derive(Clone, Copy, PartialEq, Eq, Structural, Debug)]
pub enum ErrorKind {
    /// Binding the listener failed on every allowed attempt.
    BindFatal,
    /// The accept operation on the bound listener failed; this tears down the
    /// whole server, not a single connection.
    AcceptFatal,
    /// A read or write on one accepted connection failed; local to it.
    ConnectionIo,
}

/// A fatal server error: a tag plus a human-readable message.
pub struct ServerError {
    pub kind: ErrorKind,
    pub message: String,
}

impl ServerError {
    /// Builds a bind-failure error; this is the only error the retry path produces.
    pub fn new(error_message: &str) -> (r: ServerError)
        ensures
            r.kind == ErrorKind::BindFatal,
            r.message@ == error_message@,
    {
        ServerError { kind: ErrorKind::BindFatal, message: String::from_str(error_message) }
    }

    /// Builds an error of the given kind.
    pub fn with_kind(kind: ErrorKind, error_message: &str) -> (r: ServerError)
        ensures
            r.kind == kind,
            r.message@ == error_message@,
    {
        ServerError { kind, message: String::from_str(error_message) }
    }

    /// The stored message, for reporting.
    pub fn message(&self) -> (r: &String)
        ensures
            r@ == self.message@,
    {
        &self.message
    }
}

/// The immutable server configuration: the address to bind, how many bind
/// attempts are allowed, and the backoff parameters (seconds).
pub struct Server {
    pub address: String,
    pub max_retries: usize,
    pub max_delay: u64,
    pub initial_delay: u64,
}

impl Server {
    /// A configuration holding exactly the given values; never mutated afterwards.
    pub fn new(address: String, max_retries: usize, max_delay: u64, initial_delay: u64) -> (r: Self)
        ensures
            r.address == address,
            r.max_retries == max_retries,
            r.max_delay == max_delay,
            r.initial_delay == initial_delay,
    {
        Server { address, max_retries, max_delay, initial_delay }
    }
}

/// The fixed response every connection receives, whatever it sent.
pub fn default_response() -> (r: String)
    ensures
        r@ == "Whats up?\n"@,
{
    String::from_str("Whats up?\n")
}

} // verus!
