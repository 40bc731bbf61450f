//! Errors of the library.

use vstd::prelude::*;

verus! {

/// Everything that can go wrong in a request or a terminal session.
#[derive(Debug)]
pub enum Error {
    /// A REST response with a non-success status.
    Api { status_code: u16, message: String },
    /// The HTTP transport failed.
    Http(String),
    /// The WebSocket transport failed during a session.
    WebSocket(String),
    /// A structured payload could not be encoded or decoded.
    Json(String),
    /// The terminal session could not be established: the base URL is
    /// malformed or has no host, or the handshake failed.
    Connection(String),
    /// An operation was attempted on a terminal session that is closed.
    TerminalClosed,
}

impl Error {
    /// An API error with the given status and message.
    pub fn api(status_code: u16, message: &str) -> (r: Error)
        ensures
            r matches Error::Api { status_code: s, message: m } && s == status_code && m@
                == message@,
    {
        Error::Api { status_code, message: message.to_owned() }
    }

    /// A connection error with the given cause.
    pub fn connection(message: &str) -> (r: Error)
        ensures
            r matches Error::Connection(m) && m@ == message@,
    {
        Error::Connection(message.to_owned())
    }
}

} // verus!
