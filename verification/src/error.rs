//! The failures of the channel.

use vstd::prelude::*;

verus! {

/// The failure that the operating system reports for a socket operation.
#[verifier::external_type_specification]
#[verifier::external_body]
pub struct ExIoError(std::io::Error);

/// Why an operation of the channel failed. Each is handed to the caller;
/// none ends the process.
#[derive(Debug)]
pub enum Error {
    /// The socket file could not be claimed.
    Bind(std::io::Error),
    /// The peer's socket did not accept a connection in time; holds the
    /// failure of the last attempt.
    ConnectTimeout(std::io::Error),
    /// The received bytes are no message.
    Decode,
    /// The message is longer than the ceiling, the longest datagram that the
    /// peer receives whole; nothing was written.
    Oversized { ceiling: usize },
    /// The operating system failed a socket operation; holds its failure
    /// unchanged.
    Transport(std::io::Error),
}

impl From<std::io::Error> for Error {
    /// A failure of the operating system, met outside the claiming of the
    /// socket file and the connecting, is a failure of the transport.
    fn from(cause: std::io::Error) -> (error: Error) {
        Error::Transport(cause)
    }
}

impl vstd::std_specs::convert::FromSpecImpl<std::io::Error> for Error {
    open spec fn obeys_from_spec() -> bool {
        true
    }

    open spec fn from_spec(cause: std::io::Error) -> Error {
        Error::Transport(cause)
    }
}

} // verus!
