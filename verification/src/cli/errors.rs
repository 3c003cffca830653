//! The failures of the command line's actions.

use vstd::prelude::*;

verus! {

/// A failure of reading or of the request to the server.
#[derive(Debug, Clone, PartialEq, Eq)]
pub enum IoError {
    /// The server answered with an error; holds its message.
    Request(String),
    /// The prompt on the terminal failed; holds the reason.
    StdinWrite(String),
}

/// A failure of fetching.
#[derive(Debug, Clone, Copy, PartialEq, Eq, Structural)]
pub enum FetchError {
    /// The secret was asked for as often as is allowed.
    ExaustedSecretRetries,
    /// The server knows no such gistit.
    NotFound,
    /// The server answered with a status that fetching does not know.
    UnexpectedResponse,
}

/// A failure of the parameters.
#[derive(Debug, Clone, PartialEq, Eq)]
pub enum ParamsError {
    /// The address is no URL; holds the reason.
    InvalidUrl(String),
}

/// Why an action failed.
#[derive(Debug, Clone, PartialEq, Eq)]
pub enum Error {
    /// A required argument is missing.
    Argument,
    IO(IoError),
    Fetch(FetchError),
    Params(ParamsError),
}

} // verus!
