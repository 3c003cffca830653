//! The decisions of the command line's fetch and send actions. The requests
//! to the server, the prompts and the printing are the caller's; what is
//! asked of the server, and what its answer leads to, is decided here.

pub mod errors;
pub mod fetch;
pub mod link;
pub mod payload;
pub mod send;
