//! Local two-party messaging between the gistit command line and its
//! daemon, and the decisions of the command line's fetch and send actions.
//!
//! The crate holds the decisions and none of the system calls. For the
//! channel these are: which socket file each role claims and which it
//! targets (`role`, `bridge`), the steps of claiming and of connecting
//! (`bridge`), and the byte layout of every message (`message`, `wire`,
//! `codec`). The owning process performs the socket operations and reports
//! their outcome. What holds of the channel as a whole is proved in `laws`.
//!
//! The plain values of a message are written and read by `bincode`; the
//! calls stand in `encoding`, and `wire` states the layout that they are
//! believed to follow.

pub mod bridge;
pub mod cli;
pub mod codec;
pub mod encoding;
pub mod error;
pub mod gistit_cli;
pub mod laws;
pub mod layout;
pub mod message;
pub mod path;
pub mod role;
pub mod wire;
