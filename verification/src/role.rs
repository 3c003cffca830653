//! The two roles of the channel, and the socket file that each claims.
//!
//! The channel is made of two named sockets under one base directory. The
//! server claims the first and sends to the second; the client claims the
//! second and sends to the first. A role is a type, so that a process
//! cannot wire itself to the wrong socket by mistake.

use vstd::prelude::*;
use vstd::utf8::{encode_utf8, is_ascii_chars, is_ascii_chars_encode_utf8};

verus! {

/// File name of the socket that the server claims.
pub const NAMED_SOCKET_0: &'static str = "gistit-0";

/// File name of the socket that the client claims.
pub const NAMED_SOCKET_1: &'static str = "gistit-1";

/// One of the two ends of the channel, as a value.
#[derive(Debug, Clone, Copy, PartialEq, Eq, Structural)]
pub enum Role {
    Server,
    Client,
}

impl Role {
    /// The role at the other end.
    pub open spec fn spec_peer(self) -> Role {
        match self {
            Role::Server => Role::Client,
            Role::Client => Role::Server,
        }
    }

    /// File name of the socket that this role claims.
    pub open spec fn spec_socket_name(self) -> Seq<char> {
        match self {
            Role::Server => NAMED_SOCKET_0@,
            Role::Client => NAMED_SOCKET_1@,
        }
    }

    /// File name of the socket that this role claims, in bytes.
    pub open spec fn spec_socket_file(self) -> Seq<u8> {
        encode_utf8(self.spec_socket_name())
    }

    /// The role at the other end.
    pub fn peer(self) -> (other: Role)
        ensures
            other == self.spec_peer(),
    {
        match self {
            Role::Server => Role::Client,
            Role::Client => Role::Server,
        }
    }

    /// File name of the socket that this role claims.
    pub fn socket_name(self) -> (name: &'static str)
        ensures
            name@ == self.spec_socket_name(),
    {
        match self {
            Role::Server => NAMED_SOCKET_0,
            Role::Client => NAMED_SOCKET_1,
        }
    }
}

/// An end of the channel, as a type.
pub trait SockEnd {
    /// The role that the type stands for.
    spec fn spec_role() -> Role;

    /// The role that the type stands for.
    fn role() -> (role: Role)
        ensures
            role == Self::spec_role(),
    ;
}

/// The end that claims the first socket: the daemon's.
#[derive(Debug)]
pub struct Server;

impl SockEnd for Server {
    open spec fn spec_role() -> Role {
        Role::Server
    }

    fn role() -> (role: Role) {
        Role::Server
    }
}

/// The end that claims the second socket: the command line's.
#[derive(Debug)]
pub struct Client;

impl SockEnd for Client {
    open spec fn spec_role() -> Role {
        Role::Client
    }

    fn role() -> (role: Role) {
        Role::Client
    }
}

/// Each role sends to the socket that the other claims, and the two sockets
/// differ.
pub proof fn lemma_roles_complement(role: Role)
    ensures
        role.spec_peer().spec_peer() == role,
        role.spec_peer() != role,
        role.spec_peer().spec_socket_name() != role.spec_socket_name(),
        role.spec_socket_file().len() == 8,
        role.spec_peer().spec_socket_file().len() == 8,
        role.spec_socket_file()[0] != 0x2f,
        role.spec_peer().spec_socket_file()[0] != 0x2f,
        role.spec_peer().spec_socket_file()[7] != role.spec_socket_file()[7],
{
    reveal_strlit("gistit-0");
    reveal_strlit("gistit-1");
    assert(NAMED_SOCKET_0@[7] != NAMED_SOCKET_1@[7]);
    assert(is_ascii_chars(NAMED_SOCKET_0@));
    assert(is_ascii_chars(NAMED_SOCKET_1@));
    is_ascii_chars_encode_utf8(NAMED_SOCKET_0@);
    is_ascii_chars_encode_utf8(NAMED_SOCKET_1@);
    assert(encode_utf8(NAMED_SOCKET_0@)[0] == NAMED_SOCKET_0@[0] as u8);
    assert(encode_utf8(NAMED_SOCKET_1@)[0] == NAMED_SOCKET_1@[0] as u8);
    assert(encode_utf8(NAMED_SOCKET_0@)[7] == NAMED_SOCKET_0@[7] as u8);
    assert(encode_utf8(NAMED_SOCKET_1@)[7] == NAMED_SOCKET_1@[7] as u8);
}

} // verus!
