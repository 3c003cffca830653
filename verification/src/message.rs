//! The messages that cross the channel, and their layout in a datagram.
//!
//! `Instruction` is the only type ever placed on the wire; a reply travels
//! inside its `Response` variant. A variant is laid out as its index, a
//! `u32`, followed by its fields in the order of declaration.

use vstd::prelude::*;
use crate::wire::{
    opt_text, parse_bytes, parse_opt_str, parse_str, parse_strs, parse_u32, parse_u64, str_fits,
    strs_fit, texts, wire_bytes, wire_opt_str, wire_str, wire_strs, wire_u32, wire_u64,
};

verus! {

/// A hosted payload: the hash it is addressed by, and its content.
#[derive(Debug, Clone, PartialEq, Eq)]
pub struct Gistit {
    pub hash: String,
    pub content: Vec<u8>,
}

/// What a `Gistit` holds.
pub struct GistitView {
    pub hash: Seq<char>,
    pub content: Seq<u8>,
}

impl View for Gistit {
    type V = GistitView;

    open spec fn view(&self) -> GistitView {
        GistitView { hash: self.hash@, content: self.content@ }
    }
}

/// A reply of the daemon.
#[derive(Debug, Clone, PartialEq, Eq)]
pub enum ServerResponse {
    /// Reply to a request to host: the identifier, or nothing where hosting
    /// failed.
    Provide(Option<String>),
    /// Reply to a request to fetch: the payload.
    Fetch(Gistit),
    /// Reply to a request for the state of the network.
    Status {
        peer_id: String,
        peer_count: usize,
        pending_connections: u32,
        listeners: Vec<String>,
        hosting: usize,
    },
}

/// What a `ServerResponse` holds.
pub enum ServerResponseView {
    Provide(Option<Seq<char>>),
    Fetch(GistitView),
    Status {
        peer_id: Seq<char>,
        peer_count: usize,
        pending_connections: u32,
        listeners: Seq<Seq<char>>,
        hosting: usize,
    },
}

impl View for ServerResponse {
    type V = ServerResponseView;

    open spec fn view(&self) -> ServerResponseView {
        match *self {
            ServerResponse::Provide(id) => ServerResponseView::Provide(opt_text(id)),
            ServerResponse::Fetch(gistit) => ServerResponseView::Fetch(gistit@),
            ServerResponse::Status { peer_id, peer_count, pending_connections, listeners, hosting } =>
                ServerResponseView::Status {
                    peer_id: peer_id@,
                    peer_count,
                    pending_connections,
                    listeners: texts(listeners@),
                    hosting,
                },
        }
    }
}

/// A request, or a reply wrapped as one.
#[derive(Debug, Clone, PartialEq, Eq)]
pub enum Instruction {
    /// Request to start hosting a payload.
    Provide { hash: String, data: Gistit },
    /// Request to find and fetch a payload.
    Fetch { hash: String },
    /// Request for the state of the network.
    Status,
    /// Notice to shut down; nothing answers it.
    Shutdown,
    /// A reply of the daemon.
    Response(ServerResponse),
}

/// What an `Instruction` holds.
pub enum InstructionView {
    Provide { hash: Seq<char>, data: GistitView },
    Fetch { hash: Seq<char> },
    Status,
    Shutdown,
    Response(ServerResponseView),
}

impl View for Instruction {
    type V = InstructionView;

    open spec fn view(&self) -> InstructionView {
        match *self {
            Instruction::Provide { hash, data } => InstructionView::Provide {
                hash: hash@,
                data: data@,
            },
            Instruction::Fetch { hash } => InstructionView::Fetch { hash: hash@ },
            Instruction::Status => InstructionView::Status,
            Instruction::Shutdown => InstructionView::Shutdown,
            Instruction::Response(response) => InstructionView::Response(response@),
        }
    }
}

/// Every length in the payload can be written as a `u64`.
pub open spec fn gistit_fits(g: GistitView) -> bool {
    str_fits(g.hash) && g.content.len() <= u64::MAX
}

/// Every length in the reply can be written as a `u64`.
pub open spec fn response_fits(r: ServerResponseView) -> bool {
    match r {
        ServerResponseView::Provide(id) => id is Some ==> str_fits(id.unwrap()),
        ServerResponseView::Fetch(gistit) => gistit_fits(gistit),
        ServerResponseView::Status { peer_id, listeners, .. } => str_fits(peer_id) && strs_fit(
            listeners,
        ),
    }
}

/// Every length in the message can be written as a `u64`. This holds of the
/// view of every value that a process can hold.
pub open spec fn instruction_fits(i: InstructionView) -> bool {
    match i {
        InstructionView::Provide { hash, data } => str_fits(hash) && gistit_fits(data),
        InstructionView::Fetch { hash } => str_fits(hash),
        InstructionView::Status => true,
        InstructionView::Shutdown => true,
        InstructionView::Response(response) => response_fits(response),
    }
}

/// Layout of a payload: the hash, then the content.
pub open spec fn wire_gistit(g: GistitView) -> Seq<u8> {
    wire_str(g.hash) + wire_bytes(g.content)
}

/// Reading a payload off the front of `bytes`.
pub open spec fn parse_gistit(bytes: Seq<u8>) -> Option<(GistitView, nat)> {
    match parse_str(bytes) {
        Some((hash, n)) => match parse_bytes(bytes.skip(n as int)) {
            Some((content, m)) => Some((GistitView { hash, content }, n + m)),
            None => None,
        },
        None => None,
    }
}

/// Layout of the fields of a network snapshot, in order.
pub open spec fn wire_status(
    peer_id: Seq<char>,
    peer_count: usize,
    pending_connections: u32,
    listeners: Seq<Seq<char>>,
    hosting: usize,
) -> Seq<u8> {
    wire_str(peer_id) + (wire_u64(peer_count as u64) + (wire_u32(pending_connections) + (wire_strs(
        listeners,
    ) + wire_u64(hosting as u64))))
}

/// Reading a count that the reading machine has to hold in a `usize`.
pub open spec fn parse_usize(bytes: Seq<u8>) -> Option<(usize, nat)> {
    match parse_u64(bytes) {
        Some((v, n)) => if v <= usize::MAX {
            Some((v as usize, n))
        } else {
            None
        },
        None => None,
    }
}

/// Reading the fields of a network snapshot.
pub open spec fn parse_status(bytes: Seq<u8>) -> Option<(ServerResponseView, nat)> {
    match parse_str(bytes) {
        Some((peer_id, a)) => match parse_usize(bytes.skip(a as int)) {
            Some((peer_count, b)) => match parse_u32(bytes.skip(a as int).skip(b as int)) {
                Some((pending_connections, c)) => match parse_strs(
                    bytes.skip(a as int).skip(b as int).skip(c as int),
                ) {
                    Some((listeners, d)) => match parse_usize(
                        bytes.skip(a as int).skip(b as int).skip(c as int).skip(d as int),
                    ) {
                        Some((hosting, e)) => Some(
                            (
                                ServerResponseView::Status {
                                    peer_id,
                                    peer_count,
                                    pending_connections,
                                    listeners,
                                    hosting,
                                },
                                a + b + c + d + e,
                            ),
                        ),
                        None => None,
                    },
                    None => None,
                },
                None => None,
            },
            None => None,
        },
        None => None,
    }
}

/// Layout of what follows the index of a reply's variant.
pub open spec fn wire_response_body(r: ServerResponseView) -> Seq<u8> {
    match r {
        ServerResponseView::Provide(id) => wire_opt_str(id),
        ServerResponseView::Fetch(gistit) => wire_gistit(gistit),
        ServerResponseView::Status { peer_id, peer_count, pending_connections, listeners, hosting } =>
            wire_status(peer_id, peer_count, pending_connections, listeners, hosting),
    }
}

/// Index of a reply's variant.
pub open spec fn response_tag(r: ServerResponseView) -> u32 {
    match r {
        ServerResponseView::Provide(_) => 0,
        ServerResponseView::Fetch(_) => 1,
        ServerResponseView::Status { .. } => 2,
    }
}

/// Layout of a reply.
pub open spec fn wire_response(r: ServerResponseView) -> Seq<u8> {
    wire_u32(response_tag(r)) + wire_response_body(r)
}

/// Reading what follows the index `tag` of a reply's variant.
pub open spec fn parse_response_body(tag: u32, bytes: Seq<u8>) -> Option<(ServerResponseView, nat)> {
    if tag == 0 {
        match parse_opt_str(bytes) {
            Some((id, n)) => Some((ServerResponseView::Provide(id), n)),
            None => None,
        }
    } else if tag == 1 {
        match parse_gistit(bytes) {
            Some((gistit, n)) => Some((ServerResponseView::Fetch(gistit), n)),
            None => None,
        }
    } else if tag == 2 {
        parse_status(bytes)
    } else {
        None
    }
}

/// Reading a reply off the front of `bytes`.
pub open spec fn parse_response(bytes: Seq<u8>) -> Option<(ServerResponseView, nat)> {
    match parse_u32(bytes) {
        Some((tag, _)) => match parse_response_body(tag, bytes.skip(4)) {
            Some((r, n)) => Some((r, 4 + n)),
            None => None,
        },
        None => None,
    }
}

/// Index of a message's variant.
pub open spec fn instruction_tag(i: InstructionView) -> u32 {
    match i {
        InstructionView::Provide { .. } => 0,
        InstructionView::Fetch { .. } => 1,
        InstructionView::Status => 2,
        InstructionView::Shutdown => 3,
        InstructionView::Response(_) => 4,
    }
}

/// Layout of what follows the index of a message's variant.
pub open spec fn wire_instruction_body(i: InstructionView) -> Seq<u8> {
    match i {
        InstructionView::Provide { hash, data } => wire_str(hash) + wire_gistit(data),
        InstructionView::Fetch { hash } => wire_str(hash),
        InstructionView::Status => Seq::empty(),
        InstructionView::Shutdown => Seq::empty(),
        InstructionView::Response(response) => wire_response(response),
    }
}

/// Layout of a message: the datagram that carries it.
pub open spec fn wire_instruction(i: InstructionView) -> Seq<u8> {
    wire_u32(instruction_tag(i)) + wire_instruction_body(i)
}

/// Reading what follows the index `tag` of a message's variant.
pub open spec fn parse_instruction_body(tag: u32, bytes: Seq<u8>) -> Option<(InstructionView, nat)> {
    if tag == 0 {
        match parse_str(bytes) {
            Some((hash, n)) => match parse_gistit(bytes.skip(n as int)) {
                Some((data, m)) => Some((InstructionView::Provide { hash, data }, n + m)),
                None => None,
            },
            None => None,
        }
    } else if tag == 1 {
        match parse_str(bytes) {
            Some((hash, n)) => Some((InstructionView::Fetch { hash }, n)),
            None => None,
        }
    } else if tag == 2 {
        Some((InstructionView::Status, 0nat))
    } else if tag == 3 {
        Some((InstructionView::Shutdown, 0nat))
    } else if tag == 4 {
        match parse_response(bytes) {
            Some((response, n)) => Some((InstructionView::Response(response), n)),
            None => None,
        }
    } else {
        None
    }
}

/// Reading a message off the front of `bytes`: the message and the number
/// of bytes it took, or nothing where no message begins there. Bytes after
/// the message are left alone.
pub open spec fn parse_instruction(bytes: Seq<u8>) -> Option<(InstructionView, nat)> {
    match parse_u32(bytes) {
        Some((tag, _)) => match parse_instruction_body(tag, bytes.skip(4)) {
            Some((i, n)) => Some((i, 4 + n)),
            None => None,
        },
        None => None,
    }
}

/// Reading a datagram: the message whose layout the bytes are, from the
/// first byte to the last, or nothing where they are no message's layout.
/// One datagram carries one message and nothing else.
pub open spec fn read_datagram(bytes: Seq<u8>) -> Option<InstructionView> {
    match parse_instruction(bytes) {
        Some((i, n)) => if n == bytes.len() {
            Some(i)
        } else {
            None
        },
        None => None,
    }
}

} // verus!
