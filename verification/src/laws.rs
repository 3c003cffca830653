//! What holds of the channel as a whole, proved from the contracts of its
//! parts.

use vstd::prelude::*;
use crate::bridge::{
    BindEvent, BindStage, Bridge, bytes_read, holds_datagram, spec_bind_step, spec_connect_step,
};
use crate::layout::{
    lemma_instruction_canonical, lemma_instruction_round_trip, lemma_short_layout_fits,
};
use crate::message::{
    instruction_fits, InstructionView, parse_instruction, read_datagram, wire_instruction,
};
use crate::path::{joined, needs_separator, SEPARATOR};
use crate::role::{Client, lemma_roles_complement, Server, SockEnd};

verus! {

/// Two bridges of complementary roles over one base directory are wired to
/// one another: each connects to the path that the other claims, and no
/// bridge connects to the path that it claims itself.
pub proof fn law_bridges_face_each_other(server: Bridge<Server>, client: Bridge<Client>)
    requires
        server.base() == client.base(),
    ensures
        server.spec_peer_path() == client.spec_bind_path(),
        client.spec_peer_path() == server.spec_bind_path(),
        server.spec_bind_path() != server.spec_peer_path(),
        client.spec_bind_path() != client.spec_peer_path(),
{
    let role = Server::spec_role();
    lemma_roles_complement(role);
    let base = server.base();
    let own = role.spec_socket_file();
    let other = role.spec_peer().spec_socket_file();
    let front = if needs_separator(base) {
        base.push(SEPARATOR)
    } else {
        base
    };
    assert(joined(base, own) == front + own);
    assert(joined(base, other) == front + other);
    assert((front + own)[front.len() as int + 7] == own[7]);
    assert((front + other)[front.len() as int + 7] == other[7]);
}

/// A message whose datagram is no longer than the ceiling, which is every
/// message that `send` accepts under that ceiling, arrives as it was sent: the bytes that the read put into the receive buffer read as that
/// very message, whatever else the buffer holds.
pub proof fn law_sent_is_received(
    sent: InstructionView,
    buf: Seq<u8>,
    count: usize,
    ceiling: usize,
)
    requires
        wire_instruction(sent).len() <= ceiling,
        holds_datagram(buf, count, wire_instruction(sent), ceiling),
    ensures
        read_datagram(bytes_read(buf, count)) == Some(sent),
{
    let datagram = wire_instruction(sent);
    lemma_short_layout_fits(sent);
    lemma_instruction_round_trip(sent, Seq::empty());
    assert(datagram + Seq::<u8>::empty() =~= datagram);
    assert(datagram.take(count as int) =~= datagram);
}

/// A message whose datagram is longer than the ceiling never arrives as a
/// message, neither as the one that was sent nor as any other: the bytes
/// that the read put into the receive buffer, the datagram cut off, read as
/// nothing.
pub proof fn law_cut_off_is_refused(
    sent: InstructionView,
    buf: Seq<u8>,
    count: usize,
    ceiling: usize,
)
    requires
        wire_instruction(sent).len() > ceiling,
        instruction_fits(sent),
        holds_datagram(buf, count, wire_instruction(sent), ceiling),
    ensures
        read_datagram(bytes_read(buf, count)) is None,
{
    let datagram = wire_instruction(sent);
    let kept = bytes_read(buf, count);
    assert(kept == datagram.take(ceiling as int));
    if parse_instruction(kept) is Some {
        let (got, n) = parse_instruction(kept).unwrap();
        lemma_instruction_canonical(kept);
        let rest = datagram.skip(n as int);
        assert(datagram =~= wire_instruction(got) + rest);
        lemma_instruction_round_trip(got, rest);
        lemma_instruction_round_trip(sent, Seq::empty());
        assert(datagram + Seq::<u8>::empty() =~= datagram);
        assert(false);
    }
}

/// Bytes that are only the beginning of a message's datagram read as
/// nothing: a datagram that lost its end is never taken for a message.
pub proof fn law_beginning_is_refused(sent: InstructionView, count: int)
    requires
        instruction_fits(sent),
        0 <= count < wire_instruction(sent).len(),
    ensures
        read_datagram(wire_instruction(sent).take(count)) is None,
{
    let datagram = wire_instruction(sent);
    let kept = datagram.take(count);
    if parse_instruction(kept) is Some {
        let (got, n) = parse_instruction(kept).unwrap();
        lemma_instruction_canonical(kept);
        let rest = datagram.skip(n as int);
        assert(datagram =~= wire_instruction(got) + rest);
        lemma_instruction_round_trip(got, rest);
        lemma_instruction_round_trip(sent, Seq::empty());
        assert(datagram + Seq::<u8>::empty() =~= datagram);
        assert(false);
    }
}

/// Only the layout of a message reads as a message, and as that message
/// alone: bytes that read as a message are its layout to the last byte, and
/// two messages with one layout are one message.
pub proof fn law_only_layouts_are_read(bytes: Seq<u8>, other: InstructionView)
    requires
        read_datagram(bytes) is Some,
    ensures
        bytes == wire_instruction(read_datagram(bytes).unwrap()),
        instruction_fits(other) && wire_instruction(other) == bytes ==> other == read_datagram(
            bytes,
        ).unwrap(),
{
    lemma_instruction_canonical(bytes);
    assert(bytes.subrange(0, bytes.len() as int) =~= bytes);
    if instruction_fits(other) && wire_instruction(other) == bytes {
        lemma_instruction_round_trip(other, Seq::empty());
        assert(bytes + Seq::<u8>::empty() =~= bytes);
    }
}

/// Connecting is given up only by an attempt that failed after more than
/// the timeout had passed, and every such attempt gives it up.
pub proof fn law_timeout_is_kept(
    attempt: Result<(), std::io::Error>,
    elapsed_nanos: u128,
    timeout_nanos: u128,
)
    ensures
        spec_connect_step(attempt, elapsed_nanos, timeout_nanos) is GiveUp <==> attempt is Err
            && elapsed_nanos > timeout_nanos,
        spec_connect_step(attempt, elapsed_nanos, timeout_nanos) is Connected <==> attempt is Ok,
{
}

/// The socket is bound only to a path that is free: binding comes to be due
/// only by a look that found no file there, or by the removal of the file
/// that lay there.
pub proof fn law_bind_follows_clearing(due: BindStage, event: BindEvent)
    requires
        due != BindStage::Bind,
        spec_bind_step(due, event) == Ok::<BindStage, crate::error::Error>(BindStage::Bind),
    ensures
        (due == BindStage::Probe && event == (BindEvent::Probed { found: false })) || (due
            == BindStage::RemoveStale && event matches BindEvent::Finished(Ok(_))),
{
}

} // verus!
