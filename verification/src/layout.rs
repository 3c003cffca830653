//! Writing a message and reading it back: the two facts that the channel
//! rests on, proved for every part of a message.
//!
//! Written bytes read back as the value that was written, whatever follows
//! them; and bytes that read as a value begin with exactly that value's
//! layout, so that no two values share a prefix.

use vstd::bytes::{lemma_auto_spec_u32_to_from_le_bytes, lemma_auto_spec_u64_to_from_le_bytes};
use vstd::prelude::*;
use vstd::utf8::encode_utf8;
use crate::message::{
    gistit_fits, GistitView, instruction_fits, instruction_tag, InstructionView, parse_gistit,
    parse_instruction, parse_instruction_body, parse_response, parse_response_body, parse_status,
    parse_usize, response_fits, response_tag, ServerResponseView, wire_gistit, wire_instruction,
    wire_instruction_body, wire_response, wire_response_body, wire_status,
};
use crate::wire::{
    lemma_bytes_canonical, lemma_bytes_round_trip, lemma_opt_str_canonical,
    lemma_opt_str_round_trip, lemma_skip_front, lemma_str_canonical, lemma_str_round_trip,
    lemma_strs_canonical, lemma_strs_round_trip, lemma_u32_canonical, lemma_u32_round_trip,
    lemma_u64_canonical, lemma_u64_round_trip, parse_bytes, parse_str, parse_strs, parse_u32,
    str_fits, strs_fit, wire_bytes, wire_str, wire_str_run, wire_strs, wire_u32, wire_u64,
};

verus! {

/// Concatenation may be regrouped.
pub proof fn lemma_regroup(a: Seq<u8>, b: Seq<u8>, c: Seq<u8>)
    ensures
        (a + b) + c == a + (b + c),
{
    assert((a + b) + c =~= a + (b + c));
}

/// A prefix of `n + m` bytes is the first `n` bytes and the `m` after them.
pub proof fn lemma_prefix_split(bytes: Seq<u8>, n: nat, m: nat)
    requires
        n + m <= bytes.len(),
    ensures
        bytes.subrange(0, (n + m) as int) == bytes.subrange(0, n as int) + bytes.skip(
            n as int,
        ).subrange(0, m as int),
        bytes.skip(n as int).skip(m as int) == bytes.skip((n + m) as int),
{
    assert(bytes.subrange(0, (n + m) as int) =~= bytes.subrange(0, n as int) + bytes.skip(
        n as int,
    ).subrange(0, m as int));
    assert(bytes.skip(n as int).skip(m as int) =~= bytes.skip((n + m) as int));
}

/// A count that was written is read back on the machine that wrote it.
pub proof fn lemma_usize_round_trip(v: usize, rest: Seq<u8>)
    ensures
        wire_u64(v as u64).len() == 8,
        parse_usize(wire_u64(v as u64) + rest) == Some((v, 8nat)),
{
    lemma_u64_round_trip(v as u64, rest);
}

/// What reads as a count begins with that count's layout.
pub proof fn lemma_usize_canonical(bytes: Seq<u8>)
    requires
        parse_usize(bytes) is Some,
    ensures
        parse_usize(bytes).unwrap().1 == 8,
        bytes.len() >= 8,
        bytes.subrange(0, 8) == wire_u64(parse_usize(bytes).unwrap().0 as u64),
{
    lemma_u64_canonical(bytes);
}

/// A payload that was written is read back, whatever follows it.
pub proof fn lemma_gistit_round_trip(g: GistitView, rest: Seq<u8>)
    requires
        gistit_fits(g),
    ensures
        parse_gistit(wire_gistit(g) + rest) == Some((g, wire_gistit(g).len())),
{
    let tail = wire_bytes(g.content) + rest;
    lemma_regroup(wire_str(g.hash), wire_bytes(g.content), rest);
    lemma_str_round_trip(g.hash, tail);
    lemma_skip_front(wire_str(g.hash), tail);
    lemma_bytes_round_trip(g.content, rest);
}

/// What reads as a payload begins with that payload's layout.
pub proof fn lemma_gistit_canonical(bytes: Seq<u8>)
    requires
        parse_gistit(bytes) is Some,
    ensures
        ({
            let (g, n) = parse_gistit(bytes).unwrap();
            &&& n == wire_gistit(g).len()
            &&& n <= bytes.len()
            &&& gistit_fits(g)
            &&& bytes.subrange(0, n as int) == wire_gistit(g)
        }),
{
    lemma_str_canonical(bytes);
    let a = parse_str(bytes).unwrap().1;
    lemma_bytes_canonical(bytes.skip(a as int));
    let b = parse_bytes(bytes.skip(a as int)).unwrap().1;
    lemma_prefix_split(bytes, a, b);
}

/// A network snapshot that was written is read back, whatever follows it.
pub proof fn lemma_status_round_trip(
    peer_id: Seq<char>,
    peer_count: usize,
    pending_connections: u32,
    listeners: Seq<Seq<char>>,
    hosting: usize,
    rest: Seq<u8>,
)
    requires
        str_fits(peer_id),
        strs_fit(listeners),
    ensures
        parse_status(
            wire_status(peer_id, peer_count, pending_connections, listeners, hosting) + rest,
        ) == Some(
            (
                ServerResponseView::Status {
                    peer_id,
                    peer_count,
                    pending_connections,
                    listeners,
                    hosting,
                },
                wire_status(peer_id, peer_count, pending_connections, listeners, hosting).len(),
            ),
        ),
{
    let w1 = wire_str(peer_id);
    let w2 = wire_u64(peer_count as u64);
    let w3 = wire_u32(pending_connections);
    let w4 = wire_strs(listeners);
    let w5 = wire_u64(hosting as u64);
    let all = wire_status(peer_id, peer_count, pending_connections, listeners, hosting) + rest;
    let t4 = w5 + rest;
    let t3 = w4 + t4;
    let t2 = w3 + t3;
    let t1 = w2 + t2;
    lemma_regroup(w4, w5, rest);
    lemma_regroup(w3, w4 + w5, rest);
    lemma_regroup(w2, w3 + (w4 + w5), rest);
    lemma_regroup(w1, w2 + (w3 + (w4 + w5)), rest);
    assert(all == w1 + t1);
    lemma_str_round_trip(peer_id, t1);
    lemma_skip_front(w1, t1);
    lemma_usize_round_trip(peer_count, t2);
    lemma_skip_front(w2, t2);
    lemma_u32_round_trip(pending_connections, t3);
    lemma_skip_front(w3, t3);
    lemma_strs_round_trip(listeners, t4);
    lemma_skip_front(w4, t4);
    lemma_usize_round_trip(hosting, rest);
}

/// What reads as a network snapshot begins with that snapshot's layout.
pub proof fn lemma_status_canonical(bytes: Seq<u8>)
    requires
        parse_status(bytes) is Some,
    ensures
        ({
            let (r, n) = parse_status(bytes).unwrap();
            &&& r is Status
            &&& n == wire_response_body(r).len()
            &&& n <= bytes.len()
            &&& response_fits(r)
            &&& bytes.subrange(0, n as int) == wire_response_body(r)
        }),
{
    lemma_str_canonical(bytes);
    let a = parse_str(bytes).unwrap().1;
    let b1 = bytes.skip(a as int);
    lemma_usize_canonical(b1);
    let b2 = b1.skip(8);
    lemma_u32_canonical(b2);
    let b3 = b2.skip(4);
    lemma_strs_canonical(b3);
    let d = parse_strs(b3).unwrap().1;
    let b4 = b3.skip(d as int);
    lemma_usize_canonical(b4);
    lemma_prefix_split(b3, d, 8);
    lemma_prefix_split(b2, 4, d + 8);
    lemma_prefix_split(b1, 8, 4 + d + 8);
    lemma_prefix_split(bytes, a, 8 + 4 + d + 8);
}

/// A reply that was written is read back, whatever follows it.
pub proof fn lemma_response_round_trip(r: ServerResponseView, rest: Seq<u8>)
    requires
        response_fits(r),
    ensures
        parse_response(wire_response(r) + rest) == Some((r, wire_response(r).len())),
{
    let body = wire_response_body(r);
    lemma_regroup(wire_u32(response_tag(r)), body, rest);
    lemma_u32_round_trip(response_tag(r), body + rest);
    lemma_skip_front(wire_u32(response_tag(r)), body + rest);
    match r {
        ServerResponseView::Provide(id) => {
            lemma_opt_str_round_trip(id, rest);
        },
        ServerResponseView::Fetch(gistit) => {
            lemma_gistit_round_trip(gistit, rest);
        },
        ServerResponseView::Status { peer_id, peer_count, pending_connections, listeners, hosting } => {
            lemma_status_round_trip(
                peer_id,
                peer_count,
                pending_connections,
                listeners,
                hosting,
                rest,
            );
        },
    }
}

/// What reads as a reply begins with that reply's layout.
pub proof fn lemma_response_canonical(bytes: Seq<u8>)
    requires
        parse_response(bytes) is Some,
    ensures
        ({
            let (r, n) = parse_response(bytes).unwrap();
            &&& n == wire_response(r).len()
            &&& n <= bytes.len()
            &&& response_fits(r)
            &&& bytes.subrange(0, n as int) == wire_response(r)
        }),
{
    lemma_u32_canonical(bytes);
    let tag = parse_u32(bytes).unwrap().0;
    let body = bytes.skip(4);
    let m = parse_response_body(tag, body).unwrap().1;
    if tag == 0 {
        lemma_opt_str_canonical(body);
    } else if tag == 1 {
        lemma_gistit_canonical(body);
    } else {
        lemma_status_canonical(body);
    }
    lemma_prefix_split(bytes, 4, m);
}

/// A message that was written is read back, whatever follows it.
pub proof fn lemma_instruction_round_trip(i: InstructionView, rest: Seq<u8>)
    requires
        instruction_fits(i),
    ensures
        parse_instruction(wire_instruction(i) + rest) == Some((i, wire_instruction(i).len())),
{
    let body = wire_instruction_body(i);
    lemma_regroup(wire_u32(instruction_tag(i)), body, rest);
    lemma_u32_round_trip(instruction_tag(i), body + rest);
    lemma_skip_front(wire_u32(instruction_tag(i)), body + rest);
    match i {
        InstructionView::Provide { hash, data } => {
            let tail = wire_gistit(data) + rest;
            lemma_regroup(wire_str(hash), wire_gistit(data), rest);
            lemma_str_round_trip(hash, tail);
            lemma_skip_front(wire_str(hash), tail);
            lemma_gistit_round_trip(data, rest);
        },
        InstructionView::Fetch { hash } => {
            lemma_str_round_trip(hash, rest);
        },
        InstructionView::Status => {
            assert(body + rest =~= rest);
        },
        InstructionView::Shutdown => {
            assert(body + rest =~= rest);
        },
        InstructionView::Response(response) => {
            lemma_response_round_trip(response, rest);
        },
    }
}

/// What reads as a message begins with that message's layout.
pub proof fn lemma_instruction_canonical(bytes: Seq<u8>)
    requires
        parse_instruction(bytes) is Some,
    ensures
        ({
            let (i, n) = parse_instruction(bytes).unwrap();
            &&& n == wire_instruction(i).len()
            &&& n <= bytes.len()
            &&& instruction_fits(i)
            &&& bytes.subrange(0, n as int) == wire_instruction(i)
        }),
{
    lemma_u32_canonical(bytes);
    let tag = parse_u32(bytes).unwrap().0;
    let body = bytes.skip(4);
    let m = parse_instruction_body(tag, body).unwrap().1;
    if tag == 0 {
        lemma_str_canonical(body);
        let a = parse_str(body).unwrap().1;
        lemma_gistit_canonical(body.skip(a as int));
        let b = parse_gistit(body.skip(a as int)).unwrap().1;
        lemma_prefix_split(body, a, b);
    } else if tag == 1 {
        lemma_str_canonical(body);
    } else if tag == 2 || tag == 3 {
        assert(body.subrange(0, 0) =~= Seq::<u8>::empty());
    } else {
        lemma_response_canonical(body);
    }
    lemma_prefix_split(bytes, 4, m);
}

/// The layout of texts in a row holds each of them in full, behind a length
/// of eight bytes.
pub proof fn lemma_str_run_holds_each(l: Seq<Seq<char>>)
    ensures
        wire_str_run(l).len() >= 8 * l.len(),
        forall|i: int|
            0 <= i < l.len() ==> wire_str_run(l).len() >= 8 + encode_utf8(#[trigger] l[i]).len(),
    decreases l.len(),
{
    lemma_auto_spec_u64_to_from_le_bytes();
    if l.len() > 0 {
        let tail = l.skip(1);
        lemma_str_run_holds_each(tail);
        assert forall|i: int| 0 <= i < l.len() implies wire_str_run(l).len() >= 8 + encode_utf8(
            #[trigger] l[i],
        ).len() by {
            if i > 0 {
                assert(l[i] == tail[i - 1]);
            }
        }
    }
}

/// A message whose layout is short enough to have its length written as a
/// `u64` holds no part that is too long for that.
pub proof fn lemma_short_layout_fits(i: InstructionView)
    requires
        wire_instruction(i).len() <= u64::MAX,
    ensures
        instruction_fits(i),
{
    lemma_auto_spec_u64_to_from_le_bytes();
    lemma_auto_spec_u32_to_from_le_bytes();
    match i {
        InstructionView::Response(ServerResponseView::Status { listeners, .. }) => {
            lemma_str_run_holds_each(listeners);
        },
        _ => {},
    }
}

} // verus!
