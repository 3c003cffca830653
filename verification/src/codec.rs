//! Turning a message into the bytes of a datagram, and back.

use vstd::prelude::*;
use vstd::slice::slice_subrange;
use vstd::utf8::encode_utf8;
use crate::encoding::{
    put_bytes, put_opt_str, put_str, put_strs, put_u32, put_u64, take_bytes, take_opt_str, take_str,
    take_strs, take_u32, take_u64,
};
use crate::error::Error;
use crate::message::{
    Gistit, Instruction, parse_gistit, parse_response, parse_status, parse_usize, read_datagram,
    ServerResponse, wire_gistit, wire_instruction, wire_response,
};
use crate::wire::{
    lemma_bytes_canonical, lemma_opt_str_canonical, lemma_str_canonical, lemma_str_run_push,
    lemma_strs_canonical, lemma_u32_canonical, lemma_u64_canonical, opt_text, parse_bytes,
    parse_opt_str, parse_str, parse_strs, parse_u32, texts, wire_str, wire_str_run, wire_strs,
};

verus! {

/// The bytes of a payload.
fn encode_gistit(gistit: &Gistit) -> (out: Vec<u8>)
    ensures
        out@ == wire_gistit(gistit@),
{
    let mut out = put_str(&gistit.hash).unwrap();
    let mut content = put_bytes(&gistit.content).unwrap();
    out.append(&mut content);
    out
}

/// The bytes of a reply.
fn encode_response(response: &ServerResponse) -> (out: Vec<u8>)
    ensures
        out@ == wire_response(response@),
{
    match response {
        ServerResponse::Provide(id) => {
            let mut out = put_u32(0).unwrap();
            let mut body = put_opt_str(id).unwrap();
            out.append(&mut body);
            out
        },
        ServerResponse::Fetch(gistit) => {
            let mut out = put_u32(1).unwrap();
            let mut body = encode_gistit(gistit);
            out.append(&mut body);
            out
        },
        ServerResponse::Status { peer_id, peer_count, pending_connections, listeners, hosting } => {
            let mut out = put_u32(2).unwrap();
            let mut w1 = put_str(peer_id).unwrap();
            let mut w2 = put_u64(*peer_count as u64).unwrap();
            let mut w3 = put_u32(*pending_connections).unwrap();
            let mut w4 = put_strs(listeners).unwrap();
            let mut w5 = put_u64(*hosting as u64).unwrap();
            w4.append(&mut w5);
            w3.append(&mut w4);
            w2.append(&mut w3);
            w1.append(&mut w2);
            out.append(&mut w1);
            out
        },
    }
}

/// The bytes of the datagram that carries `instruction`: the index of its
/// variant, then its fields in order.
pub fn encode(instruction: &Instruction) -> (datagram: Vec<u8>)
    ensures
        datagram@ == wire_instruction(instruction@),
{
    match instruction {
        Instruction::Provide { hash, data } => {
            let mut out = put_u32(0).unwrap();
            let mut w1 = put_str(hash).unwrap();
            let mut w2 = encode_gistit(data);
            w1.append(&mut w2);
            out.append(&mut w1);
            out
        },
        Instruction::Fetch { hash } => {
            let mut out = put_u32(1).unwrap();
            let mut body = put_str(hash).unwrap();
            out.append(&mut body);
            out
        },
        Instruction::Status => {
            let out = put_u32(2).unwrap();
            assert(out@ + Seq::<u8>::empty() =~= out@);
            out
        },
        Instruction::Shutdown => {
            let out = put_u32(3).unwrap();
            assert(out@ + Seq::<u8>::empty() =~= out@);
            out
        },
        Instruction::Response(response) => {
            let mut out = put_u32(4).unwrap();
            let mut body = encode_response(response);
            out.append(&mut body);
            out
        },
    }
}

/// The layout of the first `i` texts is no longer than that of all.
proof fn lemma_str_run_prefix(l: Seq<Seq<char>>, i: int)
    requires
        0 <= i <= l.len(),
    ensures
        wire_str_run(l.take(i)).len() <= wire_str_run(l).len(),
    decreases l.len() - i,
{
    if i == l.len() {
        assert(l.take(i) =~= l);
    } else {
        lemma_str_run_push(l.take(i), l[i]);
        assert(l.take(i).push(l[i]) =~= l.take(i + 1));
        lemma_str_run_prefix(l, i + 1);
    }
}

/// Number of bytes that the layout of a list of strings takes.
fn strs_wire_len(v: &Vec<String>) -> (n: usize)
    requires
        wire_strs(texts(v@)).len() <= usize::MAX,
    ensures
        n == wire_strs(texts(v@)).len(),
{
    let ghost l = texts(v@);
    proof {
        vstd::bytes::lemma_auto_spec_u64_to_from_le_bytes();
        assert(l.take(0) =~= Seq::<Seq<char>>::empty());
    }
    let mut total: usize = 8;
    let mut i: usize = 0;
    while i < v.len()
        invariant
            0 <= i <= v.len(),
            l == texts(v@),
            wire_strs(l).len() == 8 + wire_str_run(l).len(),
            wire_strs(l).len() <= usize::MAX,
            total == 8 + wire_str_run(l.take(i as int)).len(),
        decreases v.len() - i,
    {
        proof {
            lemma_str_run_push(l.take(i as int), l[i as int]);
            assert(l.take(i as int).push(l[i as int]) =~= l.take(i + 1));
            lemma_str_run_prefix(l, i + 1);
            vstd::bytes::lemma_auto_spec_u64_to_from_le_bytes();
            assert(wire_str(l[i as int]).len() == 8 + encode_utf8(l[i as int]).len());
        }
        let width: usize = v[i].as_str().len();
        total = total + 8 + width;
        i = i + 1;
    }
    proof {
        assert(l.take(i as int) =~= l);
    }
    total
}

/// Reads a `u32` at `at`; gives the value and the place after it.
fn read_u32(buf: &[u8], at: usize) -> (r: Option<(u32, usize)>)
    requires
        at <= buf@.len(),
    ensures
        match parse_u32(buf@.skip(at as int)) {
            Some((v, n)) => r is Some && r.unwrap().0 == v && r.unwrap().1 == at + n && at + n
                <= buf@.len(),
            None => r is None,
        },
{
    let rest = slice_subrange(buf, at, buf.len());
    match take_u32(rest) {
        Ok(v) => {
            proof {
                lemma_u32_canonical(rest@);
            }
            Some((v, at + 4))
        },
        Err(_) => None,
    }
}

/// Reads a count at `at`; one that this machine cannot hold is refused.
fn read_usize(buf: &[u8], at: usize) -> (r: Option<(usize, usize)>)
    requires
        at <= buf@.len(),
    ensures
        match parse_usize(buf@.skip(at as int)) {
            Some((v, n)) => r is Some && r.unwrap().0 == v && r.unwrap().1 == at + n && at + n
                <= buf@.len(),
            None => r is None,
        },
{
    let rest = slice_subrange(buf, at, buf.len());
    match take_u64(rest) {
        Ok(v) => {
            proof {
                lemma_u64_canonical(rest@);
            }
            if v <= usize::MAX as u64 {
                Some((v as usize, at + 8))
            } else {
                None
            }
        },
        Err(_) => None,
    }
}

/// Reads a string at `at`.
fn read_str(buf: &[u8], at: usize) -> (r: Option<(String, usize)>)
    requires
        at <= buf@.len(),
    ensures
        match parse_str(buf@.skip(at as int)) {
            Some((v, n)) => r is Some && r.unwrap().0@ == v && r.unwrap().1 == at + n && at + n
                <= buf@.len(),
            None => r is None,
        },
{
    let rest = slice_subrange(buf, at, buf.len());
    match take_str(rest) {
        Ok(v) => {
            proof {
                lemma_str_canonical(rest@);
            }
            let width: usize = v.as_str().len();
            Some((v, at + 8 + width))
        },
        Err(_) => None,
    }
}

/// Reads a byte vector at `at`.
fn read_bytes(buf: &[u8], at: usize) -> (r: Option<(Vec<u8>, usize)>)
    requires
        at <= buf@.len(),
    ensures
        match parse_bytes(buf@.skip(at as int)) {
            Some((v, n)) => r is Some && r.unwrap().0@ == v && r.unwrap().1 == at + n && at + n
                <= buf@.len(),
            None => r is None,
        },
{
    let rest = slice_subrange(buf, at, buf.len());
    match take_bytes(rest) {
        Ok(v) => {
            proof {
                lemma_bytes_canonical(rest@);
            }
            let width: usize = v.len();
            Some((v, at + 8 + width))
        },
        Err(_) => None,
    }
}

/// Reads an optional string at `at`.
fn read_opt_str(buf: &[u8], at: usize) -> (r: Option<(Option<String>, usize)>)
    requires
        at <= buf@.len(),
    ensures
        match parse_opt_str(buf@.skip(at as int)) {
            Some((v, n)) => r is Some && opt_text(r.unwrap().0) == v && r.unwrap().1 == at + n
                && at + n <= buf@.len(),
            None => r is None,
        },
{
    let rest = slice_subrange(buf, at, buf.len());
    match take_opt_str(rest) {
        Ok(v) => {
            proof {
                lemma_opt_str_canonical(rest@);
                if v is Some {
                    lemma_str_canonical(rest@.skip(1));
                }
            }
            let width: usize = match &v {
                Some(s) => 9 + s.as_str().len(),
                None => 1,
            };
            Some((v, at + width))
        },
        Err(_) => None,
    }
}

/// Reads a list of strings at `at`.
fn read_strs(buf: &[u8], at: usize) -> (r: Option<(Vec<String>, usize)>)
    requires
        at <= buf@.len(),
    ensures
        match parse_strs(buf@.skip(at as int)) {
            Some((v, n)) => r is Some && texts(r.unwrap().0@) == v && r.unwrap().1 == at + n
                && at + n <= buf@.len(),
            None => r is None,
        },
{
    let rest = slice_subrange(buf, at, buf.len());
    match take_strs(rest) {
        Ok(v) => {
            proof {
                lemma_strs_canonical(rest@);
            }
            let width: usize = strs_wire_len(&v);
            Some((v, at + width))
        },
        Err(_) => None,
    }
}

/// Skipping twice is skipping once by the sum.
proof fn lemma_skip_twice(bytes: Seq<u8>, a: int, b: int)
    requires
        0 <= a,
        0 <= b,
        a + b <= bytes.len(),
    ensures
        bytes.skip(a).skip(b) == bytes.skip(a + b),
{
    assert(bytes.skip(a).skip(b) =~= bytes.skip(a + b));
}

/// Reads a payload at `at`.
fn read_gistit(buf: &[u8], at: usize) -> (r: Option<(Gistit, usize)>)
    requires
        at <= buf@.len(),
    ensures
        match parse_gistit(buf@.skip(at as int)) {
            Some((v, n)) => r is Some && r.unwrap().0@ == v && r.unwrap().1 == at + n && at + n
                <= buf@.len(),
            None => r is None,
        },
{
    let (hash, end1) = match read_str(buf, at) {
        Some(x) => x,
        None => { return None; },
    };
    proof {
        lemma_skip_twice(buf@, at as int, end1 - at);
    }
    let (content, end2) = match read_bytes(buf, end1) {
        Some(x) => x,
        None => { return None; },
    };
    Some((Gistit { hash, content }, end2))
}

/// Reads the fields of a network snapshot at `at`.
fn read_status(buf: &[u8], at: usize) -> (r: Option<(ServerResponse, usize)>)
    requires
        at <= buf@.len(),
    ensures
        match parse_status(buf@.skip(at as int)) {
            Some((v, n)) => r is Some && r.unwrap().0@ == v && r.unwrap().1 == at + n && at + n
                <= buf@.len(),
            None => r is None,
        },
{
    let (peer_id, end1) = match read_str(buf, at) {
        Some(x) => x,
        None => { return None; },
    };
    proof {
        lemma_skip_twice(buf@, at as int, end1 - at);
    }
    let (peer_count, end2) = match read_usize(buf, end1) {
        Some(x) => x,
        None => { return None; },
    };
    proof {
        lemma_skip_twice(buf@, end1 as int, end2 - end1);
    }
    let (pending_connections, end3) = match read_u32(buf, end2) {
        Some(x) => x,
        None => { return None; },
    };
    proof {
        lemma_skip_twice(buf@, end2 as int, end3 - end2);
    }
    let (listeners, end4) = match read_strs(buf, end3) {
        Some(x) => x,
        None => { return None; },
    };
    proof {
        lemma_skip_twice(buf@, end3 as int, end4 - end3);
    }
    let (hosting, end5) = match read_usize(buf, end4) {
        Some(x) => x,
        None => { return None; },
    };
    Some(
        (ServerResponse::Status { peer_id, peer_count, pending_connections, listeners, hosting }, end5),
    )
}

/// Reads a reply at `at`.
fn read_response(buf: &[u8], at: usize) -> (r: Option<(ServerResponse, usize)>)
    requires
        at <= buf@.len(),
    ensures
        match parse_response(buf@.skip(at as int)) {
            Some((v, n)) => r is Some && r.unwrap().0@ == v && r.unwrap().1 == at + n && at + n
                <= buf@.len(),
            None => r is None,
        },
{
    let (tag, end1) = match read_u32(buf, at) {
        Some(x) => x,
        None => { return None; },
    };
    proof {
        lemma_skip_twice(buf@, at as int, 4);
    }
    if tag == 0 {
        match read_opt_str(buf, end1) {
            Some((id, end2)) => Some((ServerResponse::Provide(id), end2)),
            None => None,
        }
    } else if tag == 1 {
        match read_gistit(buf, end1) {
            Some((gistit, end2)) => Some((ServerResponse::Fetch(gistit), end2)),
            None => None,
        }
    } else if tag == 2 {
        read_status(buf, end1)
    } else {
        None
    }
}

/// Reads the message that the datagram `buf` carries. The bytes have to be
/// the layout of a message from the first to the last. Whatever else they
/// are is refused as `Error::Decode`: too few bytes, an index that names no
/// variant, a length that runs past the end, text that is not UTF-8, bytes
/// left over behind the message.
pub fn decode(buf: &[u8]) -> (r: Result<Instruction, Error>)
    ensures
        match read_datagram(buf@) {
            Some(v) => r is Ok && r.unwrap()@ == v,
            None => r == Err::<Instruction, Error>(Error::Decode),
        },
{
    assert(buf@.skip(0) =~= buf@);
    let (tag, start) = match read_u32(buf, 0) {
        Some(x) => x,
        None => { return Err(Error::Decode); },
    };
    let (instruction, end) = if tag == 0 {
        let (hash, mid) = match read_str(buf, start) {
            Some(x) => x,
            None => { return Err(Error::Decode); },
        };
        proof {
            lemma_skip_twice(buf@, 4, mid - 4);
        }
        match read_gistit(buf, mid) {
            Some((data, end)) => (Instruction::Provide { hash, data }, end),
            None => { return Err(Error::Decode); },
        }
    } else if tag == 1 {
        match read_str(buf, start) {
            Some((hash, end)) => (Instruction::Fetch { hash }, end),
            None => { return Err(Error::Decode); },
        }
    } else if tag == 2 {
        (Instruction::Status, start)
    } else if tag == 3 {
        (Instruction::Shutdown, start)
    } else if tag == 4 {
        match read_response(buf, start) {
            Some((response, end)) => (Instruction::Response(response), end),
            None => { return Err(Error::Decode); },
        }
    } else {
        return Err(Error::Decode);
    };
    if end == buf.len() {
        Ok(instruction)
    } else {
        Err(Error::Decode)
    }
}

} // verus!
