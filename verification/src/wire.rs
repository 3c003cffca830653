//! Byte layout of the plain values a message is made of.
//!
//! Every value is laid out by `bincode` under its default configuration:
//! integers at fixed width, least significant byte first, and every length as
//! a `u64`. The spec functions here state that layout, the lemmas relate
//! writing to reading, and the functions that call `bincode` are believed to
//! follow the layout.

use vstd::prelude::*;
use vstd::bytes::*;
use vstd::utf8::*;

verus! {

/// Layout of a `u32`: four bytes, least significant first.
pub open spec fn wire_u32(v: u32) -> Seq<u8> {
    spec_u32_to_le_bytes(v)
}

/// Reading a `u32` off the front of `bytes`: the value and the number of
/// bytes it took, or nothing where fewer than four bytes are there.
pub open spec fn parse_u32(bytes: Seq<u8>) -> Option<(u32, nat)> {
    if bytes.len() >= 4 {
        Some((spec_u32_from_le_bytes(bytes.subrange(0, 4)), 4nat))
    } else {
        None
    }
}

/// Layout of a `u64`: eight bytes, least significant first.
pub open spec fn wire_u64(v: u64) -> Seq<u8> {
    spec_u64_to_le_bytes(v)
}

/// Reading a `u64` off the front of `bytes`.
pub open spec fn parse_u64(bytes: Seq<u8>) -> Option<(u64, nat)> {
    if bytes.len() >= 8 {
        Some((spec_u64_from_le_bytes(bytes.subrange(0, 8)), 8nat))
    } else {
        None
    }
}

/// Layout of a run of bytes: its length as a `u64`, then the bytes.
pub open spec fn wire_bytes(b: Seq<u8>) -> Seq<u8> {
    wire_u64(b.len() as u64) + b
}

/// Reading a run of bytes: the announced length has to be there in full.
pub open spec fn parse_bytes(bytes: Seq<u8>) -> Option<(Seq<u8>, nat)> {
    match parse_u64(bytes) {
        Some((n, _)) => if n <= bytes.len() - 8 {
            Some((bytes.subrange(8, 8 + n), (8 + n) as nat))
        } else {
            None
        },
        None => None,
    }
}

/// Layout of a text: its UTF-8 bytes, laid out as a run of bytes.
pub open spec fn wire_str(s: Seq<char>) -> Seq<u8> {
    wire_bytes(encode_utf8(s))
}

/// Reading a text: a run of bytes that has to be valid UTF-8.
pub open spec fn parse_str(bytes: Seq<u8>) -> Option<(Seq<char>, nat)> {
    match parse_bytes(bytes) {
        Some((raw, n)) => if valid_utf8(raw) {
            Some((decode_utf8(raw), n))
        } else {
            None
        },
        None => None,
    }
}

/// Layout of an optional text: one byte, 0 for none, 1 before a text.
pub open spec fn wire_opt_str(o: Option<Seq<char>>) -> Seq<u8> {
    match o {
        None => seq![0u8],
        Some(s) => seq![1u8] + wire_str(s),
    }
}

/// Reading an optional text: any leading byte but 0 and 1 is refused.
pub open spec fn parse_opt_str(bytes: Seq<u8>) -> Option<(Option<Seq<char>>, nat)> {
    if bytes.len() == 0 {
        None
    } else if bytes[0] == 0 {
        Some((None, 1nat))
    } else if bytes[0] == 1 {
        match parse_str(bytes.skip(1)) {
            Some((s, n)) => Some((Some(s), 1 + n)),
            None => None,
        }
    } else {
        None
    }
}

/// Layout of texts that follow one another with nothing in between.
pub open spec fn wire_str_run(l: Seq<Seq<char>>) -> Seq<u8>
    decreases l.len(),
{
    if l.len() == 0 {
        Seq::empty()
    } else {
        wire_str(l[0]) + wire_str_run(l.skip(1))
    }
}

/// Reading `count` texts that follow one another.
pub open spec fn parse_str_run(bytes: Seq<u8>, count: nat) -> Option<(Seq<Seq<char>>, nat)>
    decreases count,
{
    if count == 0 {
        Some((Seq::empty(), 0nat))
    } else {
        match parse_str(bytes) {
            Some((s, n)) => match parse_str_run(bytes.skip(n as int), (count - 1) as nat) {
                Some((rest, m)) => Some((seq![s] + rest, n + m)),
                None => None,
            },
            None => None,
        }
    }
}

/// Layout of a list of texts: their number as a `u64`, then the texts.
pub open spec fn wire_strs(l: Seq<Seq<char>>) -> Seq<u8> {
    wire_u64(l.len() as u64) + wire_str_run(l)
}

/// Reading a list of texts.
pub open spec fn parse_strs(bytes: Seq<u8>) -> Option<(Seq<Seq<char>>, nat)> {
    match parse_u64(bytes) {
        Some((count, _)) => match parse_str_run(bytes.skip(8), count as nat) {
            Some((l, n)) => Some((l, 8 + n)),
            None => None,
        },
        None => None,
    }
}

/// The length of the text's UTF-8 form can be written as a `u64`.
pub open spec fn str_fits(s: Seq<char>) -> bool {
    encode_utf8(s).len() <= u64::MAX
}

/// The number of texts, and the length of each, can be written as a `u64`.
pub open spec fn strs_fit(l: Seq<Seq<char>>) -> bool {
    &&& l.len() <= u64::MAX
    &&& forall|i: int| 0 <= i < l.len() ==> str_fits(#[trigger] l[i])
}

/// The text of each string of a vector, in order.
pub open spec fn texts(v: Seq<String>) -> Seq<Seq<char>> {
    Seq::new(v.len(), |i: int| v[i]@)
}

/// The text of a string that may be absent.
pub open spec fn opt_text(o: Option<String>) -> Option<Seq<char>> {
    match o {
        Some(s) => Some(s@),
        None => None,
    }
}

/// Dropping the first part of a concatenation leaves the second.
pub proof fn lemma_skip_front(a: Seq<u8>, b: Seq<u8>)
    ensures
        (a + b).skip(a.len() as int) == b,
        (a + b).subrange(0, a.len() as int) == a,
{
    assert((a + b).skip(a.len() as int) =~= b);
    assert((a + b).subrange(0, a.len() as int) =~= a);
}

/// A `u32` that was written is read back, whatever follows it.
pub proof fn lemma_u32_round_trip(v: u32, rest: Seq<u8>)
    ensures
        wire_u32(v).len() == 4,
        parse_u32(wire_u32(v) + rest) == Some((v, 4nat)),
{
    lemma_auto_spec_u32_to_from_le_bytes();
    lemma_skip_front(wire_u32(v), rest);
}

/// What reads as a `u32` begins with that value's layout.
pub proof fn lemma_u32_canonical(bytes: Seq<u8>)
    requires
        parse_u32(bytes) is Some,
    ensures
        parse_u32(bytes).unwrap().1 == 4,
        bytes.len() >= 4,
        bytes.subrange(0, 4) == wire_u32(parse_u32(bytes).unwrap().0),
{
    lemma_auto_spec_u32_to_from_le_bytes();
}

/// A `u64` that was written is read back, whatever follows it.
pub proof fn lemma_u64_round_trip(v: u64, rest: Seq<u8>)
    ensures
        wire_u64(v).len() == 8,
        parse_u64(wire_u64(v) + rest) == Some((v, 8nat)),
{
    lemma_auto_spec_u64_to_from_le_bytes();
    lemma_skip_front(wire_u64(v), rest);
}

/// What reads as a `u64` begins with that value's layout.
pub proof fn lemma_u64_canonical(bytes: Seq<u8>)
    requires
        parse_u64(bytes) is Some,
    ensures
        parse_u64(bytes).unwrap().1 == 8,
        bytes.len() >= 8,
        bytes.subrange(0, 8) == wire_u64(parse_u64(bytes).unwrap().0),
{
    lemma_auto_spec_u64_to_from_le_bytes();
}

/// A run of bytes that was written is read back, whatever follows it.
pub proof fn lemma_bytes_round_trip(b: Seq<u8>, rest: Seq<u8>)
    requires
        b.len() <= u64::MAX,
    ensures
        wire_bytes(b).len() == 8 + b.len(),
        parse_bytes(wire_bytes(b) + rest) == Some((b, (8 + b.len()) as nat)),
{
    let head = wire_u64(b.len() as u64);
    let all = wire_bytes(b) + rest;
    lemma_u64_round_trip(b.len() as u64, b + rest);
    assert(all =~= head + (b + rest));
    assert(all.subrange(8, 8 + b.len() as int) =~= b);
}

/// What reads as a run of bytes begins with that run's layout.
pub proof fn lemma_bytes_canonical(bytes: Seq<u8>)
    requires
        parse_bytes(bytes) is Some,
    ensures
        ({
            let (b, n) = parse_bytes(bytes).unwrap();
            &&& n == 8 + b.len()
            &&& n <= bytes.len()
            &&& b.len() <= u64::MAX
            &&& bytes.subrange(0, n as int) == wire_bytes(b)
        }),
{
    lemma_u64_canonical(bytes);
    let (b, n) = parse_bytes(bytes).unwrap();
    assert(bytes.subrange(0, n as int) =~= bytes.subrange(0, 8) + b);
}

/// A text that was written is read back, whatever follows it.
pub proof fn lemma_str_round_trip(s: Seq<char>, rest: Seq<u8>)
    requires
        str_fits(s),
    ensures
        wire_str(s).len() == 8 + encode_utf8(s).len(),
        parse_str(wire_str(s) + rest) == Some((s, (8 + encode_utf8(s).len()) as nat)),
{
    lemma_bytes_round_trip(encode_utf8(s), rest);
    encode_utf8_valid_utf8(s);
    encode_utf8_decode_utf8(s);
}

/// What reads as a text begins with that text's layout.
pub proof fn lemma_str_canonical(bytes: Seq<u8>)
    requires
        parse_str(bytes) is Some,
    ensures
        ({
            let (s, n) = parse_str(bytes).unwrap();
            &&& n == 8 + encode_utf8(s).len()
            &&& n <= bytes.len()
            &&& str_fits(s)
            &&& bytes.subrange(0, n as int) == wire_str(s)
        }),
{
    lemma_bytes_canonical(bytes);
    decode_utf8_encode_utf8(parse_bytes(bytes).unwrap().0);
}

/// An optional text that was written is read back, whatever follows it.
pub proof fn lemma_opt_str_round_trip(o: Option<Seq<char>>, rest: Seq<u8>)
    requires
        o is Some ==> str_fits(o.unwrap()),
    ensures
        parse_opt_str(wire_opt_str(o) + rest) == Some((o, wire_opt_str(o).len())),
{
    let all = wire_opt_str(o) + rest;
    match o {
        None => {
            assert(all[0] == 0u8);
        },
        Some(s) => {
            assert(all[0] == 1u8);
            lemma_str_round_trip(s, rest);
            assert(all.skip(1) =~= wire_str(s) + rest);
        },
    }
}

/// What reads as an optional text begins with its layout.
pub proof fn lemma_opt_str_canonical(bytes: Seq<u8>)
    requires
        parse_opt_str(bytes) is Some,
    ensures
        ({
            let (o, n) = parse_opt_str(bytes).unwrap();
            &&& n == wire_opt_str(o).len()
            &&& n <= bytes.len()
            &&& (o is Some ==> str_fits(o.unwrap()))
            &&& bytes.subrange(0, n as int) == wire_opt_str(o)
        }),
{
    let (o, n) = parse_opt_str(bytes).unwrap();
    if bytes[0] == 0 {
        assert(bytes.subrange(0, 1) =~= seq![0u8]);
    } else {
        lemma_str_canonical(bytes.skip(1));
        let m = parse_str(bytes.skip(1)).unwrap().1;
        assert(bytes.subrange(0, n as int) =~= seq![1u8] + bytes.skip(1).subrange(0, m as int));
    }
}

/// The layout of texts in a row is as long as its parts together.
pub proof fn lemma_str_run_push(l: Seq<Seq<char>>, s: Seq<char>)
    ensures
        wire_str_run(l.push(s)) == wire_str_run(l) + wire_str(s),
    decreases l.len(),
{
    if l.len() == 0 {
        assert(l.push(s).skip(1) =~= Seq::<Seq<char>>::empty());
        assert(wire_str_run(l.push(s)) =~= wire_str(s) + wire_str_run(Seq::empty()));
        assert(wire_str_run(l) + wire_str(s) =~= wire_str(s));
        assert(wire_str(s) + wire_str_run(Seq::empty()) =~= wire_str(s));
    } else {
        lemma_str_run_push(l.skip(1), s);
        assert(l.push(s).skip(1) =~= l.skip(1).push(s));
        assert(wire_str_run(l.push(s)) =~= wire_str(l[0]) + (wire_str_run(l.skip(1)) + wire_str(s)));
        assert(wire_str(l[0]) + (wire_str_run(l.skip(1)) + wire_str(s)) =~= wire_str_run(l)
            + wire_str(s));
    }
}

/// Texts that were written in a row are read back, whatever follows them.
pub proof fn lemma_str_run_round_trip(l: Seq<Seq<char>>, rest: Seq<u8>)
    requires
        forall|i: int| 0 <= i < l.len() ==> str_fits(#[trigger] l[i]),
    ensures
        parse_str_run(wire_str_run(l) + rest, l.len()) == Some((l, wire_str_run(l).len())),
    decreases l.len(),
{
    if l.len() == 0 {
        assert(l =~= Seq::<Seq<char>>::empty());
    } else {
        let tail = l.skip(1);
        let all = wire_str_run(l) + rest;
        assert(forall|i: int| 0 <= i < tail.len() ==> tail[i] == l[i + 1]);
        lemma_str_round_trip(l[0], wire_str_run(tail) + rest);
        assert(all =~= wire_str(l[0]) + (wire_str_run(tail) + rest));
        lemma_skip_front(wire_str(l[0]), wire_str_run(tail) + rest);
        lemma_str_run_round_trip(tail, rest);
        assert(seq![l[0]] + tail =~= l);
    }
}

/// What reads as texts in a row begins with their layout.
pub proof fn lemma_str_run_canonical(bytes: Seq<u8>, count: nat)
    requires
        parse_str_run(bytes, count) is Some,
    ensures
        ({
            let (l, n) = parse_str_run(bytes, count).unwrap();
            &&& l.len() == count
            &&& n == wire_str_run(l).len()
            &&& n <= bytes.len()
            &&& forall|i: int| 0 <= i < l.len() ==> str_fits(#[trigger] l[i])
            &&& bytes.subrange(0, n as int) == wire_str_run(l)
        }),
    decreases count,
{
    let (l, n) = parse_str_run(bytes, count).unwrap();
    if count == 0 {
        assert(bytes.subrange(0, 0) =~= wire_str_run(l));
    } else {
        lemma_str_canonical(bytes);
        let (s, k) = parse_str(bytes).unwrap();
        let after = bytes.skip(k as int);
        lemma_str_run_canonical(after, (count - 1) as nat);
        let (tail, m) = parse_str_run(after, (count - 1) as nat).unwrap();
        assert(l == seq![s] + tail);
        assert(l.skip(1) =~= tail);
        assert(l[0] == s);
        assert forall|i: int| 0 <= i < l.len() implies str_fits(#[trigger] l[i]) by {
            if i > 0 {
                assert(l[i] == tail[i - 1]);
            }
        }
        assert(bytes.subrange(0, n as int) =~= bytes.subrange(0, k as int) + after.subrange(
            0,
            m as int,
        ));
    }
}

/// A list of texts that was written is read back, whatever follows it.
pub proof fn lemma_strs_round_trip(l: Seq<Seq<char>>, rest: Seq<u8>)
    requires
        strs_fit(l),
    ensures
        wire_strs(l).len() == 8 + wire_str_run(l).len(),
        parse_strs(wire_strs(l) + rest) == Some((l, wire_strs(l).len())),
{
    let all = wire_strs(l) + rest;
    lemma_u64_round_trip(l.len() as u64, wire_str_run(l) + rest);
    assert(all =~= wire_u64(l.len() as u64) + (wire_str_run(l) + rest));
    lemma_skip_front(wire_u64(l.len() as u64), wire_str_run(l) + rest);
    lemma_str_run_round_trip(l, rest);
}

/// What reads as a list of texts begins with its layout.
pub proof fn lemma_strs_canonical(bytes: Seq<u8>)
    requires
        parse_strs(bytes) is Some,
    ensures
        ({
            let (l, n) = parse_strs(bytes).unwrap();
            &&& n == wire_strs(l).len()
            &&& n <= bytes.len()
            &&& strs_fit(l)
            &&& bytes.subrange(0, n as int) == wire_strs(l)
        }),
{
    lemma_u64_canonical(bytes);
    let count = parse_u64(bytes).unwrap().0;
    lemma_str_run_canonical(bytes.skip(8), count as nat);
    let (l, n) = parse_strs(bytes).unwrap();
    assert(bytes.subrange(0, n as int) =~= bytes.subrange(0, 8) + bytes.skip(8).subrange(
        0,
        n - 8,
    ));
}

} // verus!
