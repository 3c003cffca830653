//! The calls into `bincode`, one function for each plain type that a message
//! holds. Nothing here is proved: each contract states, over the layout of
//! `wire`, what the call is believed to do.
//!
//! `bincode::serialize` and `bincode::deserialize` run under the functions'
//! own default configuration: integers at fixed width, least significant
//! byte first, no limit on the size, and bytes after the value accepted.
//! Writing is believed never to fail, since no limit is set and the bytes go
//! to a vector; reading is believed to fail exactly where `wire` says that
//! nothing can be read.

use vstd::prelude::*;
use crate::wire::{
    opt_text, parse_bytes, parse_opt_str, parse_str, parse_strs, parse_u32, parse_u64, texts,
    wire_bytes, wire_opt_str, wire_str, wire_strs, wire_u32, wire_u64,
};

verus! {

/// The failure that `bincode` reports.
#[verifier::external_type_specification]
#[verifier::external_body]
pub struct ExBincodeErrorKind(bincode::ErrorKind);

/// `bincode::serialize` on a `u32`: four bytes, least significant first.
#[verifier::external_body]
pub(crate) fn put_u32(v: u32) -> (r: Result<Vec<u8>, Box<bincode::ErrorKind>>)
    ensures
        r is Ok && r.unwrap()@ == wire_u32(v),
{
    bincode::serialize(&v)
}

/// `bincode::serialize` on a `u64`: eight bytes, least significant first.
#[verifier::external_body]
pub(crate) fn put_u64(v: u64) -> (r: Result<Vec<u8>, Box<bincode::ErrorKind>>)
    ensures
        r is Ok && r.unwrap()@ == wire_u64(v),
{
    bincode::serialize(&v)
}

/// `bincode::serialize` on a byte vector: the length as a `u64`, then the
/// bytes.
#[verifier::external_body]
pub(crate) fn put_bytes(v: &Vec<u8>) -> (r: Result<Vec<u8>, Box<bincode::ErrorKind>>)
    ensures
        r is Ok && r.unwrap()@ == wire_bytes(v@),
{
    bincode::serialize(v)
}

/// `bincode::serialize` on a string: the length of its UTF-8 form as a
/// `u64`, then that form.
#[verifier::external_body]
pub(crate) fn put_str(v: &String) -> (r: Result<Vec<u8>, Box<bincode::ErrorKind>>)
    ensures
        r is Ok && r.unwrap()@ == wire_str(v@),
{
    bincode::serialize(v)
}

/// `bincode::serialize` on an optional string: the byte 0, or the byte 1
/// and the string.
#[verifier::external_body]
pub(crate) fn put_opt_str(v: &Option<String>) -> (r: Result<Vec<u8>, Box<bincode::ErrorKind>>)
    ensures
        r is Ok && r.unwrap()@ == wire_opt_str(opt_text(*v)),
{
    bincode::serialize(v)
}

/// `bincode::serialize` on a vector of strings: their number as a `u64`,
/// then each string in turn.
#[verifier::external_body]
pub(crate) fn put_strs(v: &Vec<String>) -> (r: Result<Vec<u8>, Box<bincode::ErrorKind>>)
    ensures
        r is Ok && r.unwrap()@ == wire_strs(texts(v@)),
{
    bincode::serialize(v)
}

/// `bincode::deserialize` for a `u32`: reads the first four bytes and fails
/// where there are fewer.
#[verifier::external_body]
pub(crate) fn take_u32(bytes: &[u8]) -> (r: Result<u32, Box<bincode::ErrorKind>>)
    ensures
        match parse_u32(bytes@) {
            Some((v, _)) => r is Ok && r.unwrap() == v,
            None => r is Err,
        },
{
    bincode::deserialize::<u32>(bytes)
}

/// `bincode::deserialize` for a `u64`: reads the first eight bytes and fails
/// where there are fewer.
#[verifier::external_body]
pub(crate) fn take_u64(bytes: &[u8]) -> (r: Result<u64, Box<bincode::ErrorKind>>)
    ensures
        match parse_u64(bytes@) {
            Some((v, _)) => r is Ok && r.unwrap() == v,
            None => r is Err,
        },
{
    bincode::deserialize::<u64>(bytes)
}

/// `bincode::deserialize` for a byte vector: reads the length, then as many
/// bytes, and fails where the bytes end before that.
#[verifier::external_body]
pub(crate) fn take_bytes(bytes: &[u8]) -> (r: Result<Vec<u8>, Box<bincode::ErrorKind>>)
    ensures
        match parse_bytes(bytes@) {
            Some((v, _)) => r is Ok && r.unwrap()@ == v,
            None => r is Err,
        },
{
    bincode::deserialize::<Vec<u8>>(bytes)
}

/// `bincode::deserialize` for a string: reads a run of bytes and fails where
/// the bytes end early or are not UTF-8.
#[verifier::external_body]
pub(crate) fn take_str(bytes: &[u8]) -> (r: Result<String, Box<bincode::ErrorKind>>)
    ensures
        match parse_str(bytes@) {
            Some((v, _)) => r is Ok && r.unwrap()@ == v,
            None => r is Err,
        },
{
    bincode::deserialize::<String>(bytes)
}

/// `bincode::deserialize` for an optional string: the first byte decides,
/// and any byte but 0 and 1 fails.
#[verifier::external_body]
pub(crate) fn take_opt_str(bytes: &[u8]) -> (r: Result<Option<String>, Box<bincode::ErrorKind>>)
    ensures
        match parse_opt_str(bytes@) {
            Some((v, _)) => r is Ok && opt_text(r.unwrap()) == v,
            None => r is Err,
        },
{
    bincode::deserialize::<Option<String>>(bytes)
}

/// `bincode::deserialize` for a vector of strings: reads their number, then
/// as many strings, and fails where one of them fails.
#[verifier::external_body]
pub(crate) fn take_strs(bytes: &[u8]) -> (r: Result<Vec<String>, Box<bincode::ErrorKind>>)
    ensures
        match parse_strs(bytes@) {
            Some((v, _)) => r is Ok && texts(r.unwrap()@) == v,
            None => r is Err,
        },
{
    bincode::deserialize::<Vec<String>>(bytes)
}

} // verus!
