//! The address of a gistit on the web, and the hash in it.

use vstd::prelude::*;
use vstd::string::StringSliceAdditionalSpecFns;
use vstd::utf8::{
    encode_utf8, encode_utf8_decode_utf8, encode_utf8_first_scalar, encode_utf8_valid_utf8,
    is_char_boundary, pop_first_scalar,
};

verus! {

/// What the `url` crate makes of `address`: the path of the absolute URL
/// that it spells, or, where it spells none, the words in which the crate
/// says why.
pub uninterp spec fn url_path(address: Seq<char>) -> Result<Seq<char>, Seq<char>>;

/// `url::Url::parse`, then `Url::path` of the URL that it gave, or the
/// refusal that it gave, in the refusal's own words.
#[verifier::external_body]
pub(crate) fn parse_url_path(address: &str) -> (r: Result<String, String>)
    ensures
        match url_path(address@) {
            Ok(path) => r matches Ok(got) && got@ == path,
            Err(message) => r matches Err(got) && got@ == message,
        },
{
    match url::Url::parse(address) {
        Ok(parsed) => Ok(parsed.path().to_owned()),
        Err(reason) => Err(reason.to_string()),
    }
}

/// What is left of a path once its first byte is taken off, which is the
/// slash that a path begins with; nothing where the path is empty or begins
/// with a character of several bytes.
pub open spec fn after_first_byte(path: Seq<char>) -> Option<Seq<char>> {
    if path.len() > 0 && path[0] as u32 <= 0x7f {
        Some(path.drop_first())
    } else {
        None
    }
}

/// The first byte of a text's UTF-8 form can be taken off only where it is a
/// character of its own, and what is left is then the form of the rest.
proof fn lemma_first_byte(path: Seq<char>)
    ensures
        is_char_boundary(encode_utf8(path), 1) <==> after_first_byte(path) is Some,
        after_first_byte(path) is Some ==> encode_utf8(path).skip(1) == encode_utf8(
            path.drop_first(),
        ),
{
    let bytes = encode_utf8(path);
    encode_utf8_valid_utf8(path);
    reveal_with_fuel(is_char_boundary, 2);
    if path.len() > 0 {
        encode_utf8_first_scalar(path);
        encode_utf8_valid_utf8(path.drop_first());
        assert(pop_first_scalar(bytes) =~= encode_utf8(path.drop_first()));
        if path[0] as u32 <= 0x7f {
            assert(bytes.skip(1) =~= encode_utf8(path.drop_first()));
        }
    }
}

/// The hash that a path holds behind its leading slash.
pub fn hash_in_path(path: &str) -> (hash: Option<String>)
    ensures
        match after_first_byte(path@) {
            Some(tail) => hash is Some && hash.unwrap()@ == tail,
            None => hash is None,
        },
{
    proof {
        lemma_first_byte(path@);
    }
    if path.is_char_boundary(1) {
        let (_, tail) = path.split_at(1);
        proof {
            assert(tail.spec_bytes() =~= path.spec_bytes().skip(1));
            encode_utf8_decode_utf8(tail@);
            encode_utf8_decode_utf8(path@.drop_first());
        }
        Some(tail.to_owned())
    } else {
        None
    }
}

} // verus!
