//! Joining a directory and a file name into a path, as the standard library
//! joins them on Unix. A path is the bytes that the system takes it in,
//! whether or not they are UTF-8.

use vstd::prelude::*;
use vstd::slice::slice_to_vec;

verus! {

/// The byte that separates the parts of a path.
pub const SEPARATOR: u8 = 0x2f;

/// Whether the name is a path of its own, from the root.
pub open spec fn is_absolute(name: Seq<u8>) -> bool {
    name.len() > 0 && name[0] == SEPARATOR
}

/// Whether a separator has to stand between `base` and a name: it does
/// unless `base` is empty or already ends in one.
pub open spec fn needs_separator(base: Seq<u8>) -> bool {
    base.len() > 0 && base.last() != SEPARATOR
}

/// The path of `name` under the directory `base`: an absolute name stands
/// for itself; any other follows `base`, after one separator where `base`
/// does not bring it.
pub open spec fn joined(base: Seq<u8>, name: Seq<u8>) -> Seq<u8> {
    if is_absolute(name) {
        name
    } else if needs_separator(base) {
        base.push(SEPARATOR) + name
    } else {
        base + name
    }
}

/// The path of `name` under the directory `base`.
pub fn join(base: &[u8], name: &[u8]) -> (path: Vec<u8>)
    ensures
        path@ == joined(base@, name@),
{
    if name.len() > 0 && name[0] == SEPARATOR {
        return slice_to_vec(name);
    }
    let mut path = slice_to_vec(base);
    if base.len() > 0 && base[base.len() - 1] != SEPARATOR {
        path.push(SEPARATOR);
    }
    let mut tail = slice_to_vec(name);
    path.append(&mut tail);
    path
}

} // verus!
