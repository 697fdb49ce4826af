//! Access rights for opening a device node, read from the flags that the
//! device backend passes with its request.
use vstd::prelude::*;

verus! {

/// The access-mode bits of `open(2)` flags.
pub const ACCESS_MASK: i32 = 3;

/// Access-mode value asking to read only.
pub const READ_ONLY: i32 = 0;

/// Access-mode value asking to write only.
pub const WRITE_ONLY: i32 = 1;

/// Access-mode value asking to read and write.
pub const READ_WRITE: i32 = 2;

/// The rights with which a device node is opened.
#[derive(Clone, Copy, Debug, PartialEq, Eq, Structural)]
pub struct Access {
    pub read: bool,
    pub write: bool,
}

/// The access-mode part of the flags.
pub open spec fn access_mode(flags: i32) -> i32 {
    flags & ACCESS_MASK
}

/// The least rights that serve the requested access mode: reading for a
/// read request, writing for a write request, both for a read-write request.
/// Any other mode asks for neither, and the open is then refused.
pub fn access_for_flags(flags: i32) -> (r: Access)
    ensures
        r.read == (access_mode(flags) == READ_ONLY || access_mode(flags) == READ_WRITE),
        r.write == (access_mode(flags) == WRITE_ONLY || access_mode(flags) == READ_WRITE),
{
    let mode = flags & ACCESS_MASK;
    Access {
        read: mode == READ_ONLY || mode == READ_WRITE,
        write: mode == WRITE_ONLY || mode == READ_WRITE,
    }
}

} // verus!
