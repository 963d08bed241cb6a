//! What the library knows of a pseudo-terminal: its geometry, and the name of
//! its subordinate device as the operating system writes it into a buffer.
//! Allocating the device and spawning the child are the caller's part.

use vstd::prelude::*;

verus! {

/// A terminal's geometry, in character cells.
#[derive(Clone, Copy, Debug, PartialEq, Eq, Structural)]
pub struct Size {
    pub col: u16,
    pub row: u16,
}

impl Size {
    pub fn new(col: u16, row: u16) -> (r: Size)
        ensures
            r.col == col,
            r.row == row,
    {
        Size { col, row }
    }

    /// The geometry a new session starts with: 80 columns by 24 rows.
    pub fn initial() -> (r: Size)
        ensures
            r.col == 80,
            r.row == 24,
    {
        Size { col: 80, row: 24 }
    }
}

/// `n` is where the NUL-terminated name in `buf` ends: no byte before it is
/// zero, and it is the first zero byte or the end of the buffer.
pub open spec fn name_end(buf: Seq<u8>, n: int) -> bool {
    &&& 0 <= n <= buf.len()
    &&& forall|i: int| 0 <= i < n ==> buf[i] != 0
    &&& (n == buf.len() || buf[n] == 0)
}

/// The path of the subordinate device from the buffer that the system filled
/// in: the bytes before the first zero byte, or all of them if none is zero.
pub fn device_name(buf: &[u8]) -> (r: Vec<u8>)
    ensures
        name_end(buf@, r@.len() as int),
        r@ == buf@.take(r@.len() as int),
{
    let mut r: Vec<u8> = Vec::new();
    let mut i: usize = 0;
    while i < buf.len() && buf[i] != 0
        invariant
            i <= buf@.len(),
            forall|j: int| 0 <= j < i ==> buf@[j] != 0,
            r@ == buf@.take(i as int),
        decreases buf@.len() - i,
    {
        r.push(buf[i]);
        i = i + 1;
        assert(buf@.take(i as int) =~= buf@.take(i - 1).push(buf@[i - 1]));
    }
    r
}

} // verus!
