//! Helpers of the OpenGL wrappers that do not touch OpenGL.

use vstd::prelude::*;

verus! {

/// A buffer of `len` spaces, with room for one more byte (the terminating
/// NUL that a C string adds). OpenGL writes shader and program logs into
/// such a buffer.
pub fn whitespace_buffer_with_len(len: usize) -> (buffer: Vec<u8>)
    requires
        len < usize::MAX,
    ensures
        buffer@.len() == len,
        forall|i: int| 0 <= i < len ==> #[trigger] buffer@[i] == 0x20u8,
{
    let mut buffer: Vec<u8> = Vec::with_capacity(len + 1);
    let mut i: usize = 0;
    while i < len
        invariant
            i <= len,
            buffer@.len() == i,
            forall|j: int| 0 <= j < i ==> #[trigger] buffer@[j] == 0x20u8,
        decreases len - i,
    {
        buffer.push(0x20u8);
        i = i + 1;
    }
    buffer
}

} // verus!
