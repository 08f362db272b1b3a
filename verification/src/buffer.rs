//! Zeroed buffers for outside calls to write into.

use vstd::prelude::*;

verus! {

/// A buffer of `size` zero bytes.
pub fn zeroed(size: usize) -> (r: Vec<u8>)
    ensures
        r@ == Seq::new(size as nat, |_i: int| 0u8),
{
    let mut buffer: Vec<u8> = Vec::new();
    while buffer.len() < size
        invariant
            buffer.len() <= size,
            buffer@ == Seq::new(buffer.len() as nat, |_i: int| 0u8),
        decreases size - buffer.len(),
    {
        buffer.push(0u8);
        assert(buffer@ =~= Seq::new(buffer.len() as nat, |_i: int| 0u8));
    }
    buffer
}

} // verus!
