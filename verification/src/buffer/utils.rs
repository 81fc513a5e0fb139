//! Allocation helper shared by the sample containers.

use vstd::prelude::*;

use crate::buffer::zeros;

verus! {

/// Create a silent backing store: a vector of `size` zeroed sample slots.
pub fn buffer_with_size(size: usize) -> (r: Vec<u32>)
    ensures
        r@ == zeros(size as nat),
{
    let mut buffer: Vec<u32> = Vec::with_capacity(size);
    let mut i: usize = 0;
    while i < size
        invariant
            i <= size,
            buffer@ == zeros(i as nat),
        decreases size - i,
    {
        buffer.push(0);
        i = i + 1;
        proof {
            assert(buffer@ =~= zeros(i as nat));
        }
    }
    buffer
}

} // verus!
