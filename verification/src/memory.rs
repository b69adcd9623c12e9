//! Pixel memory allocator: a zero-initialized byte region of exact size.

use vstd::prelude::*;

verus! {

/// Acquires a read/write byte region of exactly `size_bytes` bytes,
/// zero-initialized.  Release is automatic when the owner goes out of
/// scope, on every exit path.
pub fn allocate(size_bytes: usize) -> (mem: Vec<u8>)
    ensures
        mem@.len() == size_bytes,
        forall|i: int| 0 <= i < size_bytes ==> mem@[i] == 0u8,
{
    let mut mem: Vec<u8> = Vec::new();
    while mem.len() < size_bytes
        invariant
            mem@.len() <= size_bytes,
            forall|i: int| 0 <= i < mem@.len() ==> mem@[i] == 0u8,
        decreases size_bytes - mem@.len(),
    {
        mem.push(0u8);
    }
    mem
}

} // verus!
