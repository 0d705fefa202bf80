//! Byte-order policy: which value types must have their bytes reversed when
//! they cross the boundary between host memory and the emulated console's
//! memory (the emulated console is big-endian; the codecs in this crate
//! produce host-order byte strings, least significant byte first).

use vstd::prelude::*;

verus! {

/// Per-type knowledge of whether a value's raw bytes must be byte-swapped
/// when moving between host and emulated memory.
pub trait EndianAware {
    /// Whether this type's bytes must be reversed when crossing the
    /// host/emulated boundary.
    spec fn spec_needs_swap() -> bool;

    /// Executable mirror of [`Self::spec_needs_swap`].
    fn needs_swap() -> (r: bool)
        ensures
            r == Self::spec_needs_swap(),
    ;
}

impl EndianAware for bool {
    open spec fn spec_needs_swap() -> bool {
        false
    }

    fn needs_swap() -> bool {
        false
    }
}

impl EndianAware for u8 {
    open spec fn spec_needs_swap() -> bool {
        false
    }

    fn needs_swap() -> bool {
        false
    }
}

impl EndianAware for i16 {
    open spec fn spec_needs_swap() -> bool {
        true
    }

    fn needs_swap() -> bool {
        true
    }
}

impl EndianAware for u32 {
    open spec fn spec_needs_swap() -> bool {
        true
    }

    fn needs_swap() -> bool {
        true
    }
}

/// The bytes of `v` in reverse order: the byte-order correction applied
/// when a multi-byte value crosses the host/emulated boundary.
pub fn swap_bytes(v: &Vec<u8>) -> (r: Vec<u8>)
    ensures
        r@ == v@.reverse(),
{
    let mut r: Vec<u8> = Vec::new();
    let mut i = v.len();
    while i > 0
        invariant
            i <= v@.len(),
            r@.len() == v@.len() - i,
            forall|j: int| 0 <= j < r@.len() ==> r@[j] == v@[v@.len() - 1 - j],
        decreases i,
    {
        i -= 1;
        r.push(v[i]);
    }
    proof {
        assert(r@ =~= v@.reverse());
    }
    r
}

impl EndianAware for [u8; 4] {
    open spec fn spec_needs_swap() -> bool {
        false
    }

    fn needs_swap() -> bool {
        false
    }
}

} // verus!
