//! Pointer-path resolution and typed memory access inside the emulator's
//! host process.
//!
//! A [`DataMember`] owns a pointer chain given in the emulated console's
//! address space. Resolution walks the chain: every offset but the last is
//! added to a running emulated address, translated into the host's address
//! space, and replaced by the four-byte pointer read there (stored in the
//! emulated byte order); the last offset is added and translated to give the
//! final host address.
//!
//! What a read or write finds depends on the live process, so each operation
//! also returns ghost witnesses — the pointer values dereferenced, and the
//! raw bytes read or written — and its contract fixes the result exactly in
//! terms of those witnesses.

use super::os;
use super::Error;
use crate::codec::{emu_bytes, GameValue};
use crate::endian::{swap_bytes, EndianAware};
use core::marker::PhantomData;
use vstd::prelude::*;

verus! {

/// The base of the emulated console's address space: a valid in-range
/// emulated address is always at least this.
pub const EMULATED_BASE_ADDRESS: usize = 0x8000_0000;

/// One address translation: an emulated address is mapped to the host
/// address where the emulator keeps it, `host = addr - base + region_base`.
/// Translation fails when the address lies below the emulated base (the
/// chain followed a null or out-of-range pointer) or when the result does
/// not fit the host's address range.
pub open spec fn spec_translate(addr: int, region_base: int) -> Option<int> {
    if addr < EMULATED_BASE_ADDRESS {
        None
    } else if addr - EMULATED_BASE_ADDRESS + region_base > usize::MAX {
        None
    } else {
        Some(addr - EMULATED_BASE_ADDRESS + region_base)
    }
}

/// How far a pointer chain gets when resolved through a given list of
/// pointer values.
pub enum Resolution {
    /// Every hop translated and the chain resolved to this host address.
    Resolved(int),
    /// A translation failed: the chain followed an invalid or null pointer,
    /// or a running address left the machine's range.
    Invalid,
    /// Every given pointer value was consumed, each hop so far translated,
    /// and the next step needs one more dereference.
    NeedsRead,
}

/// Resolve a pointer chain from the running emulated address `start`, given
/// the pointer values `reads` that dereferencing finds along the way: each
/// offset but the last is added to the running address, translated, and
/// replaced by the next pointer value; the last offset is added and
/// translated to give the final host address.
pub open spec fn spec_resolve_from(
    start: int,
    offsets: Seq<usize>,
    reads: Seq<u32>,
    region_base: int,
) -> Resolution
    decreases offsets.len(),
{
    if offsets.len() == 0 {
        Resolution::Invalid
    } else {
        let addr = start + offsets[0];
        if addr > usize::MAX {
            Resolution::Invalid
        } else if offsets.len() == 1 {
            match spec_translate(addr, region_base) {
                Some(a) => Resolution::Resolved(a),
                None => Resolution::Invalid,
            }
        } else {
            match spec_translate(addr, region_base) {
                None => Resolution::Invalid,
                Some(_host) => if reads.len() == 0 {
                    Resolution::NeedsRead
                } else {
                    spec_resolve_from(reads[0] as int, offsets.skip(1), reads.skip(1), region_base)
                },
            }
        }
    }
}

/// [`spec_resolve_from`] for a whole chain, from a zero running address.
pub open spec fn spec_resolve(offsets: Seq<usize>, reads: Seq<u32>, region_base: int) -> Resolution {
    spec_resolve_from(0, offsets, reads, region_base)
}

/// Resolving with the values read so far and no further reads equals
/// resolving the remaining chain from the current running address with no
/// reads: the form each early exit of resolution needs.
proof fn lemma_resolve_snapshot(
    start: int,
    all: Seq<usize>,
    idx: int,
    reads: Seq<u32>,
    region: int,
)
    requires
        0 <= idx < all.len(),
        forall|rs: Seq<u32>| #[trigger] spec_resolve_from(start, all.skip(idx), rs, region)
            == spec_resolve(all, reads + rs, region),
    ensures
        spec_resolve(all, reads, region) == spec_resolve_from(
            start,
            all.skip(idx),
            Seq::empty(),
            region,
        ),
        all.skip(idx).len() == all.len() - idx,
        all.skip(idx)[0] == all[idx],
{
    let e: Seq<u32> = Seq::empty();
    assert(reads + e =~= reads);
    assert(spec_resolve_from(start, all.skip(idx), e, region) == spec_resolve(
        all,
        reads + e,
        region,
    ));
}

/// A read that validates the value's bit pattern before exposing it.
///
/// Besides the value, `checked_read` hands back ghost witnesses of the
/// pointer values it dereferenced and the raw emulated-order bytes it read;
/// its contract fixes the result exactly in terms of them: the typed value
/// comes out if and only if the byte-order-corrected bytes are a legal image,
/// an illegal bit pattern is the invalid-data error, a failed translation is
/// the invalid-pointer error, and only a failed access is ever anything
/// else.
pub trait CheckedMemory<T: GameValue>: Sized {
    /// The pointer chain the handle resolves.
    spec fn chain(&self) -> Seq<usize>;

    /// The host address at which the emulated region begins.
    spec fn region_base(&self) -> usize;

    /// Read the pointed-at value, failing with [`Error::InvalidData`]
    /// rather than exposing an invalid bit pattern.
    fn checked_read(&self) -> (r: (Result<T, Error>, Ghost<(Seq<u32>, Seq<u8>)>))
        ensures
            ({
                let hops = r.1@.0;
                let raw = r.1@.1;
                let status = spec_resolve(self.chain(), hops, self.region_base() as int);
                let host = if T::spec_needs_swap() {
                    raw.reverse()
                } else {
                    raw
                };
                &&& (r.0 matches Ok(v) ==> status is Resolved && raw.len() == T::spec_width()
                    && T::valid_bytes(host) && v.host_bytes() == host)
                &&& (r.0 matches Err(e) ==> (e is InvalidPointer || e is InvalidData || e is Io))
                &&& (r.0 matches Err(e) && e is InvalidData ==> status is Resolved && raw.len()
                    == T::spec_width() && !T::valid_bytes(host))
                &&& (r.0 matches Err(e) && e is InvalidPointer ==> status is Invalid)
                &&& (r.0 matches Err(e) && e is Io ==> status is NeedsRead || status is Resolved)
            }),
    ;
}

/// A handle for reading and writing one typed value in the emulated
/// console's memory, within the emulator's host process.
///
/// Offsets are constructed as if they were in the emulated console's memory
/// space.
pub struct DataMember<T: GameValue> {
    offsets: Vec<usize>,
    process: process_memory::ProcessHandle,
    emulated_region_address: usize,
    element: PhantomData<T>,
}

impl<T: GameValue> DataMember<T> {
    /// The pointer chain this handle resolves.
    pub closed spec fn spec_offsets(self) -> Seq<usize> {
        self.offsets@
    }

    /// The host address at which the emulated region begins.
    pub closed spec fn spec_region_base(self) -> usize {
        self.emulated_region_address
    }

    /// The chain is non-empty: its last element is the final field offset.
    pub open spec fn wf(self) -> bool {
        self.spec_offsets().len() >= 1
    }

    /// A handle over the given pointer chain.
    pub fn new_offset(
        handle: process_memory::ProcessHandle,
        emulated_region_address: usize,
        offsets: Vec<usize>,
    ) -> (r: Self)
        requires
            offsets@.len() >= 1,
        ensures
            r.wf(),
            r.spec_offsets() == offsets@,
            r.spec_region_base() == emulated_region_address,
    {
        DataMember { offsets, process: handle, emulated_region_address, element: PhantomData }
    }

    /// Compute the final host address this handle's chain points at,
    /// dereferencing each intermediate pointer through the emulator's
    /// memory. Besides the address, the hop values actually read are
    /// returned for specification purposes: the result is exactly the
    /// resolution of the chain through those values — the address where it
    /// resolves, the invalid-pointer error where a translation fails (with
    /// no byte read beyond the failed hop), and the access error only where
    /// every witnessed hop translated and the next dereference could not be
    /// read.
    ///
    /// A single-element chain performs no dereference and no read: its
    /// result is the pure translation of its only offset.
    pub fn get_offset(&self) -> (r: (Result<usize, Error>, Ghost<Seq<u32>>))
        ensures
            self.wf() ==> r.1@.len() <= self.spec_offsets().len() - 1,
            ({
                let status = spec_resolve(
                    self.spec_offsets(),
                    r.1@,
                    self.spec_region_base() as int,
                );
                &&& (r.0 matches Ok(a) ==> r.1@.len() == self.spec_offsets().len() - 1 && status
                    == Resolution::Resolved(a as int))
                &&& (r.0 matches Err(e) ==> (e is InvalidPointer || e is Io))
                &&& (r.0 matches Err(e) && e is InvalidPointer ==> status is Invalid)
                &&& (r.0 matches Err(e) && e is Io ==> status is NeedsRead && r.1@.len()
                    < self.spec_offsets().len() - 1)
            }),
            self.spec_offsets().len() == 1 ==> r.0 == (
            match spec_translate(self.spec_offsets()[0] as int, self.spec_region_base() as int) {
                Some(a) => Ok::<usize, Error>(a as usize),
                None => Err::<usize, Error>(Error::InvalidPointer),
            }),
    {
        let ghost all = self.spec_offsets();
        let ghost region = self.spec_region_base() as int;
        let n = self.offsets.len();
        if n == 0 {
            return (Err(Error::InvalidPointer), Ghost(Seq::empty()));
        }
        let mut offset: usize = 0;
        let mut idx: usize = 0;
        let ghost mut reads: Seq<u32> = Seq::empty();
        proof {
            assert forall|rs: Seq<u32>| #[trigger] spec_resolve_from(
                offset as int,
                all.skip(idx as int),
                rs,
                region,
            ) == spec_resolve(all, reads + rs, region) by {
                assert(all.skip(0) =~= all);
                assert(reads + rs =~= rs);
            }
        }
        while idx + 1 < n
            invariant
                n == all.len(),
                1 <= n,
                all == self.spec_offsets(),
                region == self.spec_region_base() as int,
                idx < n,
                reads.len() == idx,
                forall|rs: Seq<u32>| #[trigger] spec_resolve_from(
                    offset as int,
                    all.skip(idx as int),
                    rs,
                    region,
                ) == spec_resolve(all, reads + rs, region),
            decreases n - idx,
        {
            let step = self.offsets[idx];
            let addr = match offset.checked_add(step) {
                Some(a) => a,
                None => {
                    proof {
                        lemma_resolve_snapshot(offset as int, all, idx as int, reads, region);
                    }
                    return (Err(Error::InvalidPointer), Ghost(reads));
                },
            };
            let host = if addr < EMULATED_BASE_ADDRESS {
                proof {
                    lemma_resolve_snapshot(offset as int, all, idx as int, reads, region);
                }
                return (Err(Error::InvalidPointer), Ghost(reads));
            } else {
                let translated = addr - EMULATED_BASE_ADDRESS;
                match translated.checked_add(self.emulated_region_address) {
                    Some(h) => h,
                    None => {
                        proof {
                            lemma_resolve_snapshot(offset as int, all, idx as int, reads, region);
                        }
                        return (Err(Error::InvalidPointer), Ghost(reads));
                    },
                }
            };
            let bytes = match os::read_memory(&self.process, host, 4) {
                Ok(b) => b,
                Err(_) => {
                    proof {
                        lemma_resolve_snapshot(offset as int, all, idx as int, reads, region);
                    }
                    return (Err(Error::Io), Ghost(reads));
                },
            };
            let value = crate::codec::u32_from_be_slice(bytes.as_slice());
            proof {
                let prev = reads;
                let at = idx as int;
                assert forall|rs: Seq<u32>| #[trigger] spec_resolve_from(
                    value as int,
                    all.skip(at + 1),
                    rs,
                    region,
                ) == spec_resolve(all, prev.push(value) + rs, region) by {
                    let ext = seq![value] + rs;
                    assert(spec_resolve_from(offset as int, all.skip(at), ext, region)
                        == spec_resolve(all, prev + ext, region));
                    assert(all.skip(at).skip(1) =~= all.skip(at + 1));
                    assert(ext.skip(1) =~= rs);
                    assert(ext[0] == value);
                    assert(prev + ext =~= prev.push(value) + rs);
                }
                reads = prev.push(value);
            }
            offset = value as usize;
            idx += 1;
        }
        // The final offset: translate without dereferencing.
        let step = self.offsets[idx];
        proof {
            lemma_resolve_snapshot(offset as int, all, idx as int, reads, region);
        }
        let addr = match offset.checked_add(step) {
            Some(a) => a,
            None => {
                return (Err(Error::InvalidPointer), Ghost(reads));
            },
        };
        if addr < EMULATED_BASE_ADDRESS {
            return (Err(Error::InvalidPointer), Ghost(reads));
        }
        let translated = addr - EMULATED_BASE_ADDRESS;
        match translated.checked_add(self.emulated_region_address) {
            Some(h) => (Ok(h), Ghost(reads)),
            None => (Err(Error::InvalidPointer), Ghost(reads)),
        }
    }

    /// Read the value's emulated-memory image and return it in host order:
    /// the raw bytes read, reversed when the type's endian policy demands a
    /// swap. The ghost component witnesses the pointer values dereferenced
    /// and the raw emulated-order bytes.
    fn read_bytes(&self) -> (r: (Result<Vec<u8>, Error>, Ghost<(Seq<u32>, Seq<u8>)>))
        ensures
            ({
                let hops = r.1@.0;
                let raw = r.1@.1;
                let status = spec_resolve(
                    self.spec_offsets(),
                    hops,
                    self.spec_region_base() as int,
                );
                &&& (r.0 matches Ok(b) ==> status is Resolved && raw.len() == T::spec_width()
                    && b@ == (if T::spec_needs_swap() {
                    raw.reverse()
                } else {
                    raw
                }))
                &&& (r.0 matches Err(e) ==> (e is InvalidPointer || e is Io))
                &&& (r.0 matches Err(e) && e is InvalidPointer ==> status is Invalid)
                &&& (r.0 matches Err(e) && e is Io ==> status is NeedsRead || status is Resolved)
            }),
    {
        let (resolved, hops) = self.get_offset();
        let host = match resolved {
            Ok(a) => a,
            Err(e) => {
                return (Err(e), Ghost((hops@, Seq::empty())));
            },
        };
        let raw = match os::read_memory(&self.process, host, T::width()) {
            Ok(b) => b,
            Err(e) => {
                return (Err(e), Ghost((hops@, Seq::empty())));
            },
        };
        let ghost raw_image = raw@;
        if T::needs_swap() {
            let swapped = swap_bytes(&raw);
            (Ok(swapped), Ghost((hops@, raw_image)))
        } else {
            (Ok(raw), Ghost((hops@, raw_image)))
        }
    }

    /// Serialize a value, apply the byte-order policy, and hand the full
    /// emulated-memory image to one OS write at the chain's resolved host
    /// address: either the whole width is written or the operation fails
    /// before any byte is touched. The ghost component witnesses the
    /// pointer values dereferenced and the bytes handed to the write: on
    /// success they are exactly the value's emulated-order image, at the
    /// address the witnessed hops resolve to.
    pub fn write(&self, value: &T) -> (r: (Result<(), Error>, Ghost<(Seq<u32>, Seq<u8>)>))
        ensures
            ({
                let hops = r.1@.0;
                let written = r.1@.1;
                let status = spec_resolve(
                    self.spec_offsets(),
                    hops,
                    self.spec_region_base() as int,
                );
                &&& (r.0 is Ok ==> status is Resolved && written == emu_bytes(*value))
                &&& (r.0 matches Err(e) ==> (e is InvalidPointer || e is Io))
                &&& (r.0 matches Err(e) && e is InvalidPointer ==> status is Invalid)
                &&& (r.0 matches Err(e) && e is Io ==> status is NeedsRead || status is Resolved)
            }),
    {
        let (resolved, hops) = self.get_offset();
        let host = match resolved {
            Ok(a) => a,
            Err(e) => {
                return (Err(e), Ghost((hops@, Seq::empty())));
            },
        };
        let host_image = value.encode();
        let image = if T::needs_swap() {
            swap_bytes(&host_image)
        } else {
            host_image
        };
        match os::write_memory(&self.process, host, image.as_slice()) {
            Ok(u) => (Ok(u), Ghost((hops@, image@))),
            Err(e) => (Err(e), Ghost((hops@, image@))),
        }
    }
}

impl<T: GameValue> CheckedMemory<T> for DataMember<T> {
    closed spec fn chain(&self) -> Seq<usize> {
        self.offsets@
    }

    closed spec fn region_base(&self) -> usize {
        self.emulated_region_address
    }

    /// Resolve, read, correct the byte order, and run the checked decoder:
    /// the typed value comes out only when its bit pattern is legal.
    fn checked_read(&self) -> (r: (Result<T, Error>, Ghost<(Seq<u32>, Seq<u8>)>)) {
        let (read, witness) = self.read_bytes();
        let bytes = match read {
            Ok(b) => b,
            Err(e) => {
                return (Err(e), witness);
            },
        };
        match T::decode(bytes.as_slice()) {
            Some(v) => (Ok(v), witness),
            None => (Err(Error::InvalidData), witness),
        }
    }
}

} // verus!
