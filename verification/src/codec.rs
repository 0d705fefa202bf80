//! Checked codecs for the value types that cross the host/emulated memory
//! boundary.
//!
//! Every supported type has a fixed byte width, a host-order byte image, and
//! a validity predicate on byte strings: decoding accepts exactly the valid
//! strings and is the inverse of encoding. The byte image as it appears in
//! emulated memory is the host image reversed for the types whose
//! [`EndianAware`](crate::endian::EndianAware) policy demands a swap.

use crate::endian::EndianAware;
use vstd::bytes::{
    lemma_auto_spec_u16_to_from_le_bytes, lemma_auto_spec_u32_to_from_le_bytes,
    spec_u16_from_le_bytes, spec_u16_to_le_bytes, spec_u32_from_le_bytes, spec_u32_to_le_bytes,
    u16_from_le_bytes, u16_to_le_bytes, u32_from_le_bytes, u32_to_le_bytes,
};
use vstd::prelude::*;

verus! {

broadcast use vstd::array::group_array_axioms;

/// A value type that can live in emulated game memory: it has a fixed byte
/// width, an exact host-order byte image, and a checked decoder that accepts
/// exactly the byte strings that are the image of some value.
pub trait GameValue: Sized + Copy + EndianAware {
    /// The number of bytes the value occupies in memory.
    spec fn spec_width() -> nat;

    /// The value's host-order byte image (least significant byte first for
    /// multi-byte numeric types).
    spec fn host_bytes(self) -> Seq<u8>;

    /// The host-order byte strings that are the image of some value.
    spec fn valid_bytes(s: Seq<u8>) -> bool;

    /// Every value's image has the type's width and is a valid byte string.
    proof fn lemma_image_valid(self)
        ensures
            self.host_bytes().len() == Self::spec_width(),
            Self::valid_bytes(self.host_bytes()),
    ;

    /// The byte image determines the value.
    proof fn lemma_image_injective(self, other: Self)
        ensures
            self.host_bytes() == other.host_bytes() ==> self == other,
    ;

    /// Executable mirror of [`Self::spec_width`].
    fn width() -> (r: usize)
        ensures
            r as nat == Self::spec_width(),
    ;

    /// Serialize the value to its host-order byte image.
    fn encode(&self) -> (r: Vec<u8>)
        ensures
            r@ == self.host_bytes(),
    ;

    /// Checked decoding from a host-order byte string: returns the value
    /// whose image the bytes are, or `None` when the bit pattern corresponds
    /// to no value of the type.
    fn decode(bytes: &[u8]) -> (r: Option<Self>)
        requires
            bytes@.len() == Self::spec_width(),
        ensures
            r matches Some(v) ==> v.host_bytes() == bytes@,
            r is Some <==> Self::valid_bytes(bytes@),
    ;
}

/// The byte image of a value as it appears in emulated memory: the host
/// image, reversed when the type's endian policy requires a swap.
pub open spec fn emu_bytes<T: GameValue>(v: T) -> Seq<u8> {
    if T::spec_needs_swap() {
        v.host_bytes().reverse()
    } else {
        v.host_bytes()
    }
}

/// Which emulated-memory byte strings decode successfully, given that the
/// byte-order correction is applied before the checked decoder runs.
pub open spec fn emu_valid_bytes<T: GameValue>(s: Seq<u8>) -> bool {
    if T::spec_needs_swap() {
        T::valid_bytes(s.reverse())
    } else {
        T::valid_bytes(s)
    }
}

/// Round-trip law: for any value of a supported type, the emulated-memory
/// image written by `set` is decoded back to the same value by `get`,
/// because the byte-order policy is applied symmetrically on both paths.
pub proof fn lemma_emu_round_trip<T: GameValue>(v: T, w: T)
    ensures
        emu_bytes(v).len() == T::spec_width(),
        emu_valid_bytes::<T>(emu_bytes(v)),
        emu_bytes(w) == emu_bytes(v) ==> w == v,
{
    v.lemma_image_valid();
    w.lemma_image_valid();
    if T::spec_needs_swap() {
        assert(v.host_bytes().reverse().reverse() =~= v.host_bytes());
        assert(w.host_bytes().reverse().reverse() =~= w.host_bytes());
    }
    if emu_bytes(w) == emu_bytes(v) {
        assert(w.host_bytes() == v.host_bytes());
        w.lemma_image_injective(v);
    }
}

/// The big-endian byte image of a 32-bit code: most significant byte first.
pub open spec fn spec_u32_to_be_bytes(x: u32) -> Seq<u8> {
    seq![
        ((x >> 24) & 0xff) as u8,
        ((x >> 16) & 0xff) as u8,
        ((x >> 8) & 0xff) as u8,
        (x & 0xff) as u8,
    ]
}

/// The 32-bit code whose big-endian byte image a four-byte string is.
pub open spec fn spec_u32_from_be_bytes(s: Seq<u8>) -> u32
    recommends
        s.len() == 4,
{
    ((s[0] as u32) << 24 | (s[1] as u32) << 16 | (s[2] as u32) << 8 | (s[3] as u32)) as u32
}

/// Packing big-endian bytes undoes unpacking, and the other way round.
pub proof fn lemma_u32_be_bytes_round_trip(x: u32, s: Seq<u8>)
    ensures
        spec_u32_from_be_bytes(spec_u32_to_be_bytes(x)) == x,
        s.len() == 4 ==> spec_u32_to_be_bytes(spec_u32_from_be_bytes(s)) == s,
{
    assert(((x >> 24) & 0xff) < 256 && ((x >> 16) & 0xff) < 256 && ((x >> 8) & 0xff) < 256 && (x
        & 0xff) < 256) by (bit_vector);
    assert(x == (
        (((x >> 24) & 0xff) << 24) |
        (((x >> 16) & 0xff) << 16) |
        (((x >> 8) & 0xff) << 8) |
        (x & 0xff))) by (bit_vector);
    if s.len() == 4 {
        let y = spec_u32_from_be_bytes(s);
        let s0 = s[0] as u32;
        let s1 = s[1] as u32;
        let s2 = s[2] as u32;
        let s3 = s[3] as u32;
            assert((
            (y == (s0 << 24 | s1 << 16 | s2 << 8 | s3) as u32) &&
            s0 < 256 && s1 < 256 && s2 < 256 && s3 < 256
        ) ==> (
            s0 == ((y >> 24) & 0xff) &&
            s1 == ((y >> 16) & 0xff) &&
            s2 == ((y >> 8) & 0xff) &&
            s3 == (y & 0xff)
        )) by (bit_vector);
        assert(spec_u32_to_be_bytes(y) =~= s);
    }
}

/// Pack four big-endian bytes into the 32-bit code they spell.
pub fn u32_from_be_bytes4(b: &[u8; 4]) -> (r: u32)
    ensures
        r == spec_u32_from_be_bytes(b@),
{
    ((b[0] as u32) << 24) | ((b[1] as u32) << 16) | ((b[2] as u32) << 8) | (b[3] as u32)
}

/// Pack four big-endian bytes from a slice into the 32-bit code they spell.
pub fn u32_from_be_slice(b: &[u8]) -> (r: u32)
    requires
        b@.len() == 4,
    ensures
        r == spec_u32_from_be_bytes(b@),
{
    ((b[0] as u32) << 24) | ((b[1] as u32) << 16) | ((b[2] as u32) << 8) | (b[3] as u32)
}

/// Unpack a 32-bit code into its big-endian byte image.
pub fn u32_to_be_bytes4(x: u32) -> (r: [u8; 4])
    ensures
        r@ == spec_u32_to_be_bytes(x),
{
    proof {
        assert(((x >> 24) & 0xff) < 256 && ((x >> 16) & 0xff) < 256 && ((x >> 8) & 0xff) < 256 && (
        x & 0xff) < 256) by (bit_vector);
    }
    let r: [u8; 4] = [
        ((x >> 24) & 0xff) as u8,
        ((x >> 16) & 0xff) as u8,
        ((x >> 8) & 0xff) as u8,
        (x & 0xff) as u8,
    ];
    assert(r@ =~= spec_u32_to_be_bytes(x));
    r
}

impl GameValue for bool {
    open spec fn spec_width() -> nat {
        1
    }

    open spec fn host_bytes(self) -> Seq<u8> {
        seq![if self { 1u8 } else { 0u8 }]
    }

    open spec fn valid_bytes(s: Seq<u8>) -> bool {
        s.len() == 1 && (s[0] == 0u8 || s[0] == 1u8)
    }

    proof fn lemma_image_valid(self) {
    }

    proof fn lemma_image_injective(self, other: Self) {
        if self.host_bytes() == other.host_bytes() {
            assert(self.host_bytes()[0] == other.host_bytes()[0]);
        }
    }

    fn width() -> usize {
        1
    }

    fn encode(&self) -> (r: Vec<u8>) {
        let mut r: Vec<u8> = Vec::new();
        r.push(if *self { 1 } else { 0 });
        assert(r@ =~= self.host_bytes());
        r
    }

    fn decode(bytes: &[u8]) -> (r: Option<Self>) {
        let b = bytes[0];
        if b == 0 {
            Some(false)
        } else if b == 1 {
            Some(true)
        } else {
            None
        }
    }
}

impl GameValue for u8 {
    open spec fn spec_width() -> nat {
        1
    }

    open spec fn host_bytes(self) -> Seq<u8> {
        seq![self]
    }

    open spec fn valid_bytes(s: Seq<u8>) -> bool {
        s.len() == 1
    }

    proof fn lemma_image_valid(self) {
    }

    proof fn lemma_image_injective(self, other: Self) {
        if self.host_bytes() == other.host_bytes() {
            assert(self.host_bytes()[0] == other.host_bytes()[0]);
        }
    }

    fn width() -> usize {
        1
    }

    fn encode(&self) -> (r: Vec<u8>) {
        let mut r: Vec<u8> = Vec::new();
        r.push(*self);
        assert(r@ =~= self.host_bytes());
        r
    }

    fn decode(bytes: &[u8]) -> (r: Option<Self>) {
        Some(bytes[0])
    }
}

/// The unsigned 16-bit representative of an `i16`, as two's complement.
pub open spec fn i16_repr(v: i16) -> u16 {
    if v >= 0 {
        v as u16
    } else {
        (v + 0x1_0000) as u16
    }
}

/// The inverse of [`i16_repr`].
pub open spec fn i16_unrepr(u: u16) -> i16 {
    if u < 0x8000 {
        u as i16
    } else {
        (u - 0x1_0000) as i16
    }
}

impl GameValue for i16 {
    open spec fn spec_width() -> nat {
        2
    }

    open spec fn host_bytes(self) -> Seq<u8> {
        spec_u16_to_le_bytes(i16_repr(self))
    }

    open spec fn valid_bytes(s: Seq<u8>) -> bool {
        s.len() == 2
    }

    proof fn lemma_image_valid(self) {
        lemma_auto_spec_u16_to_from_le_bytes();
    }

    proof fn lemma_image_injective(self, other: Self) {
        lemma_auto_spec_u16_to_from_le_bytes();
        if self.host_bytes() == other.host_bytes() {
            assert(spec_u16_to_le_bytes(i16_repr(self)).len() == 2);
            assert(spec_u16_to_le_bytes(i16_repr(other)).len() == 2);
            assert(spec_u16_from_le_bytes(spec_u16_to_le_bytes(i16_repr(self))) == i16_repr(self));
            assert(spec_u16_from_le_bytes(spec_u16_to_le_bytes(i16_repr(other))) == i16_repr(
                other,
            ));
            assert(i16_repr(self) == i16_repr(other));
        }
    }

    fn width() -> usize {
        2
    }

    fn encode(&self) -> (r: Vec<u8>) {
        let wide: i32 = *self as i32;
        let repr: u16 = (if wide < 0 {
            wide + 0x1_0000
        } else {
            wide
        }) as u16;
        assert(repr == i16_repr(*self));
        u16_to_le_bytes(repr)
    }

    fn decode(bytes: &[u8]) -> (r: Option<Self>) {
        let repr = u16_from_le_bytes(bytes);
        let wide: i32 = repr as i32;
        let v: i16 = (if wide >= 0x8000 {
            wide - 0x1_0000
        } else {
            wide
        }) as i16;
        proof {
            lemma_auto_spec_u16_to_from_le_bytes();
            assert(v == i16_unrepr(repr));
            assert(i16_repr(v) == repr);
        }
        Some(v)
    }
}

impl GameValue for u32 {
    open spec fn spec_width() -> nat {
        4
    }

    open spec fn host_bytes(self) -> Seq<u8> {
        spec_u32_to_le_bytes(self)
    }

    open spec fn valid_bytes(s: Seq<u8>) -> bool {
        s.len() == 4
    }

    proof fn lemma_image_valid(self) {
        lemma_auto_spec_u32_to_from_le_bytes();
    }

    proof fn lemma_image_injective(self, other: Self) {
        lemma_auto_spec_u32_to_from_le_bytes();
        if self.host_bytes() == other.host_bytes() {
            assert(spec_u32_to_le_bytes(self).len() == 4);
            assert(spec_u32_to_le_bytes(other).len() == 4);
            assert(spec_u32_from_le_bytes(spec_u32_to_le_bytes(self)) == self);
            assert(spec_u32_from_le_bytes(spec_u32_to_le_bytes(other)) == other);
        }
    }

    fn width() -> usize {
        4
    }

    fn encode(&self) -> (r: Vec<u8>) {
        u32_to_le_bytes(*self)
    }

    fn decode(bytes: &[u8]) -> (r: Option<Self>) {
        let v = u32_from_le_bytes(bytes);
        proof {
            lemma_auto_spec_u32_to_from_le_bytes();
        }
        Some(v)
    }
}

impl GameValue for [u8; 4] {
    open spec fn spec_width() -> nat {
        4
    }

    open spec fn host_bytes(self) -> Seq<u8> {
        self@
    }

    open spec fn valid_bytes(s: Seq<u8>) -> bool {
        s.len() == 4
    }

    proof fn lemma_image_valid(self) {
    }

    proof fn lemma_image_injective(self, other: Self) {
        if self.host_bytes() == other.host_bytes() {
            assert(self =~= other);
        }
    }

    fn width() -> usize {
        4
    }

    fn encode(&self) -> (r: Vec<u8>) {
        let mut r: Vec<u8> = Vec::new();
        r.push(self[0]);
        r.push(self[1]);
        r.push(self[2]);
        r.push(self[3]);
        assert(r@ =~= self.host_bytes());
        r
    }

    fn decode(bytes: &[u8]) -> (r: Option<Self>) {
        let v: [u8; 4] = [bytes[0], bytes[1], bytes[2], bytes[3]];
        assert(v.host_bytes() =~= bytes@);
        Some(v)
    }
}

} // verus!
