//! Exact-size reconstruction of fixed-layout values from stored bytes.

use vstd::prelude::*;
use vstd::array::ArrayAdditionalExecFns;
use crate::externalities::Externalities;
use crate::externalities::stored_or_empty;
use crate::scope::ScopedContextSlot;
use crate::scope::storage;

verus! {

/// A fixed-size value with a canonical byte image, reconstructible from
/// exactly that many raw bytes.
///
/// Decoding never invokes a constructor of the value and never reads the
/// value before the byte copy is complete: every implementation builds the
/// result from the bytes alone.  Implementations exist only for types for
/// which every byte pattern of the right length is a valid value (fixed-size
/// byte arrays and plain little-endian integers), which is the caller
/// obligation this trait makes explicit.
pub trait FixedDecode: Sized {
    /// The exact number of bytes a value of this type occupies.
    spec fn size_spec() -> nat;

    /// The canonical byte image of this value; decoding inverts it.
    spec fn as_bytes_spec(&self) -> Seq<u8>;

    /// The exact number of bytes a value of this type occupies.
    fn byte_size() -> (n: usize)
        ensures
            n as nat == Self::size_spec(),
    ;

    /// Rebuild the value whose byte image is `bytes`.
    fn decode(bytes: &[u8]) -> (r: Self)
        requires
            bytes@.len() == Self::size_spec(),
        ensures
            r.as_bytes_spec() == bytes@,
    ;
}

impl<const N: usize> FixedDecode for [u8; N] {
    open spec fn size_spec() -> nat {
        N as nat
    }

    open spec fn as_bytes_spec(&self) -> Seq<u8> {
        self@
    }

    fn byte_size() -> (n: usize) {
        N
    }

    fn decode(bytes: &[u8]) -> (r: Self) {
        let mut a: [u8; N] = vstd::array::array_fill_for_copy_types(0u8);
        let mut i: usize = 0;
        while i < N
            invariant
                bytes@.len() == N,
                0 <= i <= N,
                forall|j: int| 0 <= j < i ==> a@[j] == bytes@[j],
            decreases N - i,
        {
            a[i] = bytes[i];
            i += 1;
        }
        proof {
            assert(a@ =~= bytes@);
        }
        a
    }
}

/// The eight bytes of `x`, least significant first.
pub open spec fn u64_le_bytes(x: u64) -> Seq<u8> {
    seq![
        (x & 0xff) as u8,
        ((x >> 8) & 0xff) as u8,
        ((x >> 16) & 0xff) as u8,
        ((x >> 24) & 0xff) as u8,
        ((x >> 32) & 0xff) as u8,
        ((x >> 40) & 0xff) as u8,
        ((x >> 48) & 0xff) as u8,
        ((x >> 56) & 0xff) as u8,
    ]
}

/// The four bytes of `x`, least significant first.
pub open spec fn u32_le_bytes(x: u32) -> Seq<u8> {
    seq![
        (x & 0xff) as u8,
        ((x >> 8) & 0xff) as u8,
        ((x >> 16) & 0xff) as u8,
        ((x >> 24) & 0xff) as u8,
    ]
}

/// Write `x` out as its eight little-endian bytes.
pub fn u64_to_le_bytes(x: u64) -> (r: [u8; 8])
    ensures
        r@ == u64_le_bytes(x),
{
    let r: [u8; 8] = [
        (x & 0xff) as u8,
        ((x >> 8) & 0xff) as u8,
        ((x >> 16) & 0xff) as u8,
        ((x >> 24) & 0xff) as u8,
        ((x >> 32) & 0xff) as u8,
        ((x >> 40) & 0xff) as u8,
        ((x >> 48) & 0xff) as u8,
        ((x >> 56) & 0xff) as u8,
    ];
    proof {
        assert(r@ =~= u64_le_bytes(x));
    }
    r
}

impl FixedDecode for u64 {
    open spec fn size_spec() -> nat {
        8
    }

    open spec fn as_bytes_spec(&self) -> Seq<u8> {
        u64_le_bytes(*self)
    }

    fn byte_size() -> (n: usize) {
        8
    }

    fn decode(bytes: &[u8]) -> (r: Self) {
        let b0 = bytes[0];
        let b1 = bytes[1];
        let b2 = bytes[2];
        let b3 = bytes[3];
        let b4 = bytes[4];
        let b5 = bytes[5];
        let b6 = bytes[6];
        let b7 = bytes[7];
        let x: u64 = (b0 as u64) | ((b1 as u64) << 8) | ((b2 as u64) << 16) | ((b3 as u64) << 24)
            | ((b4 as u64) << 32) | ((b5 as u64) << 40) | ((b6 as u64) << 48)
            | ((b7 as u64) << 56);
        proof {
            assert((((b0 as u64) | ((b1 as u64) << 8) | ((b2 as u64) << 16) | ((b3 as u64) << 24) | ((b4 as u64) << 32) | ((b5 as u64) << 40) | ((b6 as u64) << 48) | ((b7 as u64) << 56)) & 0xff) as u8 == b0 &&
                ((((b0 as u64) | ((b1 as u64) << 8) | ((b2 as u64) << 16) | ((b3 as u64) << 24) | ((b4 as u64) << 32) | ((b5 as u64) << 40) | ((b6 as u64) << 48) | ((b7 as u64) << 56)) >> 8) & 0xff) as u8 == b1 &&
                ((((b0 as u64) | ((b1 as u64) << 8) | ((b2 as u64) << 16) | ((b3 as u64) << 24) | ((b4 as u64) << 32) | ((b5 as u64) << 40) | ((b6 as u64) << 48) | ((b7 as u64) << 56)) >> 16) & 0xff) as u8 == b2 &&
                ((((b0 as u64) | ((b1 as u64) << 8) | ((b2 as u64) << 16) | ((b3 as u64) << 24) | ((b4 as u64) << 32) | ((b5 as u64) << 40) | ((b6 as u64) << 48) | ((b7 as u64) << 56)) >> 24) & 0xff) as u8 == b3 &&
                ((((b0 as u64) | ((b1 as u64) << 8) | ((b2 as u64) << 16) | ((b3 as u64) << 24) | ((b4 as u64) << 32) | ((b5 as u64) << 40) | ((b6 as u64) << 48) | ((b7 as u64) << 56)) >> 32) & 0xff) as u8 == b4 &&
                ((((b0 as u64) | ((b1 as u64) << 8) | ((b2 as u64) << 16) | ((b3 as u64) << 24) | ((b4 as u64) << 32) | ((b5 as u64) << 40) | ((b6 as u64) << 48) | ((b7 as u64) << 56)) >> 40) & 0xff) as u8 == b5 &&
                ((((b0 as u64) | ((b1 as u64) << 8) | ((b2 as u64) << 16) | ((b3 as u64) << 24) | ((b4 as u64) << 32) | ((b5 as u64) << 40) | ((b6 as u64) << 48) | ((b7 as u64) << 56)) >> 48) & 0xff) as u8 == b6 &&
                ((((b0 as u64) | ((b1 as u64) << 8) | ((b2 as u64) << 16) | ((b3 as u64) << 24) | ((b4 as u64) << 32) | ((b5 as u64) << 40) | ((b6 as u64) << 48) | ((b7 as u64) << 56)) >> 56) & 0xff) as u8 == b7) by (bit_vector);
            assert(u64_le_bytes(x) =~= bytes@);
        }
        x
    }
}

impl FixedDecode for u32 {
    open spec fn size_spec() -> nat {
        4
    }

    open spec fn as_bytes_spec(&self) -> Seq<u8> {
        u32_le_bytes(*self)
    }

    fn byte_size() -> (n: usize) {
        4
    }

    fn decode(bytes: &[u8]) -> (r: Self) {
        let b0 = bytes[0];
        let b1 = bytes[1];
        let b2 = bytes[2];
        let b3 = bytes[3];
        let x: u32 = (b0 as u32) | ((b1 as u32) << 8) | ((b2 as u32) << 16) | ((b3 as u32) << 24);
        proof {
            assert((((b0 as u32) | ((b1 as u32) << 8) | ((b2 as u32) << 16) | ((b3 as u32) << 24)) & 0xff) as u8 == b0 &&
                ((((b0 as u32) | ((b1 as u32) << 8) | ((b2 as u32) << 16) | ((b3 as u32) << 24)) >> 8) & 0xff) as u8 == b1 &&
                ((((b0 as u32) | ((b1 as u32) << 8) | ((b2 as u32) << 16) | ((b3 as u32) << 24)) >> 16) & 0xff) as u8 == b2 &&
                ((((b0 as u32) | ((b1 as u32) << 8) | ((b2 as u32) << 16) | ((b3 as u32) << 24)) >> 24) & 0xff) as u8 == b3) by (bit_vector);
            assert(u32_le_bytes(x) =~= bytes@);
        }
        x
    }
}

/// Read the stored bytes for `key` and rebuild them as a `T` if and only if
/// their length equals the exact byte size of `T`; otherwise return `None`.
///
/// `None` also results when no capability is installed, whatever the size of
/// `T`.
pub fn storage_into<T: FixedDecode, E: Externalities>(
    slot: &ScopedContextSlot<E>,
    key: &[u8],
) -> (r: Option<T>)
    ensures
        !slot.is_active() ==> r is None,
        slot.is_active() && slot.reads_succeed() ==> {
            let stored = stored_or_empty(slot.model(), key@);
            &&& (r is Some <==> stored.len() == T::size_spec())
            &&& (r matches Some(v) ==> v.as_bytes_spec() == stored)
        },
        r matches Some(v) ==> v.as_bytes_spec().len() == T::size_spec(),
{
    if !slot.is_installed() {
        return None;
    }
    let bytes = storage(slot, key);
    if bytes.len() == T::byte_size() {
        Some(T::decode(bytes.as_slice()))
    } else {
        None
    }
}

} // verus!
