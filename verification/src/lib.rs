//! Packing and unpacking of 32-bit unsigned integers as fixed-width
//! little-endian byte sequences.
//!
//! The wire format is standard little-endian: byte 0 of a packed value is its
//! least-significant byte, byte 3 its most-significant byte. The supported
//! targets lay a `u32` out in memory the same way, so the native pair
//! ([`pack_native_u32`], [`unpack_native_u32`]) and the little-endian pair
//! ([`pack_le_u32`], [`unpack_le_u32`]) produce the same bytes; the
//! little-endian pair is the platform-independent entry point.

use vstd::prelude::*;

verus! {

/// The little-endian byte sequence of a 32-bit value: four bytes, the
/// least-significant first.
pub open spec fn le_bytes_of(v: u32) -> Seq<u8> {
    seq![
        (v % 0x100) as u8,
        ((v / 0x100) % 0x100) as u8,
        ((v / 0x1_0000) % 0x100) as u8,
        ((v / 0x100_0000) % 0x100) as u8,
    ]
}

/// The 32-bit value that a 4-byte little-endian sequence encodes.
pub open spec fn u32_of_le_bytes(s: Seq<u8>) -> u32
    recommends
        s.len() == 4,
{
    (s[0] + s[1] * 0x100 + s[2] * 0x1_0000 + s[3] * 0x100_0000) as u32
}

/// A fixed sequence of exactly 4 bytes: the in-memory or on-wire layout of a
/// 32-bit value.
#[derive(Clone, Copy, Debug, Eq)]
pub struct U32b(pub [u8; 4]);

impl View for U32b {
    type V = Seq<u8>;

    open spec fn view(&self) -> Seq<u8> {
        self.0@
    }
}

impl PartialEq for U32b {
    fn eq(&self, other: &U32b) -> (r: bool) {
        let r = self.0[0] == other.0[0] && self.0[1] == other.0[1] && self.0[2] == other.0[2]
            && self.0[3] == other.0[3];
        proof {
            if r {
                assert(self.0 =~= other.0);
            }
        }
        r
    }
}

impl vstd::std_specs::cmp::PartialEqSpecImpl for U32b {
    open spec fn obeys_eq_spec() -> bool {
        true
    }

    open spec fn eq_spec(&self, other: &U32b) -> bool {
        self.0 == other.0
    }
}

/// Reinterprets `n` as its 4-byte in-memory layout, least-significant byte
/// first, without reordering.
pub fn pack_native_u32(n: u32) -> (r: U32b)
    ensures
        r@ == le_bytes_of(n),
{
    let r = U32b([
        (n % 0x100) as u8,
        ((n / 0x100) % 0x100) as u8,
        ((n / 0x1_0000) % 0x100) as u8,
        ((n / 0x100_0000) % 0x100) as u8,
    ]);
    proof {
        assert(r@ =~= le_bytes_of(n));
    }
    r
}

/// Reinterprets 4 bytes of in-memory layout as the 32-bit value they hold,
/// least-significant byte first.
pub fn unpack_native_u32(bytes: U32b) -> (r: u32)
    ensures
        r == u32_of_le_bytes(bytes@),
{
    match bytes {
        U32b(b) => {
            b[0] as u32 + b[1] as u32 * 0x100 + b[2] as u32 * 0x1_0000 + b[3] as u32 * 0x100_0000
        },
    }
}

/// Packs `n` into little-endian wire format, whatever the host byte order:
/// byte 0 of the result is the least-significant byte of `n`.
pub fn pack_le_u32(n: u32) -> (r: U32b)
    ensures
        r@ == le_bytes_of(n),
{
    pack_native_u32(n)
}

/// Unpacks 4 bytes of little-endian wire format back into the value they
/// encode. Inverse of [`pack_le_u32`].
pub fn unpack_le_u32(bytes: U32b) -> (r: u32)
    ensures
        r == u32_of_le_bytes(bytes@),
{
    unpack_native_u32(bytes)
}

/// Error of [`U32b::try_from_slice`]: the slice did not hold exactly 4 bytes.
#[derive(Clone, Copy, Debug, PartialEq, Eq, Structural)]
pub struct LengthMismatch {
    /// The length the slice actually had.
    pub actual: usize,
}

impl U32b {
    /// Copies a 4-byte slice into a `U32b`, in order.
    pub fn from(a: &[u8]) -> (r: U32b)
        requires
            a@.len() == 4,
        ensures
            r@ == a@,
    {
        let r = U32b([a[0], a[1], a[2], a[3]]);
        proof {
            assert(r@ =~= a@);
        }
        r
    }

    /// Copies a slice into a `U32b` if it holds exactly 4 bytes, and reports
    /// its length in a [`LengthMismatch`] otherwise.
    pub fn try_from_slice(a: &[u8]) -> (r: Result<U32b, LengthMismatch>)
        ensures
            match r {
                Ok(b) => a@.len() == 4 && b@ == a@,
                Err(e) => a@.len() != 4 && e.actual == a@.len(),
            },
    {
        if a.len() == 4 {
            Ok(U32b::from(a))
        } else {
            Err(LengthMismatch { actual: a.len() })
        }
    }
}

/// Round-trip law: unpacking the 4 bytes that a value packs into yields the
/// value again. [`pack_native_u32`] / [`unpack_native_u32`] and
/// [`pack_le_u32`] / [`unpack_le_u32`] both pack into this layout, so the law
/// covers both pairs.
pub proof fn lemma_pack_unpack_round_trip(v: u32)
    ensures
        u32_of_le_bytes(le_bytes_of(v)) == v,
{
    assert(v % 0x100 + (v / 0x100) % 0x100 * 0x100 + (v / 0x1_0000) % 0x100 * 0x1_0000 + (v
        / 0x100_0000) % 0x100 * 0x100_0000 == v) by (bit_vector);
}

/// Equality law: two `U32b` values are equal exactly when all 4 corresponding
/// bytes are equal.
pub proof fn lemma_eq_iff_bytes_eq(a: U32b, b: U32b)
    ensures
        (a == b) <==> (forall|i: int| 0 <= i < 4 ==> a@[i] == b@[i]),
{
    if forall|i: int| 0 <= i < 4 ==> a@[i] == b@[i] {
        assert forall|i: int| 0 <= i < 4 implies a.0[i] == b.0[i] by {
            assert(a@[i] == b@[i]);
        }
        assert(a.0 =~= b.0);
    }
}

} // verus!
