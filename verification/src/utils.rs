//! Small helpers shared by the packet and dispatch layers: little-endian
//! 64-bit framing (used for opcode prefixes and length fields), a stable
//! identifier hash for dispatch tables, and a settable slot for the
//! swappable inbound callback.

use vstd::prelude::*;
use vstd::string::StrSliceExecFns;
use vstd::string::StringSliceAdditionalSpecFns;

verus! {

// ---------------------------------------------------------------------
// Little-endian 64-bit integers
// ---------------------------------------------------------------------

/// The eight bytes of `n` in little-endian order.
pub open spec fn u64_le_bytes(n: u64) -> Seq<u8> {
    seq![
        (n & 0xff) as u8,
        ((n >> 8) & 0xff) as u8,
        ((n >> 16) & 0xff) as u8,
        ((n >> 24) & 0xff) as u8,
        ((n >> 32) & 0xff) as u8,
        ((n >> 40) & 0xff) as u8,
        ((n >> 48) & 0xff) as u8,
        ((n >> 56) & 0xff) as u8,
    ]
}

/// The value read from eight little-endian bytes.
pub open spec fn u64_from_le_bytes(b: Seq<u8>) -> u64
    recommends
        b.len() == 8,
{
    (b[0] as u64) | ((b[1] as u64) << 8) | ((b[2] as u64) << 16) | ((b[3] as u64) << 24)
        | ((b[4] as u64) << 32) | ((b[5] as u64) << 40) | ((b[6] as u64) << 48) | (
    (b[7] as u64) << 56)
}

/// Writing a value as little-endian bytes and reading it back yields the
/// value itself; hence the encoding is injective.
pub proof fn lemma_u64_le_round_trip(n: u64)
    ensures
        u64_from_le_bytes(u64_le_bytes(n)) == n,
{
    let b = u64_le_bytes(n);
    assert(b[0] == (n & 0xff) as u8);
    assert(b[1] == ((n >> 8) & 0xff) as u8);
    assert(b[2] == ((n >> 16) & 0xff) as u8);
    assert(b[3] == ((n >> 24) & 0xff) as u8);
    assert(b[4] == ((n >> 32) & 0xff) as u8);
    assert(b[5] == ((n >> 40) & 0xff) as u8);
    assert(b[6] == ((n >> 48) & 0xff) as u8);
    assert(b[7] == ((n >> 56) & 0xff) as u8);
    assert((((n & 0xff) as u8) as u64) | ((((n >> 8) & 0xff) as u8 as u64) << 8) | ((((n >> 16)
        & 0xff) as u8 as u64) << 16) | ((((n >> 24) & 0xff) as u8 as u64) << 24) | ((((n >> 32)
        & 0xff) as u8 as u64) << 32) | ((((n >> 40) & 0xff) as u8 as u64) << 40) | ((((n >> 48)
        & 0xff) as u8 as u64) << 48) | ((((n >> 56) & 0xff) as u8 as u64) << 56) == n)
        by (bit_vector);
}

/// Appends the eight little-endian bytes of `n` to `out`.
pub fn push_u64_le(out: &mut Vec<u8>, n: u64)
    ensures
        final(out)@ == old(out)@ + u64_le_bytes(n),
{
    proof {
        assert((n & 0xff) < 256 && ((n >> 8) & 0xff) < 256 && ((n >> 16) & 0xff) < 256 && ((n
            >> 24) & 0xff) < 256 && ((n >> 32) & 0xff) < 256 && ((n >> 40) & 0xff) < 256 && ((n
            >> 48) & 0xff) < 256 && ((n >> 56) & 0xff) < 256) by (bit_vector);
    }
    out.push((n & 0xff) as u8);
    out.push(((n >> 8) & 0xff) as u8);
    out.push(((n >> 16) & 0xff) as u8);
    out.push(((n >> 24) & 0xff) as u8);
    out.push(((n >> 32) & 0xff) as u8);
    out.push(((n >> 40) & 0xff) as u8);
    out.push(((n >> 48) & 0xff) as u8);
    out.push(((n >> 56) & 0xff) as u8);
    proof {
        assert(out@ =~= old(out)@ + u64_le_bytes(n));
    }
}

/// Reads the little-endian `u64` stored at `b[off..off + 8]`.
pub fn read_u64_le(b: &Vec<u8>, off: usize) -> (r: u64)
    requires
        off + 8 <= b@.len(),
    ensures
        r == u64_from_le_bytes(b@.subrange(off as int, off as int + 8)),
{
    let len = b.len();
    assert(off + 8 <= len);
    let r: u64 = (b[off] as u64) | ((b[off + 1] as u64) << 8) | ((b[off + 2] as u64) << 16) | ((b[
        off + 3] as u64) << 24) | ((b[off + 4] as u64) << 32) | ((b[off + 5] as u64) << 40) | ((b[
        off + 6] as u64) << 48) | ((b[off + 7] as u64) << 56);
    proof {
        let s = b@.subrange(off as int, off as int + 8);
        assert(s[0] == b@[off as int] && s[1] == b@[off as int + 1] && s[2] == b@[off as int + 2]
            && s[3] == b@[off as int + 3] && s[4] == b@[off as int + 4] && s[5] == b@[off as int
            + 5] && s[6] == b@[off as int + 6] && s[7] == b@[off as int + 7]);
    }
    r
}

/// Returns `vec` with the eight little-endian bytes of `num` prepended;
/// used to stamp a dispatch opcode in front of a serialized argument list.
pub fn prepend_u64(num: u64, vec: Vec<u8>) -> (r: Vec<u8>)
    ensures
        r@ == u64_le_bytes(num) + vec@,
{
    let mut out: Vec<u8> = Vec::new();
    push_u64_le(&mut out, num);
    let mut rest = vec;
    out.append(&mut rest);
    out
}

/// Splits a buffer into the `u64` stored little-endian in its first eight
/// bytes and the remaining payload; the inverse of [`prepend_u64`].
pub fn extract_u64_head(vec: Vec<u8>) -> (r: (u64, Vec<u8>))
    requires
        vec@.len() >= 8,
    ensures
        r.0 == u64_from_le_bytes(vec@.subrange(0, 8)),
        r.1@ == vec@.skip(8),
{
    let num = read_u64_le(&vec, 0);
    let ghost orig: Seq<u8> = vec@;
    let mut head = vec;
    let tail = head.split_off(8);
    proof {
        assert(tail@ =~= orig.skip(8));
    }
    (num, tail)
}

/// Prepending an opcode and then splitting it off returns both the opcode
/// and the payload unchanged.
pub proof fn lemma_prepend_extract_round_trip(num: u64, payload: Seq<u8>)
    ensures
        (u64_le_bytes(num) + payload).skip(8) =~= payload,
        u64_from_le_bytes((u64_le_bytes(num) + payload).subrange(0, 8)) == num,
{
    assert((u64_le_bytes(num) + payload).subrange(0, 8) =~= u64_le_bytes(num));
    lemma_u64_le_round_trip(num);
}

/// The two bytes of `n` in little-endian order.
pub open spec fn u16_le_bytes(n: u16) -> Seq<u8> {
    seq![(n & 0xff) as u8, ((n >> 8) & 0xff) as u8]
}

/// The value read from two little-endian bytes.
pub open spec fn u16_from_le_bytes(b: Seq<u8>) -> u16
    recommends
        b.len() == 2,
{
    (b[0] as u16) | ((b[1] as u16) << 8)
}

/// Two little-endian bytes of a `u16` read back as the value itself.
pub proof fn lemma_u16_le_round_trip(n: u16)
    ensures
        u16_from_le_bytes(u16_le_bytes(n)) == n,
{
    let b = u16_le_bytes(n);
    assert(b[0] == (n & 0xff) as u8);
    assert(b[1] == ((n >> 8) & 0xff) as u8);
    assert((((n & 0xff) as u8) as u16) | ((((n >> 8) & 0xff) as u8 as u16) << 8) == n)
        by (bit_vector);
}

// ---------------------------------------------------------------------
// Identifier hashing (FNV-1a, 64-bit)
// ---------------------------------------------------------------------

pub const FNV_OFFSET_BASIS_64: u64 = 0xcbf2_9ce4_8422_2325;

pub const FNV_PRIME_64: u64 = 0x0000_0100_0000_01b3;

/// One FNV-1a round: xor the byte in, multiply by the prime modulo `2^64`.
pub open spec fn fnv1a64_step(h: u64, byte: u8) -> u64 {
    (((h ^ (byte as u64)) as u128) * (FNV_PRIME_64 as u128)) as u64
}

/// The FNV-1a hash of a byte sequence, folded left to right.
pub open spec fn fnv1a64(bytes: Seq<u8>) -> u64
    decreases bytes.len(),
{
    if bytes.len() == 0 {
        FNV_OFFSET_BASIS_64
    } else {
        fnv1a64_step(fnv1a64(bytes.drop_last()), bytes.last())
    }
}

/// A stable hash of a method identifier, used as the dispatch opcode that
/// [`prepend_u64`] stamps onto outgoing call frames. Both ends of a
/// connection compute it from the method name alone, so it must not depend
/// on process, machine or library version; FNV-1a over the identifier's
/// UTF-8 bytes is fixed by this specification.
pub fn hash_ident_fn(id: &str) -> (r: usize)
    ensures
        r == fnv1a64(id.spec_bytes()) as usize,
{
    let bytes: Vec<u8> = id.as_bytes_vec();
    let n = bytes.len();
    let mut h: u64 = FNV_OFFSET_BASIS_64;
    assert(bytes@.subrange(0, 0) =~= Seq::<u8>::empty());
    for i in 0..n
        invariant
            n == bytes@.len(),
            bytes@ == id.spec_bytes(),
            h == fnv1a64(bytes@.subrange(0, i as int)),
    {
        let x: u128 = ((h ^ (bytes[i] as u64)) as u128) * (FNV_PRIME_64 as u128);
        h = #[verifier::truncate] (x as u64);
        proof {
            let pre = bytes@.subrange(0, i + 1);
            assert(pre.drop_last() =~= bytes@.subrange(0, i as int));
            assert(pre.last() == bytes@[i as int]);
        }
    }
    proof {
        assert(bytes@.subrange(0, n as int) =~= bytes@);
    }
    #[verifier::truncate] (h as usize)
}

/// A fresh copy of a byte buffer.
pub fn clone_bytes(v: &Vec<u8>) -> (r: Vec<u8>)
    ensures
        r@ == v@,
{
    let n = v.len();
    let mut out: Vec<u8> = Vec::new();
    for i in 0..n
        invariant
            n == v@.len(),
            out@ =~= v@.subrange(0, i as int),
    {
        out.push(v[i]);
    }
    proof {
        assert(v@.subrange(0, n as int) =~= v@);
    }
    out
}

// ---------------------------------------------------------------------
// A settable slot
// ---------------------------------------------------------------------

/// A slot holding one swappable value, such as the inbound-packet callback
/// that can be installed or replaced after an endpoint has started. The
/// unverified shell that shares it across threads guards it with a lock;
/// the slot itself is just the current value.
pub struct Mutexed<T> {
    pub value: T,
}

impl<T> Mutexed<T> {
    pub fn new(t: T) -> (r: Mutexed<T>)
        ensures
            r.value == t,
    {
        Mutexed { value: t }
    }

    /// Replaces the held value.
    pub fn set(&mut self, t: T)
        ensures
            final(self).value == t,
    {
        self.value = t;
    }

    /// Reads the held value.
    pub fn get(&self) -> (r: &T)
        ensures
            *r == self.value,
    {
        &self.value
    }
}

} // verus!
