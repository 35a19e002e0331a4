//! The FNV-1a non-cryptographic hash, built up one byte at a time.

use vstd::prelude::*;

verus! {

/// The initial hash value of FNV-1a.
pub const OFFSET_BASIS: u64 = 0xcbf29ce484222325;

/// The multiplier applied after each byte is folded into the hash.
pub const FNV_PRIME: u64 = 0x100000001b3;

/// One round of FNV-1a: fold `byte` into `state` by xor, then multiply by the
/// prime, keeping the low 64 bits.
pub open spec fn fnv1a_step(state: u64, byte: u8) -> u64 {
    ((((state ^ (byte as u64)) as int) * (FNV_PRIME as int)) % 0x10000000000000000) as u64
}

/// The hash state reached from `state` after folding in every byte of
/// `bytes`, in order.
pub open spec fn fnv1a_seq(state: u64, bytes: Seq<u8>) -> u64
    decreases bytes.len(),
{
    if bytes.len() == 0 {
        state
    } else {
        fnv1a_step(fnv1a_seq(state, bytes.drop_last()), bytes.last())
    }
}

/// The little-endian bytes of a 32-bit value, least significant first.
pub open spec fn u32_le_bytes(x: u32) -> Seq<u8> {
    seq![
        (x % 0x100) as u8,
        ((x / 0x100) % 0x100) as u8,
        ((x / 0x10000) % 0x100) as u8,
        ((x / 0x1000000) % 0x100) as u8,
    ]
}

/// The little-endian bytes of a 64-bit value, least significant first.
pub open spec fn u64_le_bytes(x: u64) -> Seq<u8> {
    seq![
        (x % 0x100) as u8,
        ((x / 0x100) % 0x100) as u8,
        ((x / 0x10000) % 0x100) as u8,
        ((x / 0x1000000) % 0x100) as u8,
        ((x / 0x100000000) % 0x100) as u8,
        ((x / 0x10000000000) % 0x100) as u8,
        ((x / 0x1000000000000) % 0x100) as u8,
        ((x / 0x100000000000000) % 0x100) as u8,
    ]
}

/// The two's-complement bit pattern of a signed 32-bit value.
pub open spec fn i32_bits(x: i32) -> u32 {
    if x >= 0 {
        x as u32
    } else {
        (x as int + 0x100000000) as u32
    }
}

/// The two's-complement bit pattern of a signed 64-bit value.
pub open spec fn i64_bits(x: i64) -> u64 {
    if x >= 0 {
        x as u64
    } else {
        (x as int + 0x10000000000000000) as u64
    }
}

/// Folding one more byte onto a sequence hashes like one more round on the
/// sequence's hash.
pub proof fn lemma_fnv1a_seq_push(state: u64, bytes: Seq<u8>, byte: u8)
    ensures
        fnv1a_seq(state, bytes.push(byte)) == fnv1a_step(fnv1a_seq(state, bytes), byte),
{
    assert(bytes.push(byte).drop_last() =~= bytes);
    assert(bytes.push(byte).last() == byte);
}

/// Hashing bytes in two runs gives the same state as hashing them in one:
/// folding `left + right` into a hash equals folding `left`, then folding
/// `right` into the state so reached. This is what lets a caller feed a
/// record into the hash field by field.
pub proof fn lemma_fnv1a_seq_concat(state: u64, left: Seq<u8>, right: Seq<u8>)
    ensures
        fnv1a_seq(state, left + right) == fnv1a_seq(fnv1a_seq(state, left), right),
    decreases right.len(),
{
    if right.len() == 0 {
        assert(left + right =~= left);
    } else {
        lemma_fnv1a_seq_concat(state, left, right.drop_last());
        assert((left + right).drop_last() =~= left + right.drop_last());
        assert((left + right).last() == right.last());
    }
}

/// FNV-1a is a fast, non-cryptographic hashing algorithm, used here to
/// checksum fixed-layout records.
pub struct FNV1a {
    /// The current hash value.
    state: u64,
}

impl FNV1a {
    /// The current hash value, for use in contracts.
    pub closed spec fn spec_state(&self) -> u64 {
        self.state
    }

    /// Creates a new [`FNV1a`] that is initialized with the offset basis.
    pub fn create_new() -> (r: Self)
        ensures
            r.spec_state() == OFFSET_BASIS,
    {
        Self::create_init(OFFSET_BASIS)
    }

    /// Creates a new [`FNV1a`] instance that is initialized with the given `state`.
    pub fn create_init(state: u64) -> (r: Self)
        ensures
            r.spec_state() == state,
    {
        Self { state }
    }

    /// Returns the current hashing state.
    pub fn state(&self) -> (r: u64)
        ensures
            r == self.spec_state(),
    {
        self.state
    }

    /// Adds the given `byte` to the current hash state. A [u8] is the smallest
    /// unit that can be added to this hash, and acts as the building block for
    /// hashing larger types such as integers and byte slices.
    pub fn iterate(&mut self, byte: &u8)
        ensures
            final(self).spec_state() == fnv1a_step(old(self).spec_state(), *byte),
    {
        self.state = self.state ^ (*byte as u64);
        let wide: u128 = (self.state as u128) * (FNV_PRIME as u128);
        let reduced: u128 = wide % 0x10000000000000000u128;
        self.state = reduced as u64;
    }
}

/// A value that can be folded into an [`FNV1a`] hash as a byte sequence.
pub trait FNV1aIterator {
    /// The bytes this value contributes to the hash, in the order they are
    /// folded in.
    spec fn fnv1a_bytes(&self) -> Seq<u8>;

    /// Appends this value's bytes to the state of `algorithm`.
    fn fnv1a_iterate(&self, algorithm: &mut FNV1a)
        ensures
            final(algorithm).spec_state() == fnv1a_seq(
                old(algorithm).spec_state(),
                self.fnv1a_bytes(),
            ),
    ;
}

impl FNV1aIterator for [u8] {
    /// A byte slice contributes its bytes unchanged.
    open spec fn fnv1a_bytes(&self) -> Seq<u8> {
        self@
    }

    /// Appends all bytes from this slice to the state of `algorithm`.
    fn fnv1a_iterate(&self, algorithm: &mut FNV1a) {
        let ghost initial = algorithm.spec_state();
        let mut i: usize = 0;
        while i < self.len()
            invariant
                i <= self@.len(),
                algorithm.spec_state() == fnv1a_seq(initial, self@.take(i as int)),
            decreases self@.len() - i,
        {
            algorithm.iterate(&self[i]);
            proof {
                assert(self@.take(i as int + 1) =~= self@.take(i as int).push(self@[i as int]));
                lemma_fnv1a_seq_push(initial, self@.take(i as int), self@[i as int]);
            }
            i = i + 1;
        }
        proof {
            assert(self@.take(self@.len() as int) =~= self@);
        }
    }
}

impl FNV1aIterator for u32 {
    /// An unsigned 32-bit value contributes its little-endian bytes.
    open spec fn fnv1a_bytes(&self) -> Seq<u8> {
        u32_le_bytes(*self)
    }

    /// Appends the little-endian bytes of this value to the state of `algorithm`.
    fn fnv1a_iterate(&self, algorithm: &mut FNV1a) {
        let x = *self;
        let mut bytes: Vec<u8> = Vec::new();
        bytes.push((x % 0x100) as u8);
        bytes.push(((x / 0x100) % 0x100) as u8);
        bytes.push(((x / 0x10000) % 0x100) as u8);
        bytes.push(((x / 0x1000000) % 0x100) as u8);
        proof {
            assert(bytes@ =~= u32_le_bytes(x));
        }
        bytes.as_slice().fnv1a_iterate(algorithm);
    }
}

impl FNV1aIterator for u64 {
    /// An unsigned 64-bit value contributes its little-endian bytes.
    open spec fn fnv1a_bytes(&self) -> Seq<u8> {
        u64_le_bytes(*self)
    }

    /// Appends the little-endian bytes of this value to the state of `algorithm`.
    fn fnv1a_iterate(&self, algorithm: &mut FNV1a) {
        let x = *self;
        let mut bytes: Vec<u8> = Vec::new();
        bytes.push((x % 0x100) as u8);
        bytes.push(((x / 0x100) % 0x100) as u8);
        bytes.push(((x / 0x10000) % 0x100) as u8);
        bytes.push(((x / 0x1000000) % 0x100) as u8);
        bytes.push(((x / 0x100000000) % 0x100) as u8);
        bytes.push(((x / 0x10000000000) % 0x100) as u8);
        bytes.push(((x / 0x1000000000000) % 0x100) as u8);
        bytes.push(((x / 0x100000000000000) % 0x100) as u8);
        proof {
            assert(bytes@ =~= u64_le_bytes(x));
        }
        bytes.as_slice().fnv1a_iterate(algorithm);
    }
}

impl FNV1aIterator for i32 {
    /// A signed 32-bit value contributes the little-endian bytes of its
    /// two's-complement bit pattern.
    open spec fn fnv1a_bytes(&self) -> Seq<u8> {
        u32_le_bytes(i32_bits(*self))
    }

    /// Appends the little-endian bytes of this value to the state of `algorithm`.
    fn fnv1a_iterate(&self, algorithm: &mut FNV1a) {
        let x = *self;
        let bits: u32 = if x >= 0 {
            x as u32
        } else {
            ((x as i64) + 0x100000000i64) as u32
        };
        bits.fnv1a_iterate(algorithm);
    }
}

impl FNV1aIterator for i64 {
    /// A signed 64-bit value contributes the little-endian bytes of its
    /// two's-complement bit pattern.
    open spec fn fnv1a_bytes(&self) -> Seq<u8> {
        u64_le_bytes(i64_bits(*self))
    }

    /// Appends the little-endian bytes of this value to the state of `algorithm`.
    fn fnv1a_iterate(&self, algorithm: &mut FNV1a) {
        let x = *self;
        let bits: u64 = if x >= 0 {
            x as u64
        } else {
            ((x as i128) + 0x10000000000000000i128) as u64
        };
        bits.fnv1a_iterate(algorithm);
    }
}

impl FNV1aIterator for bool {
    /// A boolean contributes the bytes of one of two fixed 32-bit constants.
    open spec fn fnv1a_bytes(&self) -> Seq<u8> {
        if *self {
            u32_le_bytes(1231)
        } else {
            u32_le_bytes(1237)
        }
    }

    /// Appends the boolean value to the state of `algorithm`.
    fn fnv1a_iterate(&self, algorithm: &mut FNV1a) {
        // These hard-coded values mirror Java's Boolean.hashCode().
        match *self {
            true => 1231u32.fnv1a_iterate(algorithm),
            false => 1237u32.fnv1a_iterate(algorithm),
        }
    }
}

} // verus!
