//! The fingerprint hasher: a streaming, order-sensitive 64-bit accumulator.

use vstd::prelude::*;
use vstd::arithmetic::div_mod::lemma_fundamental_div_mod;
use vstd::arithmetic::div_mod::lemma_fundamental_div_mod_converse_mod;

verus! {

/// The odd multiplier of the mixing step: `u64::MAX / PI`, rounded down.
pub const MULTIPLIER: u64 = 587178100656400245;

/// The inverse of the multiplier modulo 2^64.
pub const MULTIPLIER_INVERSE: u64 = 14707208948722364637;

/// `x` rotated to the left by five bits.
pub open spec fn rotate_left_5(x: u64) -> u64 {
    (x << 5) | (x >> 59)
}

/// One mixing step: rotate the state, fold the chunk in, multiply.
pub open spec fn mix(state: u64, chunk: u64) -> u64 {
    (rotate_left_5(state) ^ chunk).wrapping_mul(MULTIPLIER)
}

/// The chunk that a run of at most eight bytes stands for: the first byte is
/// the least significant one, and missing bytes count as zero.
pub open spec fn chunk_of(bytes: Seq<u8>) -> u64
    decreases bytes.len(),
{
    if bytes.len() == 0 {
        0
    } else {
        (bytes[0] as u64) | (chunk_of(bytes.drop_first()) << 8)
    }
}

/// The state after feeding `bytes` to a hasher in state `state`: runs of
/// eight bytes are mixed in one after the other, and what is left at the end
/// (nothing, for an empty input; up to eight bytes otherwise) is one more
/// chunk, padded with zeros.
pub open spec fn absorb(state: u64, bytes: Seq<u8>) -> u64
    decreases bytes.len(),
{
    if bytes.len() <= 8 {
        mix(state, chunk_of(bytes))
    } else {
        absorb(mix(state, chunk_of(bytes.take(8))), bytes.skip(8))
    }
}

/// The digest of `bytes` alone.
pub open spec fn digest(bytes: Seq<u8>) -> u64 {
    absorb(0, bytes)
}

/// An empty input is one chunk of zero.
pub proof fn lemma_absorb_empty(state: u64)
    ensures
        absorb(state, Seq::<u8>::empty()) == mix(state, 0),
{
}

/// An input of at most eight bytes is one chunk.
pub proof fn lemma_absorb_short(state: u64, bytes: Seq<u8>)
    requires
        bytes.len() <= 8,
    ensures
        absorb(state, bytes) == mix(state, chunk_of(bytes)),
{
}

/// A longer input is its first eight bytes as one chunk, then the rest.
pub proof fn lemma_absorb_long(state: u64, bytes: Seq<u8>)
    requires
        bytes.len() > 8,
    ensures
        absorb(state, bytes) == absorb(mix(state, chunk_of(bytes.take(8))), bytes.skip(8)),
{
}

/// Multiplying by the multiplier loses nothing: multiplying by its inverse
/// gives the factor back.
pub proof fn lemma_multiplier_inverts(x: u64)
    ensures
        x.wrapping_mul(MULTIPLIER).wrapping_mul(MULTIPLIER_INVERSE) == x,
{
    let r: int = 0x1_0000_0000_0000_0000;
    let c: int = MULTIPLIER as int;
    let inv: int = MULTIPLIER_INVERSE as int;
    let k: int = 468145000654904354;
    assert(c * inv == 1 + k * r) by (nonlinear_arith)
        requires
            c == 587178100656400245,
            inv == 14707208948722364637,
            k == 468145000654904354,
            r == 0x1_0000_0000_0000_0000,
    ;
    let p: int = x as int * c;
    let q: int = p / r;
    let y: int = p % r;
    lemma_fundamental_div_mod(p, r);
    assert(y * inv == (x * k - q * inv) * r + x) by (nonlinear_arith)
        requires
            p == r * q + y,
            p == x * c,
            c * inv == 1 + k * r,
    ;
    lemma_fundamental_div_mod_converse_mod(y * inv, r, x * k - q * inv, x as int);
    assert(x.wrapping_mul(MULTIPLIER) == y);
}

/// From the same state, different chunks lead to different states.
pub proof fn lemma_mix_chunk_injective(state: u64, a: u64, b: u64)
    requires
        mix(state, a) == mix(state, b),
    ensures
        a == b,
{
    let r = rotate_left_5(state);
    lemma_multiplier_inverts(r ^ a);
    lemma_multiplier_inverts(r ^ b);
    assert(a == b) by (bit_vector)
        requires
            r ^ a == r ^ b,
    ;
}

/// With the same chunk, different states lead to different states.
pub proof fn lemma_mix_state_injective(first: u64, second: u64, chunk: u64)
    requires
        mix(first, chunk) == mix(second, chunk),
    ensures
        first == second,
{
    let r1 = rotate_left_5(first);
    let r2 = rotate_left_5(second);
    lemma_multiplier_inverts(r1 ^ chunk);
    lemma_multiplier_inverts(r2 ^ chunk);
    assert(r1 == r2) by (bit_vector)
        requires
            r1 ^ chunk == r2 ^ chunk,
    ;
    assert(first == second) by (bit_vector)
        requires
            (first << 5) | (first >> 59) == (second << 5) | (second >> 59),
    ;
}

/// What was fed before a byte string is not forgotten: with the same bytes,
/// different states lead to different states.
pub proof fn lemma_absorb_state_injective(first: u64, second: u64, bytes: Seq<u8>)
    requires
        absorb(first, bytes) == absorb(second, bytes),
    ensures
        first == second,
    decreases bytes.len(),
{
    if bytes.len() <= 8 {
        lemma_mix_state_injective(first, second, chunk_of(bytes));
    } else {
        let chunk = chunk_of(bytes.take(8));
        lemma_absorb_state_injective(mix(first, chunk), mix(second, chunk), bytes.skip(8));
        lemma_mix_state_injective(first, second, chunk);
    }
}

/// A single-use hash accumulator over a 64-bit register.
#[derive(Debug)]
pub struct Hasher {
    state: u64,
}

impl View for Hasher {
    type V = u64;

    closed spec fn view(&self) -> u64 {
        self.state
    }
}

impl Default for Hasher {
    /// A fresh hasher, with its register at zero.
    fn default() -> (hasher: Self)
        ensures
            hasher@ == 0,
    {
        Hasher { state: 0 }
    }
}

/// Reads `bytes[start..end]` as one chunk.
fn load_chunk(bytes: &[u8], start: usize, end: usize) -> (chunk: u64)
    requires
        start <= end <= bytes@.len(),
        end - start <= 8,
    ensures
        chunk == chunk_of(bytes@.subrange(start as int, end as int)),
{
    let mut acc: u64 = 0;
    let mut i: usize = end;
    while i > start
        invariant
            start <= i <= end <= bytes@.len(),
            acc == chunk_of(bytes@.subrange(i as int, end as int)),
        decreases i - start,
    {
        i = i - 1;
        acc = (bytes[i] as u64) | (acc << 8);
        proof {
            let tail = bytes@.subrange(i as int, end as int);
            assert(tail.drop_first() =~= bytes@.subrange(i + 1, end as int));
        }
    }
    acc
}

impl Hasher {
    /// A fresh hasher, with its register at zero.
    pub fn new() -> (hasher: Self)
        ensures
            hasher@ == 0,
    {
        Hasher { state: 0 }
    }

    /// Mixes one chunk into the register.
    pub fn write(&mut self, chunk: u64)
        ensures
            final(self)@ == mix(old(self)@, chunk),
    {
        let rotated: u64 = (self.state << 5) | (self.state >> 59);
        self.state = (rotated ^ chunk).wrapping_mul(MULTIPLIER);
    }

    /// Mixes a byte string into the register, eight bytes at a time.
    pub fn write_bytes(&mut self, bytes: &[u8])
        ensures
            final(self)@ == absorb(old(self)@, bytes@),
    {
        let ghost before = self@;
        let n: usize = bytes.len();
        let mut pos: usize = 0;
        proof {
            assert(bytes@.skip(0) =~= bytes@);
        }
        while n - pos > 8
            invariant
                pos <= n,
                n == bytes@.len(),
                absorb(before, bytes@) == absorb(self@, bytes@.skip(pos as int)),
            decreases n - pos,
        {
            let chunk = load_chunk(bytes, pos, pos + 8);
            proof {
                let rest = bytes@.skip(pos as int);
                assert(rest.take(8) =~= bytes@.subrange(pos as int, pos + 8));
                assert(rest.skip(8) =~= bytes@.skip(pos + 8));
            }
            self.write(chunk);
            pos = pos + 8;
        }
        let chunk = load_chunk(bytes, pos, n);
        proof {
            assert(bytes@.skip(pos as int) =~= bytes@.subrange(pos as int, n as int));
        }
        self.write(chunk);
    }

    /// Ends the computation and hands out the register.
    pub fn finalize(self) -> (value: u64)
        ensures
            value == self@,
    {
        self.state
    }

    /// The digest of `bytes` alone.
    pub fn hash_bytes(bytes: &[u8]) -> (value: u64)
        ensures
            value == digest(bytes@),
    {
        let mut hasher = Hasher::new();
        hasher.write_bytes(bytes);
        hasher.finalize()
    }
}

} // verus!
