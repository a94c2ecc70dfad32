//! The encoded value: one double, held as its 64 bits.

use vstd::prelude::*;
use crate::stash::{Arena, Region};

verus! {

/// A value as it crosses the boundary: the bit pattern of one double.
///
/// Every pattern is a legal value, the NaNs included, and two values are
/// the same exactly when their bits are.
#[derive(Clone, Copy, PartialEq, Eq, Structural, Debug)]
pub struct Wasm {
    pub bits: u64,
}

/// The 64 bits whose low word is `low` and whose high word is `high`.
pub open spec fn pair(low: u32, high: u32) -> u64 {
    ((high as u64) << 32) | (low as u64)
}

impl Wasm {
    /// The low 32 bits.
    pub open spec fn low_word(self) -> u32 {
        (self.bits & 0xffff_ffff) as u32
    }

    /// The high 32 bits.
    pub open spec fn high_word(self) -> u32 {
        (self.bits >> 32) as u32
    }

    /// The value with the given bit pattern.
    pub fn from_bits(bits: u64) -> (w: Wasm)
        ensures
            w.bits == bits,
    {
        Wasm { bits }
    }

    /// The value whose low word is `low` and whose high word is `high`.
    pub fn from_words(low: u32, high: u32) -> (w: Wasm)
        ensures
            w.bits == pair(low, high),
            w.low_word() == low,
            w.high_word() == high,
    {
        proof {
            lemma_pair_words(low, high);
        }
        Wasm { bits: ((high as u64) << 32) | (low as u64) }
    }

    /// The bit pattern of the double that is handed to the caller.
    pub fn value(self) -> (bits: u64)
        ensures
            bits == self.bits,
    {
        self.bits
    }

    /// The low 32 bits.
    pub fn low(self) -> (word: u32)
        ensures
            word == self.low_word(),
    {
        (self.bits & 0xffff_ffff) as u32
    }

    /// The high 32 bits.
    pub fn high(self) -> (word: u32)
        ensures
            word == self.high_word(),
    {
        (self.bits >> 32) as u32
    }
}

/// A value whose encoding is complete in itself: the 64 bits say all there
/// is to say, and nothing has to be kept alive for the caller.
pub trait ToWasm {
    /// The encoding of `self`.
    spec fn wasm(&self) -> Wasm;

    fn to_wasm(&self) -> (w: Wasm)
        ensures
            w == self.wasm(),
    ;
}

/// A reference is encoded as what it refers to.
impl<T: ToWasm> ToWasm for &T {
    open spec fn wasm(&self) -> Wasm {
        (**self).wasm()
    }

    fn to_wasm(&self) -> (w: Wasm) {
        (*self).to_wasm()
    }
}

/// A value that can be returned across the boundary. What its encoding
/// points to is handed to the arena.
pub trait IntoWasm: Sized {
    /// Whether encoding `self` may take the arena from `before` to `after`
    /// and give `w`.
    spec fn encodes(self, before: Seq<Region>, after: Seq<Region>, w: Wasm) -> bool;

    fn into_wasm(self, arena: &mut Arena) -> (w: Wasm)
        ensures
            self.encodes(old(arena)@, final(arena)@, w),
    ;
}

/// A value that is complete in itself leaves the arena as it is.
impl<T: ToWasm> IntoWasm for T {
    open spec fn encodes(self, before: Seq<Region>, after: Seq<Region>, w: Wasm) -> bool {
        after == before && w == self.wasm()
    }

    fn into_wasm(self, arena: &mut Arena) -> (w: Wasm) {
        self.to_wasm()
    }
}

/// Both words can be read back from a pair.
pub proof fn lemma_pair_words(low: u32, high: u32)
    ensures
        (Wasm { bits: pair(low, high) }).low_word() == low,
        (Wasm { bits: pair(low, high) }).high_word() == high,
{
    assert(((((high as u64) << 32) | (low as u64)) & 0xffff_ffff) as u32 == low && ((((high as u64)
        << 32) | (low as u64)) >> 32) as u32 == high) by (bit_vector);
}

/// Every 64 bits are the pair of their two words.
pub proof fn lemma_words_pair(w: Wasm)
    ensures
        pair(w.low_word(), w.high_word()) == w.bits,
{
    let bits = w.bits;
    assert(((((bits >> 32) as u32) as u64) << 32) | (((bits & 0xffff_ffff) as u32) as u64) == bits)
        by (bit_vector);
}

} // verus!
