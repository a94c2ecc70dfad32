//! The bit patterns that stand for "no value" and for an error.
//!
//! A type that leaves some 64-bit patterns unused can lend them to an
//! option or a result around it. Such a pattern, a sentinel, carries 32 bits
//! of its own: zero stands for a missing value, anything else is the
//! address of an error text.

use vstd::prelude::*;
use crate::packed::U32Pair;
use crate::typeinfo::{Info, TypeInfo};
use crate::wasm::{lemma_pair_words, lemma_words_pair, pair, ToWasm, Wasm};

verus! {

/// The high 32 bits of a sentinel among the numbers: a NaN that no
/// conversion from a whole number gives.
pub const SIGNALING_NAN: u64 = 0xfff8_0000_0000_0000;

/// The low 32 bits of a sentinel among the pairs of address and length.
pub const MARKER: u32 = 1;

/// Where a type keeps its unused patterns.
#[derive(Clone, Copy, PartialEq, Eq, Structural, Debug)]
pub enum Niche {
    /// The value is a number: a sentinel has the high word of
    /// [`SIGNALING_NAN`] and carries its 32 bits in the low word.
    HighBitsNaN,
    /// The value is a pair of address and length: a sentinel has
    /// [`MARKER`] in the low word, where the address would be, and carries
    /// its 32 bits in the high word.
    LowBitsOne,
}

impl Niche {
    /// The sentinel that carries `x`.
    pub open spec fn sentinel(self, x: u32) -> Wasm {
        match self {
            Niche::HighBitsNaN => Wasm { bits: SIGNALING_NAN | (x as u64) },
            Niche::LowBitsOne => Wasm { bits: pair(MARKER, x) },
        }
    }

    /// What the sentinel `w` carries; `None` where `w` is no sentinel.
    pub open spec fn payload(self, w: Wasm) -> Option<u32> {
        match self {
            Niche::HighBitsNaN => if w.high_word() == 0xfff8_0000u32 {
                Some(w.low_word())
            } else {
                None
            },
            Niche::LowBitsOne => if w.low_word() == MARKER {
                Some(w.high_word())
            } else {
                None
            },
        }
    }

    /// The 32 bits that `w` carries if it is a sentinel: the word that the
    /// niche leaves free.
    pub open spec fn word(self, w: Wasm) -> u32 {
        match self {
            Niche::HighBitsNaN => w.low_word(),
            Niche::LowBitsOne => w.high_word(),
        }
    }

    /// The niche that goes with a descriptor: pairs of address and length
    /// are described as arrays, everything else is a number.
    pub open spec fn of(info: Info) -> Niche {
        if info.is_array {
            Niche::LowBitsOne
        } else {
            Niche::HighBitsNaN
        }
    }

    /// The sentinel that carries `x`.
    pub fn new(self, x: u32) -> (w: Wasm)
        ensures
            w == self.sentinel(x),
    {
        match self {
            Niche::HighBitsNaN => Wasm::from_bits(SIGNALING_NAN | (x as u64)),
            Niche::LowBitsOne => {
                let marked = U32Pair([MARKER, x]);
                assert(marked.0@ =~= seq![MARKER, x]);
                marked.to_wasm()
            },
        }
    }
}

/// A sentinel gives back what it carries.
pub proof fn lemma_sentinel_payload(niche: Niche, x: u32)
    ensures
        niche.payload(niche.sentinel(x)) == Some(x),
{
    match niche {
        Niche::HighBitsNaN => {
            assert((((0xfff8_0000_0000_0000u64 | (x as u64)) >> 32) as u32 == 0xfff8_0000u32) && ((
            (0xfff8_0000_0000_0000u64 | (x as u64)) & 0xffff_ffff) as u32 == x)) by (bit_vector);
        },
        Niche::LowBitsOne => {
            lemma_pair_words(MARKER, x);
        },
    }
}

/// The word that a sentinel carries is the one it was made with.
pub proof fn lemma_sentinel_word(niche: Niche, x: u32)
    ensures
        niche.word(niche.sentinel(x)) == x,
{
    lemma_sentinel_payload(niche, x);
}

/// A sentinel is known by what it carries: nothing else carries the same.
pub proof fn lemma_payload_sentinel(niche: Niche, w: Wasm)
    requires
        niche.payload(w).is_some(),
    ensures
        w == niche.sentinel(niche.payload(w).unwrap()),
{
    let bits = w.bits;
    match niche {
        Niche::HighBitsNaN => {
            assert(0xfff8_0000_0000_0000u64 | (((bits & 0xffff_ffff) as u32) as u64) == bits)
                by (bit_vector)
                requires
                    (bits >> 32) as u32 == 0xfff8_0000u32,
            ;
        },
        Niche::LowBitsOne => {
            lemma_words_pair(w);
        },
    }
}

/// A type with patterns to spare, which an option or a result around it may use.
pub trait HasNiche: TypeInfo {
    /// Where this type keeps its unused patterns.
    spec fn niche_spec() -> Niche;

    fn niche() -> (niche: Niche)
        ensures
            niche == Self::niche_spec(),
    ;

    /// The type is not itself an option or a result, and its niche is the
    /// one that goes with its descriptor.
    proof fn lemma_niche()
        ensures
            Self::info().is_base(),
            Self::niche_spec() == Niche::of(Self::info()),
    ;
}

} // verus!
