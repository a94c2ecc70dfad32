//! Addresses.
//!
//! An address is a number of 32 bits and travels as one: as the double of
//! the same value. What lies at the address is the caller's business.

use vstd::prelude::*;
use crate::double::{double_from_u32, double_of_int};
use crate::niche::{HasNiche, Niche};
use crate::typeinfo::{ArrayType, Info, Transform, TypeInfo};
use crate::wasm::{ToWasm, Wasm};

verus! {

/// An address in the memory that the caller can read.
#[derive(Clone, Copy, PartialEq, Eq, Structural, Debug)]
pub struct Pointer(pub u32);

impl ToWasm for Pointer {
    open spec fn wasm(&self) -> Wasm {
        Wasm { bits: double_of_int(self.0 as int) }
    }

    fn to_wasm(&self) -> (w: Wasm) {
        Wasm::from_bits(double_from_u32(self.0))
    }
}

impl HasNiche for Pointer {
    open spec fn niche_spec() -> Niche {
        Niche::HighBitsNaN
    }

    fn niche() -> (niche: Niche) {
        Niche::HighBitsNaN
    }

    proof fn lemma_niche() {
    }
}

impl TypeInfo for Pointer {
    open spec fn info() -> Info {
        Info {
            array_type: ArrayType::Absent,
            transform: Transform::Identity,
            is_array: false,
            is_option: false,
            is_result: false,
        }
    }

    fn type_info() -> (info: Info) {
        Info::new(ArrayType::Absent, false, Transform::Identity)
    }
}

} // verus!
