//! Typed arrays.
//!
//! An array of numbers travels as the address and the number of its
//! elements. The arena takes an owned array over as it is, and the elements
//! stay where they are; of a borrowed array it keeps a copy.

use vstd::prelude::*;
use vstd::slice::slice_to_vec;
use crate::niche::{HasNiche, Niche};
use crate::number::{elems_of, Number};
use crate::stash::{kept, Arena, Region};
use crate::typeinfo::{Info, Transform, TypeInfo};
use crate::wasm::{IntoWasm, Wasm};

verus! {

impl<T: Number> IntoWasm for Vec<T> {
    open spec fn encodes(self, before: Seq<Region>, after: Seq<Region>, w: Wasm) -> bool {
        kept(before, after, w, T::info().array_type, elems_of(self@))
    }

    fn into_wasm(self, arena: &mut Arena) -> (w: Wasm) {
        let buffer = T::buffer(self);
        assert(buffer.elems() =~= elems_of(self@));
        arena.push(buffer)
    }
}

impl<T: Number> IntoWasm for Box<[T]> {
    open spec fn encodes(self, before: Seq<Region>, after: Seq<Region>, w: Wasm) -> bool {
        kept(before, after, w, T::info().array_type, elems_of(self@))
    }

    fn into_wasm(self, arena: &mut Arena) -> (w: Wasm) {
        self.into_vec().into_wasm(arena)
    }
}

impl<T: Number> IntoWasm for &[T] {
    open spec fn encodes(self, before: Seq<Region>, after: Seq<Region>, w: Wasm) -> bool {
        kept(before, after, w, T::info().array_type, elems_of(self@))
    }

    fn into_wasm(self, arena: &mut Arena) -> (w: Wasm) {
        slice_to_vec(self).into_wasm(arena)
    }
}

impl<T: Number> IntoWasm for &Vec<T> {
    open spec fn encodes(self, before: Seq<Region>, after: Seq<Region>, w: Wasm) -> bool {
        kept(before, after, w, T::info().array_type, elems_of(self@))
    }

    fn into_wasm(self, arena: &mut Arena) -> (w: Wasm) {
        slice_to_vec(self.as_slice()).into_wasm(arena)
    }
}

impl<T: Number> HasNiche for Vec<T> {
    open spec fn niche_spec() -> Niche {
        Niche::LowBitsOne
    }

    fn niche() -> (niche: Niche) {
        Niche::LowBitsOne
    }

    proof fn lemma_niche() {
        T::lemma_number();
    }
}

impl<T: Number> HasNiche for Box<[T]> {
    open spec fn niche_spec() -> Niche {
        Niche::LowBitsOne
    }

    fn niche() -> (niche: Niche) {
        Niche::LowBitsOne
    }

    proof fn lemma_niche() {
        T::lemma_number();
    }
}

impl<T: Number> HasNiche for &[T] {
    open spec fn niche_spec() -> Niche {
        Niche::LowBitsOne
    }

    fn niche() -> (niche: Niche) {
        Niche::LowBitsOne
    }

    proof fn lemma_niche() {
        T::lemma_number();
    }
}

impl<T: Number> HasNiche for &Vec<T> {
    open spec fn niche_spec() -> Niche {
        Niche::LowBitsOne
    }

    fn niche() -> (niche: Niche) {
        Niche::LowBitsOne
    }

    proof fn lemma_niche() {
        T::lemma_number();
    }
}

impl<T: Number> TypeInfo for Vec<T> {
    open spec fn info() -> Info {
        Info { is_array: true, transform: Transform::Identity, ..T::info() }
    }

    fn type_info() -> (info: Info) {
        proof {
            T::lemma_number();
        }
        T::type_info().array().identity_transform()
    }
}

impl<T: Number> TypeInfo for Box<[T]> {
    open spec fn info() -> Info {
        Info { is_array: true, transform: Transform::Identity, ..T::info() }
    }

    fn type_info() -> (info: Info) {
        proof {
            T::lemma_number();
        }
        T::type_info().array().identity_transform()
    }
}

impl<T: Number> TypeInfo for &[T] {
    open spec fn info() -> Info {
        Info { is_array: true, transform: Transform::Identity, ..T::info() }
    }

    fn type_info() -> (info: Info) {
        proof {
            T::lemma_number();
        }
        T::type_info().array().identity_transform()
    }
}

} // verus!
