//! Optional and fallible values.
//!
//! An option or a result around a type adds no bits. A value that is there
//! travels as itself. A value that is missing, or an error, travels as a
//! sentinel of the niche of the type: one that carries zero for a missing
//! value, one that carries the address of the error text for an error. An
//! option in a result and a result in an option share the one layer of
//! sentinels, so a type is wrapped at most once in each.

use vstd::prelude::*;
use crate::errorstring::{c_string, ErrorString};
use crate::niche::{lemma_sentinel_word, HasNiche, Niche};
use crate::stash::{byte_elems, Arena, Region};
use crate::typeinfo::{ArrayType, Info, TypeInfo};
use crate::wasm::{IntoWasm, Wasm};

verus! {

/// `w` is the sentinel of `niche` for a missing value, and the arena is as before.
pub open spec fn missing(niche: Niche, before: Seq<Region>, after: Seq<Region>, w: Wasm) -> bool {
    after == before && w == niche.sentinel(0)
}

/// `w` is the sentinel of `niche` that carries the address at which the
/// arena has taken the error text `message`.
pub open spec fn failed(
    niche: Niche,
    message: Seq<u8>,
    before: Seq<Region>,
    after: Seq<Region>,
    w: Wasm,
) -> bool {
    let addr = niche.word(w);
    &&& w == niche.sentinel(addr)
    &&& after == before.push(
        Region { addr, kind: ArrayType::U8, elems: byte_elems(c_string(message)) },
    )
}

impl<T: HasNiche + IntoWasm> IntoWasm for Option<T> {
    open spec fn encodes(self, before: Seq<Region>, after: Seq<Region>, w: Wasm) -> bool {
        match self {
            Some(value) => value.encodes(before, after, w),
            None => missing(T::niche_spec(), before, after, w),
        }
    }

    fn into_wasm(self, arena: &mut Arena) -> (w: Wasm) {
        match self {
            Some(value) => value.into_wasm(arena),
            None => T::niche().new(0),
        }
    }
}

impl<T: HasNiche + IntoWasm, E: ErrorString> IntoWasm for Result<Option<T>, E> {
    open spec fn encodes(self, before: Seq<Region>, after: Seq<Region>, w: Wasm) -> bool {
        match self {
            Ok(Some(value)) => value.encodes(before, after, w),
            Ok(None) => missing(T::niche_spec(), before, after, w),
            Err(e) => failed(T::niche_spec(), e.message(), before, after, w),
        }
    }

    fn into_wasm(self, arena: &mut Arena) -> (w: Wasm) {
        match self {
            Ok(Some(value)) => Ok::<T, E>(value).into_wasm(arena),
            Ok(None) => None::<T>.into_wasm(arena),
            Err(e) => Err::<T, E>(e).into_wasm(arena),
        }
    }
}

impl<T: HasNiche + IntoWasm, E: ErrorString> IntoWasm for Result<T, E> {
    open spec fn encodes(self, before: Seq<Region>, after: Seq<Region>, w: Wasm) -> bool {
        match self {
            Ok(value) => value.encodes(before, after, w),
            Err(e) => failed(T::niche_spec(), e.message(), before, after, w),
        }
    }

    fn into_wasm(self, arena: &mut Arena) -> (w: Wasm) {
        match self {
            Ok(value) => value.into_wasm(arena),
            Err(e) => {
                let addr = e.to_u32(arena);
                let w = T::niche().new(addr);
                proof {
                    lemma_sentinel_word(T::niche_spec(), addr);
                }
                w
            },
        }
    }
}

impl<T: HasNiche + IntoWasm, E: ErrorString> IntoWasm for Option<Result<T, E>> {
    open spec fn encodes(self, before: Seq<Region>, after: Seq<Region>, w: Wasm) -> bool {
        match self {
            Some(Ok(value)) => value.encodes(before, after, w),
            Some(Err(e)) => failed(T::niche_spec(), e.message(), before, after, w),
            None => missing(T::niche_spec(), before, after, w),
        }
    }

    fn into_wasm(self, arena: &mut Arena) -> (w: Wasm) {
        match self {
            Some(value) => value.into_wasm(arena),
            None => None::<T>.into_wasm(arena),
        }
    }
}

impl<T: HasNiche> TypeInfo for Option<T> {
    open spec fn info() -> Info {
        Info { is_option: true, ..T::info() }
    }

    fn type_info() -> (info: Info) {
        proof {
            T::lemma_niche();
        }
        T::type_info().option()
    }
}

impl<T: HasNiche, E> TypeInfo for Result<T, E> {
    open spec fn info() -> Info {
        Info { is_result: true, ..T::info() }
    }

    fn type_info() -> (info: Info) {
        proof {
            T::lemma_niche();
        }
        T::type_info().result()
    }
}

impl<T: HasNiche, E> TypeInfo for Result<Option<T>, E> {
    open spec fn info() -> Info {
        Info { is_option: true, is_result: true, ..T::info() }
    }

    fn type_info() -> (info: Info) {
        proof {
            T::lemma_niche();
        }
        <Option<T> as TypeInfo>::type_info().result()
    }
}

impl<T: HasNiche, E> TypeInfo for Option<Result<T, E>> {
    open spec fn info() -> Info {
        Info { is_option: true, is_result: true, ..T::info() }
    }

    fn type_info() -> (info: Info) {
        proof {
            T::lemma_niche();
        }
        <Result<T, E> as TypeInfo>::type_info().option()
    }
}

} // verus!
