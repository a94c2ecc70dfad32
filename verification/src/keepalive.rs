//! Values that stay alive until they are released.
//!
//! A second arena, next to the one that is cleared before every call, keeps
//! what has to live longer: it is cleared only when the caller asks for it.

use vstd::prelude::*;
use std::marker::PhantomData;
use crate::niche::{HasNiche, Niche};
use crate::stash::{Arena, Region};
use crate::typeinfo::{Info, TypeInfo};
use crate::wasm::{IntoWasm, ToWasm, Wasm};

verus! {

/// The encoding of a value that was handed to the long-lived arena.
pub struct KeepAlive<T> {
    wasm: Wasm,
    marker: PhantomData<T>,
}

impl<T: IntoWasm> KeepAlive<T> {
    /// Encodes `x` and hands to `keep` what the encoding points to.
    pub fn new(keep: &mut Arena, x: T) -> (alive: KeepAlive<T>)
        ensures
            x.encodes(old(keep)@, final(keep)@, alive.wasm()),
    {
        let wasm = x.into_wasm(keep);
        KeepAlive { wasm, marker: PhantomData }
    }
}

/// Drops everything that `keep` has kept alive.
pub fn clear_keepalive(keep: &mut Arena)
    ensures
        final(keep)@ == Seq::<Region>::empty(),
{
    keep.clear();
}

impl<T> ToWasm for KeepAlive<T> {
    closed spec fn wasm(&self) -> Wasm {
        self.wasm
    }

    fn to_wasm(&self) -> (w: Wasm) {
        self.wasm
    }
}

impl<T: HasNiche> HasNiche for KeepAlive<T> {
    open spec fn niche_spec() -> Niche {
        T::niche_spec()
    }

    fn niche() -> (niche: Niche) {
        T::niche()
    }

    proof fn lemma_niche() {
        T::lemma_niche();
    }
}

impl<T: TypeInfo> TypeInfo for KeepAlive<T> {
    open spec fn info() -> Info {
        T::info()
    }

    fn type_info() -> (info: Info) {
        T::type_info()
    }
}

} // verus!
