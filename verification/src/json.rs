//! JSON texts.
//!
//! A value that was written out as JSON travels as the string that it was
//! written to, and the caller reads it as a string.

use vstd::prelude::*;
use crate::niche::{HasNiche, Niche};
use crate::stash::{Arena, Stash};
use crate::typeinfo::{Info, TypeInfo};
use crate::wasm::{IntoWasm, ToWasm, Wasm};

verus! {

/// A JSON text that the arena keeps.
pub struct Json(Stash<String>);

impl Json {
    /// Hands the JSON text `text` to the arena.
    pub fn new(arena: &mut Arena, text: String) -> (json: Json)
        ensures
            text.encodes(old(arena)@, final(arena)@, json.wasm()),
    {
        Json(Stash::new(arena, text))
    }
}

impl ToWasm for Json {
    closed spec fn wasm(&self) -> Wasm {
        self.0.wasm()
    }

    fn to_wasm(&self) -> (w: Wasm) {
        self.0.to_wasm()
    }
}

impl HasNiche for Json {
    open spec fn niche_spec() -> Niche {
        <String as HasNiche>::niche_spec()
    }

    fn niche() -> (niche: Niche) {
        <String as HasNiche>::niche()
    }

    proof fn lemma_niche() {
    }
}

impl TypeInfo for Json {
    open spec fn info() -> Info {
        <String as TypeInfo>::info()
    }

    fn type_info() -> (info: Info) {
        <String as TypeInfo>::type_info()
    }
}

} // verus!
