//! Strings.
//!
//! A string travels as the address and the length of its UTF-8 bytes. An
//! owned string is handed to the arena as it is; of a borrowed one the
//! arena keeps a copy.

use vstd::prelude::*;
use vstd::utf8::encode_utf8;
use crate::niche::{HasNiche, Niche};
use crate::stash::{byte_elems, kept, Arena, Buffer, Region};
use crate::typeinfo::{ArrayType, Info, Transform, TypeInfo};
use crate::wasm::{IntoWasm, Wasm};

verus! {

impl IntoWasm for String {
    open spec fn encodes(self, before: Seq<Region>, after: Seq<Region>, w: Wasm) -> bool {
        kept(before, after, w, ArrayType::U8, byte_elems(encode_utf8(self@)))
    }

    fn into_wasm(self, arena: &mut Arena) -> (w: Wasm) {
        arena.push(Buffer::from_string(self))
    }
}

impl IntoWasm for &str {
    open spec fn encodes(self, before: Seq<Region>, after: Seq<Region>, w: Wasm) -> bool {
        kept(before, after, w, ArrayType::U8, byte_elems(encode_utf8(self@)))
    }

    fn into_wasm(self, arena: &mut Arena) -> (w: Wasm) {
        let mut bytes: Vec<u8> = Vec::new();
        bytes.extend_from_slice(self.as_bytes());
        let buffer = Buffer::U8(bytes);
        assert(buffer.elems() =~= byte_elems(encode_utf8(self@)));
        arena.push(buffer)
    }
}

impl IntoWasm for &String {
    open spec fn encodes(self, before: Seq<Region>, after: Seq<Region>, w: Wasm) -> bool {
        kept(before, after, w, ArrayType::U8, byte_elems(encode_utf8(self@)))
    }

    fn into_wasm(self, arena: &mut Arena) -> (w: Wasm) {
        self.as_str().into_wasm(arena)
    }
}

impl HasNiche for &String {
    open spec fn niche_spec() -> Niche {
        Niche::LowBitsOne
    }

    fn niche() -> (niche: Niche) {
        Niche::LowBitsOne
    }

    proof fn lemma_niche() {
    }
}

impl HasNiche for String {
    open spec fn niche_spec() -> Niche {
        Niche::LowBitsOne
    }

    fn niche() -> (niche: Niche) {
        Niche::LowBitsOne
    }

    proof fn lemma_niche() {
    }
}

impl HasNiche for &str {
    open spec fn niche_spec() -> Niche {
        Niche::LowBitsOne
    }

    fn niche() -> (niche: Niche) {
        Niche::LowBitsOne
    }

    proof fn lemma_niche() {
    }
}

impl TypeInfo for String {
    open spec fn info() -> Info {
        Info {
            array_type: ArrayType::U8,
            transform: Transform::String,
            is_array: true,
            is_option: false,
            is_result: false,
        }
    }

    fn type_info() -> (info: Info) {
        Info::new(ArrayType::U8, true, Transform::String)
    }
}

impl TypeInfo for &str {
    open spec fn info() -> Info {
        Info {
            array_type: ArrayType::U8,
            transform: Transform::String,
            is_array: true,
            is_option: false,
            is_result: false,
        }
    }

    fn type_info() -> (info: Info) {
        Info::new(ArrayType::U8, true, Transform::String)
    }
}

} // verus!
