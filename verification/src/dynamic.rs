//! Values that carry their own descriptor.
//!
//! A [`Dynamic`] is the encoding of a value together with the encoding of
//! its descriptor, so that values of different types can stand side by side
//! in one array. An array of them travels as the address and the length of
//! a run of doubles, two for each element: its value, then its descriptor.
//! An object is an array in which keys and values take turns.

use vstd::prelude::*;
use vstd::utf8::encode_utf8;
use crate::niche::{HasNiche, Niche};
use crate::stash::{byte_elems, kept, Arena, Buffer, Region, Stash};
use crate::typeinfo::{ArrayType, Info, Transform, TypeInfo};
use crate::wasm::{IntoWasm, ToWasm, Wasm};

verus! {

/// The encoding of a value and the encoding of its descriptor.
#[derive(Clone, Copy)]
pub struct Dynamic {
    value: Wasm,
    type_info: Wasm,
}

/// The doubles of an array of dynamic values: for each element its value,
/// then its descriptor.
pub open spec fn words(items: Seq<Dynamic>) -> Seq<int> {
    Seq::new(
        2 * items.len(),
        |i: int|
            if i % 2 == 0 {
                items[i / 2].value_spec().bits as int
            } else {
                items[i / 2].type_info_spec().bits as int
            },
    )
}

/// The dynamic value that stands at `index` in a run of doubles.
pub open spec fn item_at(elems: Seq<int>, index: int) -> (Wasm, Wasm) {
    (Wasm { bits: elems[2 * index] as u64 }, Wasm { bits: elems[2 * index + 1] as u64 })
}

/// Every element of an array of dynamic values can be read back from its
/// doubles, at its own place.
pub proof fn lemma_words_item(items: Seq<Dynamic>, index: int)
    requires
        0 <= index < items.len(),
    ensures
        words(items).len() == 2 * items.len(),
        item_at(words(items), index) == (
            items[index].value_spec(),
            items[index].type_info_spec(),
        ),
{
    let elems = words(items);
    assert((2 * index) % 2 == 0 && (2 * index) / 2 == index);
    assert((2 * index + 1) % 2 == 1 && (2 * index + 1) / 2 == index);
}

impl Dynamic {
    /// The encoding of the value.
    pub closed spec fn value_spec(self) -> Wasm {
        self.value
    }

    /// The encoding of the descriptor of the value.
    pub closed spec fn type_info_spec(self) -> Wasm {
        self.type_info
    }

    /// The encoding of the value.
    pub fn value(&self) -> (w: Wasm)
        ensures
            w == self.value_spec(),
    {
        self.value
    }

    /// The encoding of the descriptor of the value.
    pub fn descriptor(&self) -> (w: Wasm)
        ensures
            w == self.type_info_spec(),
    {
        self.type_info
    }

    /// Hands `x` to the arena, and after it the descriptor of its type, and
    /// puts the two encodings side by side. A descriptor is complete in
    /// itself, so the arena keeps nothing for it.
    pub fn new<T: IntoWasm + TypeInfo>(arena: &mut Arena, x: T) -> (dynamic: Dynamic)
        ensures
            x.encodes(old(arena)@, final(arena)@, dynamic.value_spec()),
            dynamic.type_info_spec() == T::info().wasm(),
    {
        let value = Stash::new(arena, x).to_wasm();
        let type_info = Stash::new(arena, T::type_info()).to_wasm();
        Dynamic { value, type_info }
    }
}

/// The doubles of `items`, two for each.
fn flatten(items: &Vec<Dynamic>) -> (out: Vec<u64>)
    ensures
        out@.len() == 2 * items@.len(),
        forall|i: int|
            0 <= i < items@.len() ==> out@[2 * i] == (#[trigger] items@[i]).value.bits && out@[2 * i
                + 1] == items@[i].type_info.bits,
{
    let mut out: Vec<u64> = Vec::new();
    let mut i: usize = 0;
    while i < items.len()
        invariant
            i <= items@.len(),
            out@.len() == 2 * i,
            forall|j: int|
                0 <= j < i ==> out@[2 * j] == (#[trigger] items@[j]).value.bits && out@[2 * j + 1]
                    == items@[j].type_info.bits,
        decreases items@.len() - i,
    {
        out.push(items[i].value.bits);
        out.push(items[i].type_info.bits);
        i = i + 1;
    }
    out
}

/// Hands the doubles of `items` to the arena.
fn keep_items(arena: &mut Arena, items: &Vec<Dynamic>) -> (w: Wasm)
    ensures
        kept(old(arena)@, final(arena)@, w, ArrayType::F64, words(items@)),
{
    let out = flatten(items);
    let buffer = Buffer::F64(out);
    assert(buffer.elems() =~= words(items@)) by {
        assert forall|k: int| 0 <= k < 2 * items@.len() implies buffer.elems()[k] == words(
            items@,
        )[k] by {
            let j = k / 2;
            assert(0 <= j < items@.len());
            assert(items@[j].value.bits == out@[2 * j]);
            if k % 2 == 0 {
                assert(k == 2 * j);
            } else {
                assert(k == 2 * j + 1);
            }
        }
    }
    arena.push(buffer)
}

/// A dynamic value by itself travels like an array of one element.
impl IntoWasm for Dynamic {
    open spec fn encodes(self, before: Seq<Region>, after: Seq<Region>, w: Wasm) -> bool {
        kept(before, after, w, ArrayType::F64, words(seq![self]))
    }

    fn into_wasm(self, arena: &mut Arena) -> (w: Wasm) {
        let mut items: Vec<Dynamic> = Vec::new();
        items.push(self);
        assert(items@ =~= seq![self]);
        keep_items(arena, &items)
    }
}

/// An array of dynamic values.
impl IntoWasm for Vec<Dynamic> {
    open spec fn encodes(self, before: Seq<Region>, after: Seq<Region>, w: Wasm) -> bool {
        kept(before, after, w, ArrayType::F64, words(self@))
    }

    fn into_wasm(self, arena: &mut Arena) -> (w: Wasm) {
        keep_items(arena, &self)
    }
}

/// The keys of `entries` have been handed to the arena one after the other,
/// and `items` holds each key as a dynamic string, followed by its value.
pub open spec fn keyed(
    entries: Seq<(&'static str, Dynamic)>,
    before: Seq<Region>,
    after: Seq<Region>,
    items: Seq<Dynamic>,
) -> bool {
    &&& after.len() == before.len() + entries.len()
    &&& after.take(before.len() as int) == before
    &&& items.len() == 2 * entries.len()
    &&& forall|i: int|
        0 <= i < entries.len() ==> {
            let key = #[trigger] items[2 * i];
            let text = byte_elems(encode_utf8(entries[i].0@));
            &&& after[before.len() + i] == (Region {
                addr: key.value_spec().low_word(),
                kind: ArrayType::U8,
                elems: text,
            })
            &&& key.value_spec().high_word() == #[verifier::truncate] (text.len() as u32)
            &&& key.type_info_spec() == <&str as TypeInfo>::info().wasm()
            &&& items[2 * i + 1] == entries[i].1
        }
}

/// An object: keys and values in the order in which they were given.
impl IntoWasm for Vec<(&'static str, Dynamic)> {
    open spec fn encodes(self, before: Seq<Region>, after: Seq<Region>, w: Wasm) -> bool {
        &&& after.len() > 0
        &&& exists|items: Seq<Dynamic>|
            {
                &&& #[trigger] keyed(self@, before, after.drop_last(), items)
                &&& kept(after.drop_last(), after, w, ArrayType::F64, words(items))
            }
    }

    fn into_wasm(self, arena: &mut Arena) -> (w: Wasm) {
        let ghost before = arena@;
        let mut items: Vec<Dynamic> = Vec::new();
        let mut i: usize = 0;
        assert(arena@.take(before.len() as int) =~= before);
        while i < self.len()
            invariant
                i <= self@.len(),
                keyed(self@.take(i as int), before, arena@, items@),
            decreases self@.len() - i,
        {
            let ghost mid = arena@;
            let ghost done = items@;
            let key = Dynamic::new(arena, self[i].0);
            items.push(key);
            items.push(self[i].1);
            proof {
                let entries = self@.take(i + 1);
                assert(arena@.take(before.len() as int) =~= before);
                assert forall|j: int| 0 <= j < entries.len() implies {
                    let key = #[trigger] items@[2 * j];
                    let text = byte_elems(encode_utf8(entries[j].0@));
                    &&& arena@[before.len() + j] == (Region {
                        addr: key.value_spec().low_word(),
                        kind: ArrayType::U8,
                        elems: text,
                    })
                    &&& key.value_spec().high_word() == #[verifier::truncate] (text.len() as u32)
                    &&& key.type_info_spec() == <&str as TypeInfo>::info().wasm()
                    &&& items@[2 * j + 1] == entries[j].1
                } by {
                    if j < i {
                        assert(self@.take(i as int)[j] == entries[j]);
                        assert(items@[2 * j] == done[2 * j]);
                        assert(arena@[before.len() + j] == mid[before.len() + j]);
                    }
                }
            }
            i = i + 1;
        }
        assert(self@.take(i as int) =~= self@);
        let ghost mid = arena@;
        let w = keep_items(arena, &items);
        assert(arena@.drop_last() =~= mid);
        w
    }
}

impl HasNiche for Dynamic {
    open spec fn niche_spec() -> Niche {
        Niche::LowBitsOne
    }

    fn niche() -> (niche: Niche) {
        Niche::LowBitsOne
    }

    proof fn lemma_niche() {
    }
}

impl HasNiche for Vec<Dynamic> {
    open spec fn niche_spec() -> Niche {
        Niche::LowBitsOne
    }

    fn niche() -> (niche: Niche) {
        Niche::LowBitsOne
    }

    proof fn lemma_niche() {
    }
}

impl HasNiche for Vec<(&'static str, Dynamic)> {
    open spec fn niche_spec() -> Niche {
        Niche::LowBitsOne
    }

    fn niche() -> (niche: Niche) {
        Niche::LowBitsOne
    }

    proof fn lemma_niche() {
    }
}

impl TypeInfo for Dynamic {
    open spec fn info() -> Info {
        Info {
            array_type: ArrayType::F64,
            transform: Transform::Dynamic,
            is_array: true,
            is_option: false,
            is_result: false,
        }
    }

    fn type_info() -> (info: Info) {
        Info::new(ArrayType::F64, true, Transform::Dynamic)
    }
}

impl TypeInfo for Vec<Dynamic> {
    open spec fn info() -> Info {
        Info {
            array_type: ArrayType::F64,
            transform: Transform::DynamicArray,
            is_array: true,
            is_option: false,
            is_result: false,
        }
    }

    fn type_info() -> (info: Info) {
        Info::new(ArrayType::F64, true, Transform::DynamicArray)
    }
}

impl TypeInfo for Vec<(&'static str, Dynamic)> {
    open spec fn info() -> Info {
        Info {
            array_type: ArrayType::F64,
            transform: Transform::DynamicObject,
            is_array: true,
            is_option: false,
            is_result: false,
        }
    }

    fn type_info() -> (info: Info) {
        Info::new(ArrayType::F64, true, Transform::DynamicObject)
    }
}

} // verus!
