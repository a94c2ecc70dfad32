//! The arena that keeps strings and arrays alive for the caller.
//!
//! A string or an array leaves a call as the address and the length of a
//! buffer. The buffer has to outlive the call, so it is handed to an
//! [`Arena`], which owns it until the arena is cleared. The wrapper of every
//! exported function clears the arena before the function runs: what one
//! call returned can be read until the next call begins.

use vstd::prelude::*;
use vstd::utf8::encode_utf8;
use std::marker::PhantomData;
use crate::niche::{HasNiche, Niche};
use crate::typeinfo::{ArrayType, Info, TypeInfo};
use crate::wasm::{IntoWasm, ToWasm, Wasm};

verus! {

/// An owned run of elements of one kind. The two float kinds hold the bit
/// pattern of each element.
pub enum Buffer {
    U8(Vec<u8>),
    I8(Vec<i8>),
    U16(Vec<u16>),
    I16(Vec<i16>),
    U32(Vec<u32>),
    I32(Vec<i32>),
    F32(Vec<u32>),
    U64(Vec<u64>),
    I64(Vec<i64>),
    F64(Vec<u64>),
}

/// What the caller finds in memory: `elems` of kind `kind`, starting at `addr`.
pub struct Region {
    pub addr: u32,
    pub kind: ArrayType,
    pub elems: Seq<int>,
}

/// The bytes of a string as the elements of a region.
pub open spec fn byte_elems(bytes: Seq<u8>) -> Seq<int> {
    Seq::new(bytes.len(), |i: int| bytes[i] as int)
}

/// The elements of a region of bytes as bytes.
pub open spec fn elem_bytes(elems: Seq<int>) -> Seq<u8> {
    Seq::new(elems.len(), |i: int| elems[i] as u8)
}

/// Bytes survive the way into a region and back.
pub proof fn lemma_byte_elems(bytes: Seq<u8>)
    ensures
        elem_bytes(byte_elems(bytes)) == bytes,
        byte_elems(bytes).len() == bytes.len(),
{
    assert(elem_bytes(byte_elems(bytes)) =~= bytes);
}

impl Buffer {
    /// The kind of the elements.
    pub open spec fn kind(&self) -> ArrayType {
        match self {
            Buffer::U8(_) => ArrayType::U8,
            Buffer::I8(_) => ArrayType::I8,
            Buffer::U16(_) => ArrayType::U16,
            Buffer::I16(_) => ArrayType::I16,
            Buffer::U32(_) => ArrayType::U32,
            Buffer::I32(_) => ArrayType::I32,
            Buffer::F32(_) => ArrayType::F32,
            Buffer::U64(_) => ArrayType::U64,
            Buffer::I64(_) => ArrayType::I64,
            Buffer::F64(_) => ArrayType::F64,
        }
    }

    /// The elements, each as a whole number.
    pub open spec fn elems(&self) -> Seq<int> {
        match self {
            Buffer::U8(v) => Seq::new(v@.len(), |i: int| v@[i] as int),
            Buffer::I8(v) => Seq::new(v@.len(), |i: int| v@[i] as int),
            Buffer::U16(v) => Seq::new(v@.len(), |i: int| v@[i] as int),
            Buffer::I16(v) => Seq::new(v@.len(), |i: int| v@[i] as int),
            Buffer::U32(v) => Seq::new(v@.len(), |i: int| v@[i] as int),
            Buffer::I32(v) => Seq::new(v@.len(), |i: int| v@[i] as int),
            Buffer::F32(v) => Seq::new(v@.len(), |i: int| v@[i] as int),
            Buffer::U64(v) => Seq::new(v@.len(), |i: int| v@[i] as int),
            Buffer::I64(v) => Seq::new(v@.len(), |i: int| v@[i] as int),
            Buffer::F64(v) => Seq::new(v@.len(), |i: int| v@[i] as int),
        }
    }

    /// The number of elements.
    pub fn len(&self) -> (n: usize)
        ensures
            n == self.elems().len(),
    {
        match self {
            Buffer::U8(v) => v.len(),
            Buffer::I8(v) => v.len(),
            Buffer::U16(v) => v.len(),
            Buffer::I16(v) => v.len(),
            Buffer::U32(v) => v.len(),
            Buffer::I32(v) => v.len(),
            Buffer::F32(v) => v.len(),
            Buffer::U64(v) => v.len(),
            Buffer::I64(v) => v.len(),
            Buffer::F64(v) => v.len(),
        }
    }

    /// The bytes of `text` as a buffer, in place.
    pub fn from_string(text: String) -> (buffer: Buffer)
        ensures
            buffer.kind() == ArrayType::U8,
            buffer.elems() == byte_elems(encode_utf8(text@)),
    {
        let bytes = text.into_bytes();
        let buffer = Buffer::U8(bytes);
        assert(buffer.elems() =~= byte_elems(encode_utf8(text@)));
        buffer
    }

    /// Where the elements lie.
    fn address(&self) -> u32 {
        match self {
            Buffer::U8(v) => address_of(v),
            Buffer::I8(v) => address_of(v),
            Buffer::U16(v) => address_of(v),
            Buffer::I16(v) => address_of(v),
            Buffer::U32(v) => address_of(v),
            Buffer::I32(v) => address_of(v),
            Buffer::F32(v) => address_of(v),
            Buffer::U64(v) => address_of(v),
            Buffer::I64(v) => address_of(v),
            Buffer::F64(v) => address_of(v),
        }
    }
}

/// `Vec::as_ptr`, cut to 32 bits: the address at which the elements of `v`
/// begin. The allocator chooses it, so nothing is claimed of it.
#[verifier::external_body]
fn address_of<T>(v: &Vec<T>) -> u32 {
    v.as_ptr() as usize as u32
}

/// `String::into_bytes` hands out the UTF-8 bytes of the string.
pub assume_specification[ std::string::String::into_bytes ](text: std::string::String) -> (bytes:
    std::vec::Vec<u8>)
    ensures
        bytes@ == encode_utf8(text@),
;

/// A buffer that the arena owns, with the address that was handed out for it.
pub struct Entry {
    addr: u32,
    buffer: Buffer,
}

impl Entry {
    /// What the caller finds at this entry.
    pub closed spec fn region(&self) -> Region {
        Region { addr: self.addr, kind: self.buffer.kind(), elems: self.buffer.elems() }
    }

    /// The address that was handed out for the buffer.
    pub fn addr(&self) -> (addr: u32)
        ensures
            addr == self.region().addr,
    {
        self.addr
    }

    /// The buffer.
    pub fn buffer(&self) -> (buffer: &Buffer)
        ensures
            buffer.kind() == self.region().kind,
            buffer.elems() == self.region().elems,
    {
        &self.buffer
    }
}

/// The region that was last put at `addr`, if there is one.
pub open spec fn resolve(mem: Seq<Region>, addr: u32) -> Option<Region>
    decreases mem.len(),
{
    if mem.len() == 0 {
        None
    } else if mem.last().addr == addr {
        Some(mem.last())
    } else {
        resolve(mem.drop_last(), addr)
    }
}

/// What the caller reads through the pair of address and length in `w`, as
/// elements of kind `kind`: the region at that address, if it is of that
/// kind and of that length.
pub open spec fn read(mem: Seq<Region>, kind: ArrayType, w: Wasm) -> Option<Seq<int>> {
    match resolve(mem, w.low_word()) {
        Some(region) => if region.kind == kind && region.elems.len() == w.high_word() {
            Some(region.elems)
        } else {
            None
        },
        None => None,
    }
}

/// `after` is `before` and one more region, which holds `elems` of kind
/// `kind`, and `w` is the pair of its address and its length.
pub open spec fn kept(
    before: Seq<Region>,
    after: Seq<Region>,
    w: Wasm,
    kind: ArrayType,
    elems: Seq<int>,
) -> bool {
    &&& after == before.push(Region { addr: w.low_word(), kind, elems })
    &&& w.high_word() == #[verifier::truncate] (elems.len() as u32)
}

/// The buffers that are kept alive for the caller, in the order in which
/// they came.
pub struct Arena {
    entries: Vec<Entry>,
}

impl View for Arena {
    type V = Seq<Region>;

    closed spec fn view(&self) -> Seq<Region> {
        Seq::new(self.entries@.len(), |i: int| self.entries@[i].region())
    }
}

impl Arena {
    /// An arena that holds nothing.
    pub fn new() -> (arena: Arena)
        ensures
            arena@ == Seq::<Region>::empty(),
    {
        let arena = Arena { entries: Vec::new() };
        assert(arena@ =~= Seq::<Region>::empty());
        arena
    }

    /// The number of buffers that are kept.
    pub fn len(&self) -> (n: usize)
        ensures
            n == self@.len(),
    {
        self.entries.len()
    }

    /// Takes `buffer` over and returns the pair of its address and its
    /// length. The address is read before the buffer moves into the arena;
    /// the elements stay where they are.
    pub fn push(&mut self, buffer: Buffer) -> (w: Wasm)
        ensures
            kept(old(self)@, final(self)@, w, buffer.kind(), buffer.elems()),
    {
        let addr = buffer.address();
        let len = buffer.len() as u32;
        let w = Wasm::from_words(addr, len);
        self.entries.push(Entry { addr, buffer });
        assert(self@ =~= old(self)@.push(
            Region { addr: w.low_word(), kind: buffer.kind(), elems: buffer.elems() },
        ));
        w
    }

    /// Drops every buffer.
    pub fn clear(&mut self)
        ensures
            final(self)@ == Seq::<Region>::empty(),
    {
        self.entries.clear();
        assert(self@ =~= Seq::<Region>::empty());
    }

    /// The entry that was last put at `addr`, if there is one.
    pub fn find(&self, addr: u32) -> (found: Option<&Entry>)
        ensures
            match found {
                Some(entry) => resolve(self@, addr) == Some(entry.region()),
                None => resolve(self@, addr).is_none(),
            },
    {
        let mut i = self.entries.len();
        assert(self@.take(i as int) =~= self@);
        while i > 0
            invariant
                i <= self.entries@.len(),
                resolve(self@, addr) == resolve(self@.take(i as int), addr),
            decreases i,
        {
            proof {
                let part = self@.take(i as int);
                assert(part.last() == self.entries@[i - 1].region());
                assert(part.drop_last() =~= self@.take(i - 1));
            }
            if self.entries[i - 1].addr == addr {
                return Some(&self.entries[i - 1]);
            }
            i = i - 1;
        }
        proof {
            assert(self@.take(0).len() == 0);
        }
        None
    }
}

/// Drops every buffer of `arena`. The wrapper of an exported function calls
/// this before the function runs, never after.
pub fn clear_stash(arena: &mut Arena)
    ensures
        final(arena)@ == Seq::<Region>::empty(),
{
    arena.clear();
}

/// The encoding of a value that was handed to the arena. It can be returned
/// in place of the value, any number of times.
pub struct Stash<T> {
    wasm: Wasm,
    marker: PhantomData<T>,
}

impl<T: IntoWasm> Stash<T> {
    /// Encodes `x` and hands to `arena` what the encoding points to. For a
    /// value that is complete in itself there is nothing to keep, and the
    /// arena stays as it is.
    pub fn new(arena: &mut Arena, x: T) -> (stash: Stash<T>)
        ensures
            x.encodes(old(arena)@, final(arena)@, stash.wasm()),
    {
        let wasm = x.into_wasm(arena);
        Stash { wasm, marker: PhantomData }
    }
}

impl<T> ToWasm for Stash<T> {
    closed spec fn wasm(&self) -> Wasm {
        self.wasm
    }

    fn to_wasm(&self) -> (w: Wasm) {
        self.wasm
    }
}

impl<T: HasNiche> HasNiche for Stash<T> {
    open spec fn niche_spec() -> Niche {
        T::niche_spec()
    }

    fn niche() -> (niche: Niche) {
        T::niche()
    }

    proof fn lemma_niche() {
        T::lemma_niche();
    }
}

impl<T: TypeInfo> TypeInfo for Stash<T> {
    open spec fn info() -> Info {
        T::info()
    }

    fn type_info() -> (info: Info) {
        T::type_info()
    }
}

/// Nothing can be found in an arena that was cleared.
pub proof fn lemma_cleared_unreachable(addr: u32)
    ensures
        resolve(Seq::<Region>::empty(), addr).is_none(),
{
}

/// What is kept first after the arena was cleared is all that the arena
/// holds, at whatever address it lies: also at one that was in use before.
pub proof fn lemma_kept_after_clear(after: Seq<Region>, w: Wasm, kind: ArrayType, elems: Seq<int>)
    requires
        kept(Seq::<Region>::empty(), after, w, kind, elems),
    ensures
        after == seq![Region { addr: w.low_word(), kind, elems }],
        forall|addr: u32|
            #[trigger] resolve(after, addr) == if addr == w.low_word() {
                Some(Region { addr, kind, elems })
            } else {
                None
            },
{
    let region = Region { addr: w.low_word(), kind, elems };
    assert(after =~= seq![region]);
    assert(after.drop_last() =~= Seq::<Region>::empty());
    reveal_with_fuel(resolve, 2);
}

/// What was kept last is found at its address.
pub proof fn lemma_kept_resolves(
    before: Seq<Region>,
    after: Seq<Region>,
    w: Wasm,
    kind: ArrayType,
    elems: Seq<int>,
)
    requires
        kept(before, after, w, kind, elems),
    ensures
        resolve(after, w.low_word()) == Some(Region { addr: w.low_word(), kind, elems }),
        elems.len() <= u32::MAX ==> read(after, kind, w) == Some(elems),
{
}

/// What was found before is still found after a region was added at
/// another address.
pub proof fn lemma_kept_elsewhere(mem: Seq<Region>, region: Region, addr: u32)
    requires
        region.addr != addr,
    ensures
        resolve(mem.push(region), addr) == resolve(mem, addr),
{
    assert(mem.push(region).drop_last() =~= mem);
}

} // verus!
