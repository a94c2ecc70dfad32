//! Error texts.
//!
//! An error leaves a call as 32 bits: the address of its text, which the
//! arena keeps as a string that ends with a NUL byte. A text that holds a
//! NUL byte itself cannot be kept like that, and a fixed text takes its place.

use vstd::prelude::*;
use vstd::utf8::encode_utf8;
use crate::stash::{byte_elems, Arena, Buffer, Region};
use crate::typeinfo::ArrayType;

verus! {

/// The text that is kept in place of an error text with a NUL byte in it.
pub open spec fn meta_error() -> Seq<u8> {
    encode_utf8("Meta-error: The original error string contained a NUL byte."@)
}

/// Whether `text` holds a NUL byte.
pub open spec fn has_nul(text: Seq<u8>) -> bool {
    exists|i: int| 0 <= i < text.len() && text[i] == 0
}

/// The bytes that are kept for the error text `text`: the text, or the
/// fixed text where it holds a NUL byte, and a NUL byte at the end.
pub open spec fn c_string(text: Seq<u8>) -> Seq<u8> {
    if has_nul(text) {
        meta_error().push(0)
    } else {
        text.push(0)
    }
}

/// The fixed text holds no NUL byte itself.
pub proof fn lemma_meta_error_has_no_nul()
    ensures
        !has_nul(meta_error()),
        meta_error().len() == 59,
{
    reveal_strlit("Meta-error: The original error string contained a NUL byte.");
    let chars = "Meta-error: The original error string contained a NUL byte."@;
    assert(vstd::utf8::is_ascii_chars(chars));
    vstd::utf8::is_ascii_chars_encode_utf8(chars);
}

/// The bytes of `bytes` before the first NUL byte; all of them where there
/// is none.
pub open spec fn until_nul(bytes: Seq<u8>) -> Seq<u8>
    decreases bytes.len(),
{
    if bytes.len() == 0 || bytes[0] == 0 {
        Seq::empty()
    } else {
        seq![bytes[0]] + until_nul(bytes.drop_first())
    }
}

/// A text without a NUL byte is what stands before the NUL byte at its end.
pub proof fn lemma_until_nul(text: Seq<u8>)
    requires
        !has_nul(text),
    ensures
        until_nul(text.push(0)) == text,
    decreases text.len(),
{
    let bytes = text.push(0);
    if text.len() == 0 {
        assert(until_nul(bytes) =~= text);
    } else {
        assert(bytes[0] == text[0]);
        assert(text[0] != 0);
        let rest = text.drop_first();
        assert(bytes.drop_first() =~= rest.push(0));
        assert(!has_nul(rest)) by {
            if has_nul(rest) {
                let i = choose|i: int| 0 <= i < rest.len() && rest[i] == 0;
                assert(text[i + 1] == 0);
            }
        }
        lemma_until_nul(rest);
        assert(until_nul(bytes) =~= text);
    }
}

/// A value that can be the error of a result.
pub trait ErrorString {
    /// The bytes of the error text.
    spec fn message(&self) -> Seq<u8>;

    /// Hands the error text to the arena and returns its address.
    fn to_u32(&self, arena: &mut Arena) -> (addr: u32)
        ensures
            final(arena)@ == old(arena)@.push(
                Region {
                    addr,
                    kind: ArrayType::U8,
                    elems: byte_elems(c_string(self.message())),
                },
            ),
    ;
}

/// Whether `bytes` holds a NUL byte.
pub fn contains_nul(bytes: &[u8]) -> (found: bool)
    ensures
        found == has_nul(bytes@),
{
    let mut i: usize = 0;
    while i < bytes.len()
        invariant
            i <= bytes@.len(),
            forall|j: int| 0 <= j < i ==> bytes@[j] != 0,
        decreases bytes@.len() - i,
    {
        if bytes[i] == 0 {
            return true;
        }
        i = i + 1;
    }
    false
}

/// Hands the error text `text` to the arena, as [`c_string`] says, and
/// returns its address.
pub fn keep_error(arena: &mut Arena, text: &[u8]) -> (addr: u32)
    ensures
        final(arena)@ == old(arena)@.push(
            Region { addr, kind: ArrayType::U8, elems: byte_elems(c_string(text@)) },
        ),
{
    let mut bytes: Vec<u8> = Vec::new();
    if contains_nul(text) {
        bytes.extend_from_slice(
            "Meta-error: The original error string contained a NUL byte.".as_bytes(),
        );
    } else {
        bytes.extend_from_slice(text);
    }
    bytes.push(0);
    assert(bytes@ =~= c_string(text@));
    let buffer = Buffer::U8(bytes);
    assert(buffer.elems() =~= byte_elems(c_string(text@)));
    arena.push(buffer).low()
}

/// The empty value is an error without a text.
impl ErrorString for () {
    open spec fn message(&self) -> Seq<u8> {
        Seq::empty()
    }

    fn to_u32(&self, arena: &mut Arena) -> (addr: u32) {
        let none: Vec<u8> = Vec::new();
        keep_error(arena, none.as_slice())
    }
}

impl ErrorString for String {
    open spec fn message(&self) -> Seq<u8> {
        encode_utf8(self@)
    }

    fn to_u32(&self, arena: &mut Arena) -> (addr: u32) {
        keep_error(arena, self.as_str().as_bytes())
    }
}

impl ErrorString for &str {
    open spec fn message(&self) -> Seq<u8> {
        encode_utf8(self@)
    }

    fn to_u32(&self, arena: &mut Arena) -> (addr: u32) {
        keep_error(arena, self.as_bytes())
    }
}

impl<T: ErrorString> ErrorString for &T {
    open spec fn message(&self) -> Seq<u8> {
        (**self).message()
    }

    fn to_u32(&self, arena: &mut Arena) -> (addr: u32) {
        (*self).to_u32(arena)
    }
}

} // verus!
