//! What the caller reads.
//!
//! The caller has the descriptor of a type, the double that a call
//! returned, and the memory that the arena keeps. This module says what it
//! makes of them, and proves that it is what was encoded.

use vstd::prelude::*;
use vstd::utf8::encode_utf8;
use crate::double::{
    double_of_int, double_of_nat, double_of_single, double_to_int, lemma_double_int_roundtrip,
    lemma_nat_roundtrip, lemma_nearest_is_exact, lemma_nearest_is_finite, lemma_single_value,
    single_exponent, single_fraction, single_sign, INFINITY, QUIET_BIT, SIGN_BIT,
};
use crate::dynamic::{item_at, lemma_words_item, words, Dynamic};
use crate::errorstring::{
    c_string, has_nul, lemma_meta_error_has_no_nul, lemma_until_nul, meta_error, until_nul,
};
use crate::niche::{lemma_payload_sentinel, lemma_sentinel_payload, HasNiche, Niche, MARKER};
use crate::number::{elems_of, Double, Number, Single};
use crate::packed::{
    lemma_packed_roundtrip, signed_bytes, signed_halves, signed_words, unpack2, unpack4, unpack8,
    F32Pair, I16Quartet, I32Pair, I8Octet, U16Quartet, U32Pair, U8Octet,
};
use crate::pointer::Pointer;
use crate::stash::{
    byte_elems, elem_bytes, kept, lemma_byte_elems, lemma_kept_resolves, read, resolve, Region,
};
use crate::typeinfo::{ArrayType, Info, Transform, TypeInfo};
use crate::wasm::{lemma_pair_words, lemma_words_pair, ToWasm, Wasm};
use crate::wrappers::{failed, missing};

verus! {

/// Which of the three a returned double is.
pub enum Slot {
    /// The sentinel for a missing value.
    Missing,
    /// A sentinel that carries the address of an error text.
    Failed(u32),
    /// A value of the type itself.
    Present,
}

/// Which of the three `w` is under the descriptor `info`. A sentinel that
/// carries zero is a missing value where the type is an option; any other
/// sentinel is an error where the type is a result. Everything else is a value.
pub open spec fn slot(info: Info, w: Wasm) -> Slot {
    match Niche::of(info).payload(w) {
        Some(carried) => if info.is_option && carried == 0 {
            Slot::Missing
        } else if info.is_result {
            Slot::Failed(carried)
        } else {
            Slot::Present
        },
        None => Slot::Present,
    }
}

/// What the caller has in hand after reading.
pub enum Reading {
    /// No value.
    Missing,
    /// An error, with its text.
    Failed(Seq<u8>),
    /// The empty value.
    Void,
    /// A truth value.
    Bool(bool),
    /// A whole number.
    Number(int),
    /// A double that is taken as it is, given by its bits.
    Float(u64),
    /// The elements of a packed tuple, in order. Floats are bit patterns.
    Tuple(Seq<int>),
    /// The bytes of a string.
    Text(Seq<u8>),
    /// The elements of a typed array, in order. Floats are bit patterns.
    Array(Seq<int>),
    /// Dynamic values in order, each as the encoding of its value and the
    /// encoding of its descriptor.
    List(Seq<(Wasm, Wasm)>),
    /// Nothing that the descriptor allows.
    Unreadable,
}

/// The dynamic values that a run of doubles holds.
pub open spec fn pairs(elems: Seq<int>) -> Seq<(Wasm, Wasm)> {
    Seq::new(elems.len() / 2, |i: int| item_at(elems, i))
}

/// What the caller makes of `w` as a value of the type that `info`
/// describes, with `mem` in memory.
pub open spec fn read_value(info: Info, mem: Seq<Region>, w: Wasm) -> Reading {
    match info.transform {
        Transform::U8Octet => Reading::Tuple(elems_of(unpack8(w.bits))),
        Transform::I8Octet => Reading::Tuple(elems_of(signed_bytes(unpack8(w.bits)))),
        Transform::U16Quartet => Reading::Tuple(elems_of(unpack4(w.bits))),
        Transform::I16Quartet => Reading::Tuple(elems_of(signed_halves(unpack4(w.bits)))),
        Transform::U32Pair => Reading::Tuple(elems_of(unpack2(w.bits))),
        Transform::I32Pair => Reading::Tuple(elems_of(signed_words(unpack2(w.bits)))),
        Transform::F32Pair => Reading::Tuple(elems_of(unpack2(w.bits))),
        Transform::AsU64 => Reading::Number(w.bits as int),
        Transform::AsI64 => Reading::Number((w.bits as i64) as int),
        Transform::Identity => if info.is_array {
            match read(mem, info.array_type, w) {
                Some(elems) => Reading::Array(elems),
                None => Reading::Unreadable,
            }
        } else if info.array_type == ArrayType::F32 || info.array_type == ArrayType::F64 {
            Reading::Float(w.bits)
        } else {
            match double_to_int(w.bits) {
                Some(n) => Reading::Number(n),
                None => Reading::Unreadable,
            }
        },
        Transform::Void => Reading::Void,
        Transform::Bool => match double_to_int(w.bits) {
            Some(n) => Reading::Bool(n != 0),
            None => Reading::Unreadable,
        },
        Transform::String => match read(mem, ArrayType::U8, w) {
            Some(elems) => Reading::Text(elem_bytes(elems)),
            None => Reading::Unreadable,
        },
        Transform::Dynamic | Transform::DynamicArray | Transform::DynamicObject => match read(
            mem,
            ArrayType::F64,
            w,
        ) {
            Some(elems) => Reading::List(pairs(elems)),
            None => Reading::Unreadable,
        },
    }
}

/// What the caller makes of `w` under the descriptor `info`, with `mem` in
/// memory: first whether it is a sentinel, then the value.
pub open spec fn reading(info: Info, mem: Seq<Region>, w: Wasm) -> Reading {
    match slot(info, w) {
        Slot::Missing => Reading::Missing,
        Slot::Failed(addr) => match resolve(mem, addr) {
            Some(region) => if region.kind == ArrayType::U8 {
                Reading::Failed(until_nul(elem_bytes(region.elems)))
            } else {
                Reading::Unreadable
            },
            None => Reading::Unreadable,
        },
        Slot::Present => read_value(info, mem, w),
    }
}

/// The double of a whole number below 2^53 in absolute value is no
/// sentinel among the numbers.
pub proof fn lemma_number_is_no_sentinel(n: int)
    requires
        -0x20_0000_0000_0000 < n < 0x20_0000_0000_0000,
    ensures
        Niche::HighBitsNaN.payload(Wasm { bits: double_of_int(n) }).is_none(),
{
    let v: u64 = if n < 0 {
        (-n) as u64
    } else {
        n as u64
    };
    lemma_nat_roundtrip(v);
    let d = double_of_nat(v);
    assert(((d >> 32) as u32 != 0xfff8_0000u32) && (((SIGN_BIT | d) >> 32) as u32
        != 0xfff8_0000u32)) by (bit_vector)
        requires
            (d >> 52) & 0x7ff <= 1075,
    ;
}

/// A whole number reads back as itself under the descriptor of a number,
/// whether or not an option or a result is around it.
pub proof fn lemma_number_reads_back(info: Info, mem: Seq<Region>, n: int)
    requires
        -0x20_0000_0000_0000 < n < 0x20_0000_0000_0000,
        info.transform == Transform::Identity,
        !info.is_array,
        info.array_type != ArrayType::F32,
        info.array_type != ArrayType::F64,
    ensures
        reading(info, mem, Wasm { bits: double_of_int(n) }) == Reading::Number(n),
{
    lemma_number_is_no_sentinel(n);
    lemma_double_int_roundtrip(n);
}

/// Every number, truth value, address and empty value reads back as
/// itself under the descriptor of its type.
pub proof fn lemma_scalars_read_back(
    mem: Seq<Region>,
    a: u8,
    b: i8,
    c: u16,
    d: i16,
    e: u32,
    f: i32,
    g: u64,
    h: i64,
    p: Pointer,
    t: bool,
)
    ensures
        reading(<u8 as TypeInfo>::info(), mem, a.wasm()) == Reading::Number(a as int),
        reading(<i8 as TypeInfo>::info(), mem, b.wasm()) == Reading::Number(b as int),
        reading(<u16 as TypeInfo>::info(), mem, c.wasm()) == Reading::Number(c as int),
        reading(<i16 as TypeInfo>::info(), mem, d.wasm()) == Reading::Number(d as int),
        reading(<u32 as TypeInfo>::info(), mem, e.wasm()) == Reading::Number(e as int),
        reading(<i32 as TypeInfo>::info(), mem, f.wasm()) == Reading::Number(f as int),
        reading(<u64 as TypeInfo>::info(), mem, g.wasm()) == Reading::Number(g as int),
        reading(<i64 as TypeInfo>::info(), mem, h.wasm()) == Reading::Number(h as int),
        reading(<Pointer as TypeInfo>::info(), mem, p.wasm()) == Reading::Number(p.0 as int),
        reading(<bool as TypeInfo>::info(), mem, t.wasm()) == Reading::Bool(t),
        reading(<() as TypeInfo>::info(), mem, ().wasm()) == Reading::Void,
{
    lemma_number_reads_back(<u8 as TypeInfo>::info(), mem, a as int);
    lemma_number_reads_back(<i8 as TypeInfo>::info(), mem, b as int);
    lemma_number_reads_back(<u16 as TypeInfo>::info(), mem, c as int);
    lemma_number_reads_back(<i16 as TypeInfo>::info(), mem, d as int);
    lemma_number_reads_back(<u32 as TypeInfo>::info(), mem, e as int);
    lemma_number_reads_back(<i32 as TypeInfo>::info(), mem, f as int);
    lemma_number_reads_back(<Pointer as TypeInfo>::info(), mem, p.0 as int);
    assert((h as u64) as i64 == h) by (bit_vector);
    let n: int = if t {
        1
    } else {
        0
    };
    lemma_double_int_roundtrip(n);
}

/// A size reads back as itself as long as it is below 2^53.
pub proof fn lemma_sizes_read_back(mem: Seq<Region>, g: usize, h: isize)
    requires
        g < 0x20_0000_0000_0000,
        -0x20_0000_0000_0000 < h < 0x20_0000_0000_0000,
    ensures
        reading(<usize as TypeInfo>::info(), mem, g.wasm()) == Reading::Number(g as int),
        reading(<isize as TypeInfo>::info(), mem, h.wasm()) == Reading::Number(h as int),
{
    lemma_nearest_is_exact(g as int);
    lemma_nearest_is_exact(h as int);
    lemma_number_reads_back(<usize as TypeInfo>::info(), mem, g as int);
    lemma_number_reads_back(<isize as TypeInfo>::info(), mem, h as int);
}

/// A float reads back as its double: a 64-bit float as its own bits, a
/// 32-bit float as the double of the same value.
pub proof fn lemma_floats_read_back(mem: Seq<Region>, x: Double, y: Single)
    ensures
        reading(<Double as TypeInfo>::info(), mem, x.wasm()) == Reading::Float(x.0),
        reading(<Single as TypeInfo>::info(), mem, y.wasm()) == Reading::Float(
            double_of_single(y.0),
        ),
{
}

/// Each of the seven packed tuples reads back element by element, in
/// order and with its sign.
pub proof fn lemma_tuples_read_back(
    mem: Seq<Region>,
    a: U8Octet,
    b: I8Octet,
    c: U16Quartet,
    d: I16Quartet,
    e: U32Pair,
    f: I32Pair,
    g: F32Pair,
)
    ensures
        reading(<U8Octet as TypeInfo>::info(), mem, a.wasm()) == Reading::Tuple(elems_of(a.0@)),
        reading(<I8Octet as TypeInfo>::info(), mem, b.wasm()) == Reading::Tuple(elems_of(b.0@)),
        reading(<U16Quartet as TypeInfo>::info(), mem, c.wasm()) == Reading::Tuple(
            elems_of(c.0@),
        ),
        reading(<I16Quartet as TypeInfo>::info(), mem, d.wasm()) == Reading::Tuple(
            elems_of(d.0@),
        ),
        reading(<U32Pair as TypeInfo>::info(), mem, e.wasm()) == Reading::Tuple(elems_of(e.0@)),
        reading(<I32Pair as TypeInfo>::info(), mem, f.wasm()) == Reading::Tuple(elems_of(f.0@)),
        reading(<F32Pair as TypeInfo>::info(), mem, g.wasm()) == Reading::Tuple(elems_of(g.0@)),
{
    lemma_packed_roundtrip(a, b, c, d, e, f, g);
}

/// The encoding of a missing value reads as no value under the descriptor
/// of the option, whatever the type in it.
pub proof fn lemma_none_reads_missing<T: HasNiche>(
    info: Info,
    before: Seq<Region>,
    after: Seq<Region>,
    w: Wasm,
)
    requires
        missing(T::niche_spec(), before, after, w),
        info == (Info { is_option: true, is_result: info.is_result, ..T::info() }),
    ensures
        reading(info, after, w) == Reading::Missing,
        after == before,
{
    T::lemma_niche();
    lemma_sentinel_payload(T::niche_spec(), 0);
}

/// A value that is encoded otherwise than the missing value reads under
/// the descriptor of the option as under the descriptor of its type.
pub proof fn lemma_present_in_option<T: HasNiche>(mem: Seq<Region>, w: Wasm)
    requires
        w != T::niche_spec().sentinel(0),
    ensures
        slot(Info { is_option: true, ..T::info() }, w) == Slot::Present,
        reading(Info { is_option: true, ..T::info() }, mem, w) == reading(T::info(), mem, w),
{
    T::lemma_niche();
    let niche = T::niche_spec();
    if niche.payload(w).is_some() {
        lemma_payload_sentinel(niche, w);
    }
}

/// A value whose encoding is no sentinel reads under the descriptor of a
/// result, and of an option in a result, as under the descriptor of its type.
pub proof fn lemma_present_in_result<T: HasNiche>(info: Info, mem: Seq<Region>, w: Wasm)
    requires
        T::niche_spec().payload(w).is_none(),
        info == (Info { is_option: info.is_option, is_result: true, ..T::info() }),
    ensures
        slot(info, w) == Slot::Present,
        reading(info, mem, w) == reading(T::info(), mem, w),
{
    T::lemma_niche();
}

/// No number, truth value, address or empty value is encoded as a
/// sentinel, so none is taken for a missing value or for an error.
pub proof fn lemma_scalars_are_no_sentinels(
    a: u8,
    b: i8,
    c: u16,
    d: i16,
    e: u32,
    f: i32,
    g: usize,
    h: isize,
    p: Pointer,
    t: bool,
)
    ensures
        Niche::HighBitsNaN.payload(a.wasm()).is_none(),
        Niche::HighBitsNaN.payload(b.wasm()).is_none(),
        Niche::HighBitsNaN.payload(c.wasm()).is_none(),
        Niche::HighBitsNaN.payload(d.wasm()).is_none(),
        Niche::HighBitsNaN.payload(e.wasm()).is_none(),
        Niche::HighBitsNaN.payload(f.wasm()).is_none(),
        Niche::HighBitsNaN.payload(g.wasm()).is_none(),
        Niche::HighBitsNaN.payload(h.wasm()).is_none(),
        Niche::HighBitsNaN.payload(p.wasm()).is_none(),
        Niche::HighBitsNaN.payload(t.wasm()).is_none(),
        Niche::HighBitsNaN.payload(().wasm()).is_none(),
{
    lemma_number_is_no_sentinel(a as int);
    lemma_number_is_no_sentinel(b as int);
    lemma_number_is_no_sentinel(c as int);
    lemma_number_is_no_sentinel(d as int);
    lemma_number_is_no_sentinel(e as int);
    lemma_number_is_no_sentinel(f as int);
    lemma_number_is_no_sentinel(p.0 as int);
    lemma_number_is_no_sentinel(
        if t {
            1
        } else {
            0
        },
    );
    lemma_number_is_no_sentinel(0);
    let wide: u64 = if h < 0 {
        (-h) as u64
    } else {
        h as u64
    };
    lemma_nearest_is_finite(g as u64);
    lemma_nearest_is_finite(wide);
    let x = g.wasm().bits;
    let y = h.wasm().bits;
    assert((x >> 32) as u32 != 0xfff8_0000u32) by (bit_vector)
        requires
            (x >> 52) & 0x7ff <= 1087,
    ;
    assert((y >> 32) as u32 != 0xfff8_0000u32) by (bit_vector)
        requires
            (y >> 52) & 0x7ff <= 1087,
    ;
    assert((0u64 >> 32) as u32 != 0xfff8_0000u32) by (bit_vector);
}

/// Among the floats exactly one of each width is encoded as the missing
/// value: the quiet NaN with the sign set and nothing else in its fraction.
pub proof fn lemma_float_is_none(x: Double, y: Single)
    ensures
        x.wasm() == Niche::HighBitsNaN.sentinel(0) <==> x.0 == 0xfff8_0000_0000_0000u64,
        y.wasm() == Niche::HighBitsNaN.sentinel(0) <==> y.0 == 0xffc0_0000u32,
{
    assert(0xfff8_0000_0000_0000u64 | (0u32 as u64) == 0xfff8_0000_0000_0000u64) by (bit_vector);
    let bits = y.0;
    let e = single_exponent(bits) as u64;
    let m = single_fraction(bits) as u64;
    let sign = single_sign(bits);
    let wide = double_of_single(bits);
    assert(e <= 255 && m <= 0x7f_ffff && (sign == 0 || sign == 0x8000_0000_0000_0000) && (bits
        == 0xffc0_0000u32 <==> (sign != 0 && e == 255 && m == 0x40_0000))) by (bit_vector)
        requires
            e == ((bits >> 23) & 0xff) as u64,
            m == (bits & 0x7f_ffff) as u64,
            sign == ((bits >> 31) as u64) << 63,
    ;
    if e == 255 && m == 0 {
        assert(sign | INFINITY != 0xfff8_0000_0000_0000u64) by (bit_vector)
            requires
                sign == 0 || sign == 0x8000_0000_0000_0000,
        ;
    } else if e == 255 {
        assert((sign | INFINITY | QUIET_BIT | (m << 29) == 0xfff8_0000_0000_0000u64) <==> (sign
            != 0 && m == 0x40_0000)) by (bit_vector)
            requires
                sign == 0 || sign == 0x8000_0000_0000_0000,
                m <= 0x7f_ffff,
                m != 0,
        ;
    } else {
        lemma_single_value(bits);
        assert(wide != 0xfff8_0000_0000_0000u64) by (bit_vector)
            requires
                (wide >> 52) & 0x7ff != 0x7ff,
        ;
    }
}

/// A string or an array is encoded as the missing value exactly where it is
/// empty and lies at the address that is the marker.
pub proof fn lemma_pair_is_none(
    before: Seq<Region>,
    after: Seq<Region>,
    w: Wasm,
    kind: ArrayType,
    elems: Seq<int>,
)
    requires
        kept(before, after, w, kind, elems),
        elems.len() <= u32::MAX,
    ensures
        w == Niche::LowBitsOne.sentinel(0) <==> after.last().addr == MARKER && elems.len() == 0,
{
    lemma_pair_words(MARKER, 0);
    lemma_words_pair(w);
}

/// An error text without a NUL byte reads back as it was, under the
/// descriptor of a result around any type. Where the type is an option as
/// well, the text must not lie at address zero.
pub proof fn lemma_error_reads_back<T: HasNiche>(
    info: Info,
    message: Seq<u8>,
    before: Seq<Region>,
    after: Seq<Region>,
    w: Wasm,
)
    requires
        failed(T::niche_spec(), message, before, after, w),
        !has_nul(message),
        info == (Info { is_option: info.is_option, is_result: true, ..T::info() }),
        info.is_option ==> T::niche_spec().word(w) != 0,
    ensures
        reading(info, after, w) == Reading::Failed(message),
{
    T::lemma_niche();
    let niche = T::niche_spec();
    let addr = niche.word(w);
    lemma_sentinel_payload(niche, addr);
    let text = c_string(message);
    lemma_byte_elems(text);
    lemma_until_nul(message);
    assert(after.last().addr == addr);
}

/// An error text with a NUL byte reads back as the fixed text.
pub proof fn lemma_meta_error_reads_back<T: HasNiche>(
    info: Info,
    message: Seq<u8>,
    before: Seq<Region>,
    after: Seq<Region>,
    w: Wasm,
)
    requires
        failed(T::niche_spec(), message, before, after, w),
        has_nul(message),
        info == (Info { is_option: info.is_option, is_result: true, ..T::info() }),
        info.is_option ==> T::niche_spec().word(w) != 0,
    ensures
        reading(info, after, w) == Reading::Failed(meta_error()),
{
    T::lemma_niche();
    let niche = T::niche_spec();
    let addr = niche.word(w);
    lemma_sentinel_payload(niche, addr);
    lemma_byte_elems(c_string(message));
    lemma_meta_error_has_no_nul();
    lemma_until_nul(meta_error());
    assert(after.last().addr == addr);
}

/// A string reads back as its bytes, as long as their number fits in 32 bits.
pub proof fn lemma_text_reads_back(text: Seq<char>, before: Seq<Region>, after: Seq<Region>, w: Wasm)
    requires
        kept(before, after, w, ArrayType::U8, byte_elems(encode_utf8(text))),
        encode_utf8(text).len() <= u32::MAX,
    ensures
        reading(<String as TypeInfo>::info(), after, w) == Reading::Text(encode_utf8(text)),
{
    let bytes = encode_utf8(text);
    lemma_byte_elems(bytes);
    lemma_kept_resolves(before, after, w, ArrayType::U8, byte_elems(bytes));
}

/// A typed array reads back element by element, as long as the number of
/// its elements fits in 32 bits.
pub proof fn lemma_array_reads_back<T: Number>(
    v: Seq<T>,
    before: Seq<Region>,
    after: Seq<Region>,
    w: Wasm,
)
    requires
        kept(before, after, w, T::info().array_type, elems_of(v)),
        v.len() <= u32::MAX,
    ensures
        reading(<Vec<T> as TypeInfo>::info(), after, w) == Reading::Array(elems_of(v)),
{
    T::lemma_number();
    lemma_kept_resolves(before, after, w, T::info().array_type, elems_of(v));
}

/// An array of dynamic values reads back as its elements, in order, each
/// with the encoding of its value and of its descriptor.
pub proof fn lemma_list_reads_back(
    items: Seq<Dynamic>,
    before: Seq<Region>,
    after: Seq<Region>,
    w: Wasm,
)
    requires
        kept(before, after, w, ArrayType::F64, words(items)),
        2 * items.len() <= u32::MAX,
    ensures
        reading(<Vec<Dynamic> as TypeInfo>::info(), after, w) == Reading::List(
            Seq::new(items.len(), |i: int| (items[i].value_spec(), items[i].type_info_spec())),
        ),
{
    lemma_kept_resolves(before, after, w, ArrayType::F64, words(items));
    let elems = words(items);
    let expected = Seq::new(
        items.len(),
        |i: int| (items[i].value_spec(), items[i].type_info_spec()),
    );
    assert(pairs(elems) =~= expected) by {
        assert forall|i: int| 0 <= i < items.len() implies pairs(elems)[i] == expected[i] by {
            lemma_words_item(items, i);
        }
    }
}

/// In an arena that was cleared nothing is found, so no string, array or
/// error text can be read from it.
pub proof fn lemma_cleared_reads_nothing(kind: ArrayType, w: Wasm)
    ensures
        read(Seq::<Region>::empty(), kind, w).is_none(),
{
}

} // verus!
