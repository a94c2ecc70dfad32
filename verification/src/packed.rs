//! Small tuples that fill the 64 bits of one double.
//!
//! Eight bytes, four 16-bit numbers or two 32-bit numbers are laid side by
//! side, the first element in the lowest bits. Signed elements are stored as
//! the unsigned number with the same bits, and a 32-bit float as its bit
//! pattern. All 64 bits carry data, so no pattern is left to stand for a
//! missing value: a packed tuple cannot be wrapped in an option or a result.

use vstd::prelude::*;
use crate::typeinfo::{ArrayType, Info, Transform, TypeInfo};
use crate::wasm::{ToWasm, Wasm};

verus! {

/// Eight unsigned bytes.
pub struct U8Octet(pub [u8; 8]);

/// Eight signed bytes.
pub struct I8Octet(pub [i8; 8]);

/// Four unsigned 16-bit numbers.
pub struct U16Quartet(pub [u16; 4]);

/// Four signed 16-bit numbers.
pub struct I16Quartet(pub [i16; 4]);

/// Two unsigned 32-bit numbers.
pub struct U32Pair(pub [u32; 2]);

/// Two signed 32-bit numbers.
pub struct I32Pair(pub [i32; 2]);

/// Two 32-bit floats, each held as its bit pattern.
pub struct F32Pair(pub [u32; 2]);

/// Eight bytes side by side, `a[0]` lowest.
pub open spec fn pack8(a: Seq<u8>) -> u64
    recommends
        a.len() == 8,
{
    ((a[7] as u64) << 56) | ((a[6] as u64) << 48) | ((a[5] as u64) << 40) | ((a[4] as u64) << 32)
        | ((a[3] as u64) << 24) | ((a[2] as u64) << 16) | ((a[1] as u64) << 8) | (a[0] as u64)
}

/// Four 16-bit numbers side by side, `a[0]` lowest.
pub open spec fn pack4(a: Seq<u16>) -> u64
    recommends
        a.len() == 4,
{
    ((a[3] as u64) << 48) | ((a[2] as u64) << 32) | ((a[1] as u64) << 16) | (a[0] as u64)
}

/// Two 32-bit numbers side by side, `a[0]` lowest.
pub open spec fn pack2(a: Seq<u32>) -> u64
    recommends
        a.len() == 2,
{
    ((a[1] as u64) << 32) | (a[0] as u64)
}

/// The eight bytes of `bits`, lowest first.
pub open spec fn unpack8(bits: u64) -> Seq<u8> {
    seq![
        (bits & 0xff) as u8,
        ((bits >> 8) & 0xff) as u8,
        ((bits >> 16) & 0xff) as u8,
        ((bits >> 24) & 0xff) as u8,
        ((bits >> 32) & 0xff) as u8,
        ((bits >> 40) & 0xff) as u8,
        ((bits >> 48) & 0xff) as u8,
        ((bits >> 56) & 0xff) as u8,
    ]
}

/// The four 16-bit numbers of `bits`, lowest first.
pub open spec fn unpack4(bits: u64) -> Seq<u16> {
    seq![
        (bits & 0xffff) as u16,
        ((bits >> 16) & 0xffff) as u16,
        ((bits >> 32) & 0xffff) as u16,
        ((bits >> 48) & 0xffff) as u16,
    ]
}

/// The two 32-bit numbers of `bits`, lowest first.
pub open spec fn unpack2(bits: u64) -> Seq<u32> {
    seq![(bits & 0xffff_ffff) as u32, ((bits >> 32) & 0xffff_ffff) as u32]
}

/// The unsigned bytes with the bits of the signed bytes `a`.
pub open spec fn bytes_of(a: Seq<i8>) -> Seq<u8> {
    Seq::new(a.len(), |i: int| a[i] as u8)
}

/// The signed bytes with the bits of the unsigned bytes `a`.
pub open spec fn signed_bytes(a: Seq<u8>) -> Seq<i8> {
    Seq::new(a.len(), |i: int| a[i] as i8)
}

/// The unsigned 16-bit numbers with the bits of the signed numbers `a`.
pub open spec fn halves_of(a: Seq<i16>) -> Seq<u16> {
    Seq::new(a.len(), |i: int| a[i] as u16)
}

/// The signed 16-bit numbers with the bits of the unsigned numbers `a`.
pub open spec fn signed_halves(a: Seq<u16>) -> Seq<i16> {
    Seq::new(a.len(), |i: int| a[i] as i16)
}

/// The unsigned 32-bit numbers with the bits of the signed numbers `a`.
pub open spec fn words_of(a: Seq<i32>) -> Seq<u32> {
    Seq::new(a.len(), |i: int| a[i] as u32)
}

/// The signed 32-bit numbers with the bits of the unsigned numbers `a`.
pub open spec fn signed_words(a: Seq<u32>) -> Seq<i32> {
    Seq::new(a.len(), |i: int| a[i] as i32)
}

impl ToWasm for U8Octet {
    open spec fn wasm(&self) -> Wasm {
        Wasm { bits: pack8(self.0@) }
    }

    fn to_wasm(&self) -> (w: Wasm) {
        let a = self.0[0];
        let b = self.0[1];
        let c = self.0[2];
        let d = self.0[3];
        let e = self.0[4];
        let f = self.0[5];
        let g = self.0[6];
        let h = self.0[7];
        let bits = ((h as u64) << 56) | ((g as u64) << 48) | ((f as u64) << 40) | ((e as u64)
            << 32) | ((d as u64) << 24) | ((c as u64) << 16) | ((b as u64) << 8) | (a as u64);
        assert(bits == pack8(self.0@));
        let w = Wasm::from_bits(bits);
        assert(w.bits == self.wasm().bits);
        w
    }
}

impl ToWasm for I8Octet {
    open spec fn wasm(&self) -> Wasm {
        Wasm { bits: pack8(bytes_of(self.0@)) }
    }

    fn to_wasm(&self) -> (w: Wasm) {
        let unsigned = U8Octet(
            [
                self.0[0] as u8,
                self.0[1] as u8,
                self.0[2] as u8,
                self.0[3] as u8,
                self.0[4] as u8,
                self.0[5] as u8,
                self.0[6] as u8,
                self.0[7] as u8,
            ],
        );
        assert(unsigned.0@ =~= bytes_of(self.0@));
        unsigned.to_wasm()
    }
}

impl ToWasm for U16Quartet {
    open spec fn wasm(&self) -> Wasm {
        Wasm { bits: pack4(self.0@) }
    }

    fn to_wasm(&self) -> (w: Wasm) {
        let a = self.0[0];
        let b = self.0[1];
        let c = self.0[2];
        let d = self.0[3];
        let bits = ((d as u64) << 48) | ((c as u64) << 32) | ((b as u64) << 16) | (a as u64);
        assert(bits == pack4(self.0@));
        Wasm::from_bits(bits)
    }
}

impl ToWasm for I16Quartet {
    open spec fn wasm(&self) -> Wasm {
        Wasm { bits: pack4(halves_of(self.0@)) }
    }

    fn to_wasm(&self) -> (w: Wasm) {
        let unsigned = U16Quartet(
            [self.0[0] as u16, self.0[1] as u16, self.0[2] as u16, self.0[3] as u16],
        );
        assert(unsigned.0@ =~= halves_of(self.0@));
        unsigned.to_wasm()
    }
}

impl ToWasm for U32Pair {
    open spec fn wasm(&self) -> Wasm {
        Wasm { bits: pack2(self.0@) }
    }

    fn to_wasm(&self) -> (w: Wasm) {
        let a = self.0[0];
        let b = self.0[1];
        let bits = ((b as u64) << 32) | (a as u64);
        assert(bits == pack2(self.0@));
        Wasm::from_bits(bits)
    }
}

impl ToWasm for I32Pair {
    open spec fn wasm(&self) -> Wasm {
        Wasm { bits: pack2(words_of(self.0@)) }
    }

    fn to_wasm(&self) -> (w: Wasm) {
        let unsigned = U32Pair([self.0[0] as u32, self.0[1] as u32]);
        assert(unsigned.0@ =~= words_of(self.0@));
        unsigned.to_wasm()
    }
}

impl ToWasm for F32Pair {
    open spec fn wasm(&self) -> Wasm {
        Wasm { bits: pack2(self.0@) }
    }

    fn to_wasm(&self) -> (w: Wasm) {
        U32Pair([self.0[0], self.0[1]]).to_wasm()
    }
}

/// Eight bytes can be read back from the 64 bits, each from its own place.
pub proof fn lemma_unpack8_pack8(a: Seq<u8>)
    requires
        a.len() == 8,
    ensures
        unpack8(pack8(a)) == a,
{
    let (a0, a1, a2, a3, a4, a5, a6, a7) = (a[0], a[1], a[2], a[3], a[4], a[5], a[6], a[7]);
    assert({
        let bits = ((a7 as u64) << 56) | ((a6 as u64) << 48) | ((a5 as u64) << 40) | ((a4 as u64)
            << 32) | ((a3 as u64) << 24) | ((a2 as u64) << 16) | ((a1 as u64) << 8) | (a0 as u64);
        &&& (bits & 0xff) as u8 == a0
        &&& ((bits >> 8) & 0xff) as u8 == a1
        &&& ((bits >> 16) & 0xff) as u8 == a2
        &&& ((bits >> 24) & 0xff) as u8 == a3
        &&& ((bits >> 32) & 0xff) as u8 == a4
        &&& ((bits >> 40) & 0xff) as u8 == a5
        &&& ((bits >> 48) & 0xff) as u8 == a6
        &&& ((bits >> 56) & 0xff) as u8 == a7
    }) by (bit_vector);
    assert(unpack8(pack8(a)) =~= a);
}

/// Any 64 bits are the pack of their eight bytes.
pub proof fn lemma_pack8_unpack8(bits: u64)
    ensures
        pack8(unpack8(bits)) == bits,
{
    assert(((((bits >> 56) & 0xff) as u8 as u64) << 56) | ((((bits >> 48) & 0xff) as u8 as u64)
        << 48) | ((((bits >> 40) & 0xff) as u8 as u64) << 40) | ((((bits >> 32) & 0xff) as u8
        as u64) << 32) | ((((bits >> 24) & 0xff) as u8 as u64) << 24) | ((((bits >> 16) & 0xff)
        as u8 as u64) << 16) | ((((bits >> 8) & 0xff) as u8 as u64) << 8) | ((bits & 0xff) as u8
        as u64) == bits) by (bit_vector);
}

/// Four 16-bit numbers can be read back from the 64 bits.
pub proof fn lemma_unpack4_pack4(a: Seq<u16>)
    requires
        a.len() == 4,
    ensures
        unpack4(pack4(a)) == a,
{
    let (a0, a1, a2, a3) = (a[0], a[1], a[2], a[3]);
    assert({
        let bits = ((a3 as u64) << 48) | ((a2 as u64) << 32) | ((a1 as u64) << 16) | (a0 as u64);
        &&& (bits & 0xffff) as u16 == a0
        &&& ((bits >> 16) & 0xffff) as u16 == a1
        &&& ((bits >> 32) & 0xffff) as u16 == a2
        &&& ((bits >> 48) & 0xffff) as u16 == a3
    }) by (bit_vector);
    assert(unpack4(pack4(a)) =~= a);
}

/// Any 64 bits are the pack of their four 16-bit numbers.
pub proof fn lemma_pack4_unpack4(bits: u64)
    ensures
        pack4(unpack4(bits)) == bits,
{
    assert(((((bits >> 48) & 0xffff) as u16 as u64) << 48) | ((((bits >> 32) & 0xffff) as u16
        as u64) << 32) | ((((bits >> 16) & 0xffff) as u16 as u64) << 16) | ((bits & 0xffff) as u16
        as u64) == bits) by (bit_vector);
}

/// Two 32-bit numbers can be read back from the 64 bits.
pub proof fn lemma_unpack2_pack2(a: Seq<u32>)
    requires
        a.len() == 2,
    ensures
        unpack2(pack2(a)) == a,
{
    let (a0, a1) = (a[0], a[1]);
    assert({
        let bits = ((a1 as u64) << 32) | (a0 as u64);
        &&& (bits & 0xffff_ffff) as u32 == a0
        &&& ((bits >> 32) & 0xffff_ffff) as u32 == a1
    }) by (bit_vector);
    assert(unpack2(pack2(a)) =~= a);
}

/// Any 64 bits are the pack of their two 32-bit numbers.
pub proof fn lemma_pack2_unpack2(bits: u64)
    ensures
        pack2(unpack2(bits)) == bits,
{
    assert(((((bits >> 32) & 0xffff_ffff) as u32 as u64) << 32) | ((bits & 0xffff_ffff) as u32
        as u64) == bits) by (bit_vector);
}

/// A signed number keeps its value on the way through the unsigned
/// number with the same bits.
proof fn lemma_same_bits()
    by (bit_vector)
    ensures
        forall|x: i8| (#[trigger] (x as u8)) as i8 == x,
        forall|x: i16| (#[trigger] (x as u16)) as i16 == x,
        forall|x: i32| (#[trigger] (x as u32)) as i32 == x,
{
}

/// Signed bytes keep their sign on the way through the unsigned bytes.
pub proof fn lemma_signed_bytes(a: Seq<i8>)
    ensures
        signed_bytes(bytes_of(a)) == a,
{
    lemma_same_bits();
    assert(signed_bytes(bytes_of(a)) =~= a);
}

/// Signed 16-bit numbers keep their sign on the way through the unsigned ones.
pub proof fn lemma_signed_halves(a: Seq<i16>)
    ensures
        signed_halves(halves_of(a)) == a,
{
    lemma_same_bits();
    assert(signed_halves(halves_of(a)) =~= a);
}

/// Signed 32-bit numbers keep their sign on the way through the unsigned ones.
pub proof fn lemma_signed_words(a: Seq<i32>)
    ensures
        signed_words(words_of(a)) == a,
{
    lemma_same_bits();
    assert(signed_words(words_of(a)) =~= a);
}

/// Each of the seven shapes can be read back from its encoding, element by
/// element, in order and with its sign.
pub proof fn lemma_packed_roundtrip(
    a: U8Octet,
    b: I8Octet,
    c: U16Quartet,
    d: I16Quartet,
    e: U32Pair,
    f: I32Pair,
    g: F32Pair,
)
    ensures
        unpack8(a.wasm().bits) == a.0@,
        signed_bytes(unpack8(b.wasm().bits)) == b.0@,
        unpack4(c.wasm().bits) == c.0@,
        signed_halves(unpack4(d.wasm().bits)) == d.0@,
        unpack2(e.wasm().bits) == e.0@,
        signed_words(unpack2(f.wasm().bits)) == f.0@,
        unpack2(g.wasm().bits) == g.0@,
{
    lemma_unpack8_pack8(a.0@);
    lemma_unpack8_pack8(bytes_of(b.0@));
    lemma_signed_bytes(b.0@);
    lemma_unpack4_pack4(c.0@);
    lemma_unpack4_pack4(halves_of(d.0@));
    lemma_signed_halves(d.0@);
    lemma_unpack2_pack2(e.0@);
    lemma_unpack2_pack2(words_of(f.0@));
    lemma_signed_words(f.0@);
    lemma_unpack2_pack2(g.0@);
}

impl TypeInfo for U8Octet {
    open spec fn info() -> Info {
        Info {
            array_type: ArrayType::Absent,
            transform: Transform::U8Octet,
            is_array: false,
            is_option: false,
            is_result: false,
        }
    }

    fn type_info() -> (info: Info) {
        Info::new(ArrayType::Absent, false, Transform::U8Octet)
    }
}

impl TypeInfo for I8Octet {
    open spec fn info() -> Info {
        Info {
            array_type: ArrayType::Absent,
            transform: Transform::I8Octet,
            is_array: false,
            is_option: false,
            is_result: false,
        }
    }

    fn type_info() -> (info: Info) {
        Info::new(ArrayType::Absent, false, Transform::I8Octet)
    }
}

impl TypeInfo for U16Quartet {
    open spec fn info() -> Info {
        Info {
            array_type: ArrayType::Absent,
            transform: Transform::U16Quartet,
            is_array: false,
            is_option: false,
            is_result: false,
        }
    }

    fn type_info() -> (info: Info) {
        Info::new(ArrayType::Absent, false, Transform::U16Quartet)
    }
}

impl TypeInfo for I16Quartet {
    open spec fn info() -> Info {
        Info {
            array_type: ArrayType::Absent,
            transform: Transform::I16Quartet,
            is_array: false,
            is_option: false,
            is_result: false,
        }
    }

    fn type_info() -> (info: Info) {
        Info::new(ArrayType::Absent, false, Transform::I16Quartet)
    }
}

impl TypeInfo for U32Pair {
    open spec fn info() -> Info {
        Info {
            array_type: ArrayType::Absent,
            transform: Transform::U32Pair,
            is_array: false,
            is_option: false,
            is_result: false,
        }
    }

    fn type_info() -> (info: Info) {
        Info::new(ArrayType::Absent, false, Transform::U32Pair)
    }
}

impl TypeInfo for I32Pair {
    open spec fn info() -> Info {
        Info {
            array_type: ArrayType::Absent,
            transform: Transform::I32Pair,
            is_array: false,
            is_option: false,
            is_result: false,
        }
    }

    fn type_info() -> (info: Info) {
        Info::new(ArrayType::Absent, false, Transform::I32Pair)
    }
}

impl TypeInfo for F32Pair {
    open spec fn info() -> Info {
        Info {
            array_type: ArrayType::Absent,
            transform: Transform::F32Pair,
            is_array: false,
            is_option: false,
            is_result: false,
        }
    }

    fn type_info() -> (info: Info) {
        Info::new(ArrayType::Absent, false, Transform::F32Pair)
    }
}

} // verus!
