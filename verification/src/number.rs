//! Numbers, truth values and the empty value.
//!
//! A whole number of up to 32 bits travels as the double of the same value.
//! A 64-bit number does not fit into a double, so its bits travel in place
//! of the bits of a double, and the caller takes them apart again. A float
//! is held as its bit pattern: [`Double`] for 64 bits, [`Single`] for 32.

use vstd::prelude::*;
use crate::double::{
    double_from_i32, double_from_i64, double_from_u32, double_from_u64, double_nearest_int,
    double_of_int, double_of_single, widen_single,
};
use crate::niche::{HasNiche, Niche};
use crate::stash::Buffer;
use crate::typeinfo::{ArrayType, Info, Transform, TypeInfo};
use crate::wasm::{ToWasm, Wasm};

verus! {

/// A 64-bit float, held as its bit pattern.
#[derive(Clone, Copy, PartialEq, Eq, Structural, Debug)]
pub struct Double(pub u64);

/// A 32-bit float, held as its bit pattern.
#[derive(Clone, Copy, PartialEq, Eq, Structural, Debug)]
pub struct Single(pub u32);

/// A type whose values can be the elements of a typed array.
pub trait Number: TypeInfo + Copy {
    /// The element as it lies in memory, as a whole number: the value of an
    /// integer, the bit pattern of a float.
    spec fn elem(self) -> int;

    /// The elements of `v` as a buffer of the kind of this type.
    fn buffer(v: Vec<Self>) -> (buffer: Buffer)
        ensures
            buffer.kind() == Self::info().array_type,
            buffer.elems().len() == v@.len(),
            forall|i: int| 0 <= i < v@.len() ==> buffer.elems()[i] == (#[trigger] v@[i]).elem(),
    ;

    /// The descriptor of a number names an element kind and is neither an
    /// array nor wrapped.
    proof fn lemma_number()
        ensures
            Self::info().array_type != ArrayType::Absent,
            !Self::info().is_array,
            Self::info().is_base(),
    ;
}

/// The elements of `v` as they lie in memory.
pub open spec fn elems_of<T: Number>(v: Seq<T>) -> Seq<int> {
    Seq::new(v.len(), |i: int| v[i].elem())
}

/// An unsigned byte travels as the double of the same value.
impl ToWasm for u8 {
    open spec fn wasm(&self) -> Wasm {
        Wasm { bits: double_of_int(*self as int) }
    }

    fn to_wasm(&self) -> (w: Wasm) {
        Wasm::from_bits(double_from_u32(*self as u32))
    }
}

impl TypeInfo for u8 {
    open spec fn info() -> Info {
        Info {
            array_type: ArrayType::U8,
            transform: Transform::Identity,
            is_array: false,
            is_option: false,
            is_result: false,
        }
    }

    fn type_info() -> (info: Info) {
        Info::new(ArrayType::U8, false, Transform::Identity)
    }
}

impl HasNiche for u8 {
    open spec fn niche_spec() -> Niche {
        Niche::HighBitsNaN
    }

    fn niche() -> (niche: Niche) {
        Niche::HighBitsNaN
    }

    proof fn lemma_niche() {
    }
}

impl Number for u8 {
    open spec fn elem(self) -> int {
        self as int
    }

    fn buffer(v: Vec<u8>) -> (buffer: Buffer) {
        Buffer::U8(v)
    }

    proof fn lemma_number() {
    }
}

/// A signed byte travels as the double of the same value.
impl ToWasm for i8 {
    open spec fn wasm(&self) -> Wasm {
        Wasm { bits: double_of_int(*self as int) }
    }

    fn to_wasm(&self) -> (w: Wasm) {
        Wasm::from_bits(double_from_i32(*self as i32))
    }
}

impl TypeInfo for i8 {
    open spec fn info() -> Info {
        Info {
            array_type: ArrayType::I8,
            transform: Transform::Identity,
            is_array: false,
            is_option: false,
            is_result: false,
        }
    }

    fn type_info() -> (info: Info) {
        Info::new(ArrayType::I8, false, Transform::Identity)
    }
}

impl HasNiche for i8 {
    open spec fn niche_spec() -> Niche {
        Niche::HighBitsNaN
    }

    fn niche() -> (niche: Niche) {
        Niche::HighBitsNaN
    }

    proof fn lemma_niche() {
    }
}

impl Number for i8 {
    open spec fn elem(self) -> int {
        self as int
    }

    fn buffer(v: Vec<i8>) -> (buffer: Buffer) {
        Buffer::I8(v)
    }

    proof fn lemma_number() {
    }
}

/// An unsigned 16-bit number travels as the double of the same value.
impl ToWasm for u16 {
    open spec fn wasm(&self) -> Wasm {
        Wasm { bits: double_of_int(*self as int) }
    }

    fn to_wasm(&self) -> (w: Wasm) {
        Wasm::from_bits(double_from_u32(*self as u32))
    }
}

impl TypeInfo for u16 {
    open spec fn info() -> Info {
        Info {
            array_type: ArrayType::U16,
            transform: Transform::Identity,
            is_array: false,
            is_option: false,
            is_result: false,
        }
    }

    fn type_info() -> (info: Info) {
        Info::new(ArrayType::U16, false, Transform::Identity)
    }
}

impl HasNiche for u16 {
    open spec fn niche_spec() -> Niche {
        Niche::HighBitsNaN
    }

    fn niche() -> (niche: Niche) {
        Niche::HighBitsNaN
    }

    proof fn lemma_niche() {
    }
}

impl Number for u16 {
    open spec fn elem(self) -> int {
        self as int
    }

    fn buffer(v: Vec<u16>) -> (buffer: Buffer) {
        Buffer::U16(v)
    }

    proof fn lemma_number() {
    }
}

/// A signed 16-bit number travels as the double of the same value.
impl ToWasm for i16 {
    open spec fn wasm(&self) -> Wasm {
        Wasm { bits: double_of_int(*self as int) }
    }

    fn to_wasm(&self) -> (w: Wasm) {
        Wasm::from_bits(double_from_i32(*self as i32))
    }
}

impl TypeInfo for i16 {
    open spec fn info() -> Info {
        Info {
            array_type: ArrayType::I16,
            transform: Transform::Identity,
            is_array: false,
            is_option: false,
            is_result: false,
        }
    }

    fn type_info() -> (info: Info) {
        Info::new(ArrayType::I16, false, Transform::Identity)
    }
}

impl HasNiche for i16 {
    open spec fn niche_spec() -> Niche {
        Niche::HighBitsNaN
    }

    fn niche() -> (niche: Niche) {
        Niche::HighBitsNaN
    }

    proof fn lemma_niche() {
    }
}

impl Number for i16 {
    open spec fn elem(self) -> int {
        self as int
    }

    fn buffer(v: Vec<i16>) -> (buffer: Buffer) {
        Buffer::I16(v)
    }

    proof fn lemma_number() {
    }
}

/// An unsigned 32-bit number travels as the double of the same value.
impl ToWasm for u32 {
    open spec fn wasm(&self) -> Wasm {
        Wasm { bits: double_of_int(*self as int) }
    }

    fn to_wasm(&self) -> (w: Wasm) {
        Wasm::from_bits(double_from_u32(*self))
    }
}

impl TypeInfo for u32 {
    open spec fn info() -> Info {
        Info {
            array_type: ArrayType::U32,
            transform: Transform::Identity,
            is_array: false,
            is_option: false,
            is_result: false,
        }
    }

    fn type_info() -> (info: Info) {
        Info::new(ArrayType::U32, false, Transform::Identity)
    }
}

impl HasNiche for u32 {
    open spec fn niche_spec() -> Niche {
        Niche::HighBitsNaN
    }

    fn niche() -> (niche: Niche) {
        Niche::HighBitsNaN
    }

    proof fn lemma_niche() {
    }
}

impl Number for u32 {
    open spec fn elem(self) -> int {
        self as int
    }

    fn buffer(v: Vec<u32>) -> (buffer: Buffer) {
        Buffer::U32(v)
    }

    proof fn lemma_number() {
    }
}

/// A signed 32-bit number travels as the double of the same value.
impl ToWasm for i32 {
    open spec fn wasm(&self) -> Wasm {
        Wasm { bits: double_of_int(*self as int) }
    }

    fn to_wasm(&self) -> (w: Wasm) {
        Wasm::from_bits(double_from_i32(*self))
    }
}

impl TypeInfo for i32 {
    open spec fn info() -> Info {
        Info {
            array_type: ArrayType::I32,
            transform: Transform::Identity,
            is_array: false,
            is_option: false,
            is_result: false,
        }
    }

    fn type_info() -> (info: Info) {
        Info::new(ArrayType::I32, false, Transform::Identity)
    }
}

impl HasNiche for i32 {
    open spec fn niche_spec() -> Niche {
        Niche::HighBitsNaN
    }

    fn niche() -> (niche: Niche) {
        Niche::HighBitsNaN
    }

    proof fn lemma_niche() {
    }
}

impl Number for i32 {
    open spec fn elem(self) -> int {
        self as int
    }

    fn buffer(v: Vec<i32>) -> (buffer: Buffer) {
        Buffer::I32(v)
    }

    proof fn lemma_number() {
    }
}

/// A size travels as the double nearest to it: up to 2^53 the double of
/// the same value. It is described as a number of 32 bits, which it is
/// where addresses have 32 bits.
impl ToWasm for usize {
    open spec fn wasm(&self) -> Wasm {
        Wasm { bits: double_nearest_int(*self as int) }
    }

    fn to_wasm(&self) -> (w: Wasm) {
        Wasm::from_bits(double_from_u64(*self as u64))
    }
}

impl TypeInfo for usize {
    open spec fn info() -> Info {
        Info {
            array_type: ArrayType::U32,
            transform: Transform::Identity,
            is_array: false,
            is_option: false,
            is_result: false,
        }
    }

    fn type_info() -> (info: Info) {
        Info::new(ArrayType::U32, false, Transform::Identity)
    }
}

impl HasNiche for usize {
    open spec fn niche_spec() -> Niche {
        Niche::HighBitsNaN
    }

    fn niche() -> (niche: Niche) {
        Niche::HighBitsNaN
    }

    proof fn lemma_niche() {
    }
}

/// A signed size travels as the double nearest to it, and is described
/// as a signed number of 32 bits.
impl ToWasm for isize {
    open spec fn wasm(&self) -> Wasm {
        Wasm { bits: double_nearest_int(*self as int) }
    }

    fn to_wasm(&self) -> (w: Wasm) {
        Wasm::from_bits(double_from_i64(*self as i64))
    }
}

impl TypeInfo for isize {
    open spec fn info() -> Info {
        Info {
            array_type: ArrayType::I32,
            transform: Transform::Identity,
            is_array: false,
            is_option: false,
            is_result: false,
        }
    }

    fn type_info() -> (info: Info) {
        Info::new(ArrayType::I32, false, Transform::Identity)
    }
}

impl HasNiche for isize {
    open spec fn niche_spec() -> Niche {
        Niche::HighBitsNaN
    }

    fn niche() -> (niche: Niche) {
        Niche::HighBitsNaN
    }

    proof fn lemma_niche() {
    }
}

/// The 64 bits of the number travel in place of the bits of a double.
impl ToWasm for u64 {
    open spec fn wasm(&self) -> Wasm {
        Wasm { bits: *self }
    }

    fn to_wasm(&self) -> (w: Wasm) {
        Wasm::from_bits(*self)
    }
}

impl TypeInfo for u64 {
    open spec fn info() -> Info {
        Info {
            array_type: ArrayType::U64,
            transform: Transform::AsU64,
            is_array: false,
            is_option: false,
            is_result: false,
        }
    }

    fn type_info() -> (info: Info) {
        Info::new(ArrayType::U64, false, Transform::AsU64)
    }
}

impl Number for u64 {
    open spec fn elem(self) -> int {
        self as int
    }

    fn buffer(v: Vec<u64>) -> (buffer: Buffer) {
        Buffer::U64(v)
    }

    proof fn lemma_number() {
    }
}

/// The 64 bits of the number, read as an unsigned number, travel in place
/// of the bits of a double.
impl ToWasm for i64 {
    open spec fn wasm(&self) -> Wasm {
        Wasm { bits: *self as u64 }
    }

    fn to_wasm(&self) -> (w: Wasm) {
        (*self as u64).to_wasm()
    }
}

impl TypeInfo for i64 {
    open spec fn info() -> Info {
        Info {
            array_type: ArrayType::I64,
            transform: Transform::AsI64,
            is_array: false,
            is_option: false,
            is_result: false,
        }
    }

    fn type_info() -> (info: Info) {
        Info::new(ArrayType::I64, false, Transform::AsI64)
    }
}

impl Number for i64 {
    open spec fn elem(self) -> int {
        self as int
    }

    fn buffer(v: Vec<i64>) -> (buffer: Buffer) {
        Buffer::I64(v)
    }

    proof fn lemma_number() {
    }
}

/// A double travels as it is.
impl ToWasm for Double {
    open spec fn wasm(&self) -> Wasm {
        Wasm { bits: self.0 }
    }

    fn to_wasm(&self) -> (w: Wasm) {
        Wasm::from_bits(self.0)
    }
}

impl TypeInfo for Double {
    open spec fn info() -> Info {
        Info {
            array_type: ArrayType::F64,
            transform: Transform::Identity,
            is_array: false,
            is_option: false,
            is_result: false,
        }
    }

    fn type_info() -> (info: Info) {
        Info::new(ArrayType::F64, false, Transform::Identity)
    }
}

impl HasNiche for Double {
    open spec fn niche_spec() -> Niche {
        Niche::HighBitsNaN
    }

    fn niche() -> (niche: Niche) {
        Niche::HighBitsNaN
    }

    proof fn lemma_niche() {
    }
}

impl Number for Double {
    open spec fn elem(self) -> int {
        self.0 as int
    }

    fn buffer(v: Vec<Double>) -> (buffer: Buffer) {
        let mut bits: Vec<u64> = Vec::new();
        let mut i: usize = 0;
        while i < v.len()
            invariant
                i <= v@.len(),
                bits@.len() == i,
                forall|j: int| 0 <= j < i ==> bits@[j] == v@[j].0,
            decreases v@.len() - i,
        {
            bits.push(v[i].0);
            i = i + 1;
        }
        Buffer::F64(bits)
    }

    proof fn lemma_number() {
    }
}

/// A 32-bit float travels as the double of the same value.
impl ToWasm for Single {
    open spec fn wasm(&self) -> Wasm {
        Wasm { bits: double_of_single(self.0) }
    }

    fn to_wasm(&self) -> (w: Wasm) {
        Wasm::from_bits(widen_single(self.0))
    }
}

impl TypeInfo for Single {
    open spec fn info() -> Info {
        Info {
            array_type: ArrayType::F32,
            transform: Transform::Identity,
            is_array: false,
            is_option: false,
            is_result: false,
        }
    }

    fn type_info() -> (info: Info) {
        Info::new(ArrayType::F32, false, Transform::Identity)
    }
}

impl HasNiche for Single {
    open spec fn niche_spec() -> Niche {
        Niche::HighBitsNaN
    }

    fn niche() -> (niche: Niche) {
        Niche::HighBitsNaN
    }

    proof fn lemma_niche() {
    }
}

impl Number for Single {
    open spec fn elem(self) -> int {
        self.0 as int
    }

    fn buffer(v: Vec<Single>) -> (buffer: Buffer) {
        let mut bits: Vec<u32> = Vec::new();
        let mut i: usize = 0;
        while i < v.len()
            invariant
                i <= v@.len(),
                bits@.len() == i,
                forall|j: int| 0 <= j < i ==> bits@[j] == v@[j].0,
            decreases v@.len() - i,
        {
            bits.push(v[i].0);
            i = i + 1;
        }
        Buffer::F32(bits)
    }

    proof fn lemma_number() {
    }
}

/// A truth value travels as the double 1 or the double 0.
impl ToWasm for bool {
    open spec fn wasm(&self) -> Wasm {
        Wasm {
            bits: double_of_int(
                if *self {
                    1
                } else {
                    0
                },
            ),
        }
    }

    fn to_wasm(&self) -> (w: Wasm) {
        let number: u32 = if *self {
            1
        } else {
            0
        };
        Wasm::from_bits(double_from_u32(number))
    }
}

impl TypeInfo for bool {
    open spec fn info() -> Info {
        Info {
            array_type: ArrayType::Absent,
            transform: Transform::Bool,
            is_array: false,
            is_option: false,
            is_result: false,
        }
    }

    fn type_info() -> (info: Info) {
        Info::new(ArrayType::Absent, false, Transform::Bool)
    }
}

impl HasNiche for bool {
    open spec fn niche_spec() -> Niche {
        Niche::HighBitsNaN
    }

    fn niche() -> (niche: Niche) {
        Niche::HighBitsNaN
    }

    proof fn lemma_niche() {
    }
}

/// The empty value travels as the double 0.
impl ToWasm for () {
    open spec fn wasm(&self) -> Wasm {
        Wasm { bits: 0 }
    }

    fn to_wasm(&self) -> (w: Wasm) {
        Wasm::from_bits(0)
    }
}

impl TypeInfo for () {
    open spec fn info() -> Info {
        Info {
            array_type: ArrayType::Absent,
            transform: Transform::Void,
            is_array: false,
            is_option: false,
            is_result: false,
        }
    }

    fn type_info() -> (info: Info) {
        Info::new(ArrayType::Absent, false, Transform::Void)
    }
}

impl HasNiche for () {
    open spec fn niche_spec() -> Niche {
        Niche::HighBitsNaN
    }

    fn niche() -> (niche: Niche) {
        Niche::HighBitsNaN
    }

    proof fn lemma_niche() {
    }
}

} // verus!
