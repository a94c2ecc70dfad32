//! The descriptor that tells the caller how to read an encoded value.

use vstd::prelude::*;
use crate::packed::{lemma_unpack8_pack8, pack8, unpack8, U8Octet};
use crate::wasm::{ToWasm, Wasm};

verus! {

/// The element kind of a typed array, or `Absent` where a type has no
/// element representation. The caller keeps the same kinds in the same order.
#[derive(Clone, Copy, PartialEq, Eq, Structural, Debug)]
pub enum ArrayType {
    U8,
    I8,
    U16,
    I16,
    U32,
    I32,
    F32,
    U64,
    I64,
    F64,
    Absent,
}

/// What the caller does with the double before it hands the value on.
///
/// The packed kinds and the two 64-bit kinds come first, each at the
/// position of the element kind it belongs to.
#[derive(Clone, Copy, PartialEq, Eq, Structural, Debug)]
pub enum Transform {
    U8Octet,
    I8Octet,
    U16Quartet,
    I16Quartet,
    U32Pair,
    I32Pair,
    F32Pair,
    AsU64,
    AsI64,
    Identity,
    Void,
    Bool,
    String,
    Dynamic,
    DynamicArray,
    DynamicObject,
}

impl ArrayType {
    /// The position of this kind in the caller's list of kinds.
    pub open spec fn index(self) -> u8 {
        match self {
            ArrayType::U8 => 0,
            ArrayType::I8 => 1,
            ArrayType::U16 => 2,
            ArrayType::I16 => 3,
            ArrayType::U32 => 4,
            ArrayType::I32 => 5,
            ArrayType::F32 => 6,
            ArrayType::U64 => 7,
            ArrayType::I64 => 8,
            ArrayType::F64 => 9,
            ArrayType::Absent => 10,
        }
    }

    /// The kind at position `index`, if there is one.
    pub open spec fn at(index: u8) -> Option<ArrayType> {
        if index == 0 {
            Some(ArrayType::U8)
        } else if index == 1 {
            Some(ArrayType::I8)
        } else if index == 2 {
            Some(ArrayType::U16)
        } else if index == 3 {
            Some(ArrayType::I16)
        } else if index == 4 {
            Some(ArrayType::U32)
        } else if index == 5 {
            Some(ArrayType::I32)
        } else if index == 6 {
            Some(ArrayType::F32)
        } else if index == 7 {
            Some(ArrayType::U64)
        } else if index == 8 {
            Some(ArrayType::I64)
        } else if index == 9 {
            Some(ArrayType::F64)
        } else if index == 10 {
            Some(ArrayType::Absent)
        } else {
            None
        }
    }

    /// The position of this kind in the caller's list of kinds.
    pub fn code(self) -> (index: u8)
        ensures
            index == self.index(),
    {
        match self {
            ArrayType::U8 => 0,
            ArrayType::I8 => 1,
            ArrayType::U16 => 2,
            ArrayType::I16 => 3,
            ArrayType::U32 => 4,
            ArrayType::I32 => 5,
            ArrayType::F32 => 6,
            ArrayType::U64 => 7,
            ArrayType::I64 => 8,
            ArrayType::F64 => 9,
            ArrayType::Absent => 10,
        }
    }
}

impl Transform {
    /// The position of this transform in the caller's list of transforms.
    pub open spec fn index(self) -> u8 {
        match self {
            Transform::U8Octet => 0,
            Transform::I8Octet => 1,
            Transform::U16Quartet => 2,
            Transform::I16Quartet => 3,
            Transform::U32Pair => 4,
            Transform::I32Pair => 5,
            Transform::F32Pair => 6,
            Transform::AsU64 => 7,
            Transform::AsI64 => 8,
            Transform::Identity => 9,
            Transform::Void => 10,
            Transform::Bool => 11,
            Transform::String => 12,
            Transform::Dynamic => 13,
            Transform::DynamicArray => 14,
            Transform::DynamicObject => 15,
        }
    }

    /// The transform at position `index`, if there is one.
    pub open spec fn at(index: u8) -> Option<Transform> {
        if index == 0 {
            Some(Transform::U8Octet)
        } else if index == 1 {
            Some(Transform::I8Octet)
        } else if index == 2 {
            Some(Transform::U16Quartet)
        } else if index == 3 {
            Some(Transform::I16Quartet)
        } else if index == 4 {
            Some(Transform::U32Pair)
        } else if index == 5 {
            Some(Transform::I32Pair)
        } else if index == 6 {
            Some(Transform::F32Pair)
        } else if index == 7 {
            Some(Transform::AsU64)
        } else if index == 8 {
            Some(Transform::AsI64)
        } else if index == 9 {
            Some(Transform::Identity)
        } else if index == 10 {
            Some(Transform::Void)
        } else if index == 11 {
            Some(Transform::Bool)
        } else if index == 12 {
            Some(Transform::String)
        } else if index == 13 {
            Some(Transform::Dynamic)
        } else if index == 14 {
            Some(Transform::DynamicArray)
        } else if index == 15 {
            Some(Transform::DynamicObject)
        } else {
            None
        }
    }

    /// The position of this transform in the caller's list of transforms.
    pub fn code(self) -> (index: u8)
        ensures
            index == self.index(),
    {
        match self {
            Transform::U8Octet => 0,
            Transform::I8Octet => 1,
            Transform::U16Quartet => 2,
            Transform::I16Quartet => 3,
            Transform::U32Pair => 4,
            Transform::I32Pair => 5,
            Transform::F32Pair => 6,
            Transform::AsU64 => 7,
            Transform::AsI64 => 8,
            Transform::Identity => 9,
            Transform::Void => 10,
            Transform::Bool => 11,
            Transform::String => 12,
            Transform::Dynamic => 13,
            Transform::DynamicArray => 14,
            Transform::DynamicObject => 15,
        }
    }
}

/// How to read the values of one type.
#[derive(Clone, Copy, PartialEq, Eq, Structural, Debug)]
pub struct Info {
    pub array_type: ArrayType,
    pub transform: Transform,
    pub is_array: bool,
    pub is_option: bool,
    pub is_result: bool,
}

impl Info {
    /// A descriptor may say "array" only where it names an element kind.
    pub open spec fn wf(self) -> bool {
        self.is_array ==> self.array_type != ArrayType::Absent
    }

    /// The descriptor of a type that is wrapped in neither an option nor a result.
    pub open spec fn is_base(self) -> bool {
        !self.is_option && !self.is_result
    }

    /// The descriptor of a type by itself, not yet wrapped in an option or a result.
    pub fn new(array_type: ArrayType, is_array: bool, transform: Transform) -> (info: Info)
        requires
            is_array ==> array_type != ArrayType::Absent,
        ensures
            info == (Info { array_type, transform, is_array, is_option: false, is_result: false }),
            info.wf(),
            info.is_base(),
    {
        Info { array_type, transform, is_array, is_option: false, is_result: false }
    }

    /// The descriptor of an array of what `self` describes.
    pub fn array(self) -> (info: Info)
        requires
            self.array_type != ArrayType::Absent,
            !self.is_array,
        ensures
            info == (Info { is_array: true, ..self }),
            info.wf(),
    {
        Info { is_array: true, ..self }
    }

    /// The descriptor of an optional value of what `self` describes.
    pub fn option(self) -> (info: Info)
        requires
            !self.is_option,
        ensures
            info == (Info { is_option: true, ..self }),
            self.wf() ==> info.wf(),
    {
        Info { is_option: true, ..self }
    }

    /// The descriptor of a fallible value of what `self` describes.
    pub fn result(self) -> (info: Info)
        requires
            !self.is_result,
        ensures
            info == (Info { is_result: true, ..self }),
            self.wf() ==> info.wf(),
    {
        Info { is_result: true, ..self }
    }

    /// The same descriptor with the transform that hands the value on as it is.
    pub fn identity_transform(self) -> (info: Info)
        ensures
            info == (Info { transform: Transform::Identity, ..self }),
            self.wf() ==> info.wf(),
    {
        Info { transform: Transform::Identity, ..self }
    }
}

/// A flag as one byte.
pub open spec fn flag(b: bool) -> u8 {
    if b {
        1
    } else {
        0
    }
}

impl Info {
    /// The eight bytes of the descriptor: the three flags, the element kind,
    /// the transform, and three bytes that are kept free.
    pub open spec fn record(self) -> Seq<u8> {
        seq![
            flag(self.is_result),
            flag(self.is_option),
            flag(self.is_array),
            self.array_type.index(),
            self.transform.index(),
            0u8,
            0u8,
            0u8,
        ]
    }

    /// The descriptor that the eight bytes of `bits` spell out, if they spell one.
    pub open spec fn read(bits: u64) -> Option<Info> {
        let bytes = unpack8(bits);
        match (ArrayType::at(bytes[3]), Transform::at(bytes[4])) {
            (Some(array_type), Some(transform)) => if bytes[0] <= 1 && bytes[1] <= 1 && bytes[2]
                <= 1 && bytes[5] == 0 && bytes[6] == 0 && bytes[7] == 0 {
                Some(
                    Info {
                        array_type,
                        transform,
                        is_array: bytes[2] == 1,
                        is_option: bytes[1] == 1,
                        is_result: bytes[0] == 1,
                    },
                )
            } else {
                None
            },
            _ => None,
        }
    }
}

/// The descriptor travels like any other value: as the eight bytes of its
/// record, packed into one double.
impl ToWasm for Info {
    open spec fn wasm(&self) -> Wasm {
        Wasm { bits: pack8(self.record()) }
    }

    fn to_wasm(&self) -> (w: Wasm) {
        let is_result: u8 = if self.is_result {
            1
        } else {
            0
        };
        let is_option: u8 = if self.is_option {
            1
        } else {
            0
        };
        let is_array: u8 = if self.is_array {
            1
        } else {
            0
        };
        let record = U8Octet(
            [
                is_result,
                is_option,
                is_array,
                self.array_type.code(),
                self.transform.code(),
                0,
                0,
                0,
            ],
        );
        assert(record.0@ =~= self.record());
        record.to_wasm()
    }
}

/// A descriptor can be read back from its encoding.
pub proof fn lemma_info_roundtrip(info: Info)
    ensures
        Info::read(info.wasm().bits) == Some(info),
{
    lemma_unpack8_pack8(info.record());
}

/// Two descriptors with the same encoding are the same descriptor.
pub proof fn lemma_info_injective(a: Info, b: Info)
    requires
        a.wasm() == b.wasm(),
    ensures
        a == b,
{
    lemma_info_roundtrip(a);
    lemma_info_roundtrip(b);
}

/// A type whose values can be described to the caller. The descriptor
/// belongs to the type: every value of it is read in the same way.
pub trait TypeInfo {
    /// The descriptor of this type.
    spec fn info() -> Info;

    fn type_info() -> (info: Info)
        ensures
            info == Self::info(),
            info.wf(),
    ;
}

/// A reference is described as what it refers to.
impl<T: TypeInfo> TypeInfo for &T {
    open spec fn info() -> Info {
        T::info()
    }

    fn type_info() -> (info: Info) {
        T::type_info()
    }
}

} // verus!
