use to_js::niche::{HasNiche, Niche};
use to_js::number::{Double, Single};
use to_js::pointer::Pointer;
use to_js::{
    ArrayType, Dynamic, F32Pair, I16Quartet, I32Pair, I8Octet, Info, Json, KeepAlive, Stash, ToWasm,
    Transform, TypeInfo, U16Quartet, U32Pair, U8Octet,
};

fn record(info: Info) -> [u8; 8] {
    info.to_wasm().value().to_le_bytes()
}

#[test]
fn new_descriptor_has_no_flags() {
    let info = Info::new(ArrayType::U32, false, Transform::Identity);
    assert_eq!(info.array_type, ArrayType::U32);
    assert_eq!(info.transform, Transform::Identity);
    assert!(!info.is_array);
    assert!(!info.is_option);
    assert!(!info.is_result);
}

#[test]
fn upgrades_set_one_flag_each() {
    let base = Info::new(ArrayType::I16, false, Transform::Bool);
    let array = base.array();
    assert!(array.is_array && !array.is_option && !array.is_result);
    let option = base.option();
    assert!(!option.is_array && option.is_option && !option.is_result);
    let result = base.result();
    assert!(!result.is_array && !result.is_option && result.is_result);
    let both = base.option().result();
    assert!(both.is_option && both.is_result);
    assert_eq!(both, base.result().option());
    assert_eq!(base.identity_transform().transform, Transform::Identity);
    assert_eq!(base.identity_transform().array_type, ArrayType::I16);
}

#[test]
fn descriptor_record_layout() {
    let info = Info::new(ArrayType::U32, false, Transform::Identity);
    assert_eq!(record(info), [0, 0, 0, 4, 9, 0, 0, 0]);
    assert_eq!(record(info.result()), [1, 0, 0, 4, 9, 0, 0, 0]);
    assert_eq!(record(info.option()), [0, 1, 0, 4, 9, 0, 0, 0]);
    assert_eq!(record(info.array()), [0, 0, 1, 4, 9, 0, 0, 0]);
    assert_eq!(record(info.array().option().result()), [1, 1, 1, 4, 9, 0, 0, 0]);
    assert_eq!(
        record(Info::new(ArrayType::Absent, false, Transform::DynamicObject)),
        [0, 0, 0, 10, 15, 0, 0, 0]
    );
}

#[test]
fn kinds_and_transforms_are_numbered_in_order() {
    let kinds = [
        ArrayType::U8,
        ArrayType::I8,
        ArrayType::U16,
        ArrayType::I16,
        ArrayType::U32,
        ArrayType::I32,
        ArrayType::F32,
        ArrayType::U64,
        ArrayType::I64,
        ArrayType::F64,
        ArrayType::Absent,
    ];
    for (i, kind) in kinds.iter().enumerate() {
        assert_eq!(kind.code() as usize, i);
    }
    let transforms = [
        Transform::U8Octet,
        Transform::I8Octet,
        Transform::U16Quartet,
        Transform::I16Quartet,
        Transform::U32Pair,
        Transform::I32Pair,
        Transform::F32Pair,
        Transform::AsU64,
        Transform::AsI64,
        Transform::Identity,
        Transform::Void,
        Transform::Bool,
        Transform::String,
        Transform::Dynamic,
        Transform::DynamicArray,
        Transform::DynamicObject,
    ];
    for (i, transform) in transforms.iter().enumerate() {
        assert_eq!(transform.code() as usize, i);
    }
}

#[test]
fn descriptors_of_numbers() {
    assert_eq!(u8::type_info(), Info::new(ArrayType::U8, false, Transform::Identity));
    assert_eq!(i8::type_info(), Info::new(ArrayType::I8, false, Transform::Identity));
    assert_eq!(u16::type_info(), Info::new(ArrayType::U16, false, Transform::Identity));
    assert_eq!(i16::type_info(), Info::new(ArrayType::I16, false, Transform::Identity));
    assert_eq!(u32::type_info(), Info::new(ArrayType::U32, false, Transform::Identity));
    assert_eq!(i32::type_info(), Info::new(ArrayType::I32, false, Transform::Identity));
    assert_eq!(u64::type_info(), Info::new(ArrayType::U64, false, Transform::AsU64));
    assert_eq!(i64::type_info(), Info::new(ArrayType::I64, false, Transform::AsI64));
    assert_eq!(Single::type_info(), Info::new(ArrayType::F32, false, Transform::Identity));
    assert_eq!(Double::type_info(), Info::new(ArrayType::F64, false, Transform::Identity));
    assert_eq!(bool::type_info(), Info::new(ArrayType::Absent, false, Transform::Bool));
    assert_eq!(<()>::type_info(), Info::new(ArrayType::Absent, false, Transform::Void));
    assert_eq!(Pointer::type_info(), Info::new(ArrayType::Absent, false, Transform::Identity));
    assert_eq!(<&u32>::type_info(), u32::type_info());
}

#[test]
fn descriptors_of_packed_tuples() {
    assert_eq!(U8Octet::type_info(), Info::new(ArrayType::Absent, false, Transform::U8Octet));
    assert_eq!(I8Octet::type_info(), Info::new(ArrayType::Absent, false, Transform::I8Octet));
    assert_eq!(U16Quartet::type_info(), Info::new(ArrayType::Absent, false, Transform::U16Quartet));
    assert_eq!(I16Quartet::type_info(), Info::new(ArrayType::Absent, false, Transform::I16Quartet));
    assert_eq!(U32Pair::type_info(), Info::new(ArrayType::Absent, false, Transform::U32Pair));
    assert_eq!(I32Pair::type_info(), Info::new(ArrayType::Absent, false, Transform::I32Pair));
    assert_eq!(F32Pair::type_info(), Info::new(ArrayType::Absent, false, Transform::F32Pair));
}

#[test]
fn descriptors_of_strings_and_arrays() {
    let text = Info::new(ArrayType::U8, true, Transform::String);
    assert_eq!(String::type_info(), text);
    assert_eq!(<&str>::type_info(), text);
    assert_eq!(Json::type_info(), text);
    assert_eq!(<Stash<String>>::type_info(), text);
    assert_eq!(<KeepAlive<String>>::type_info(), text);
    assert_eq!(<Vec<u16>>::type_info(), Info::new(ArrayType::U16, true, Transform::Identity));
    assert_eq!(<Vec<u64>>::type_info(), Info::new(ArrayType::U64, true, Transform::Identity));
    assert_eq!(<Vec<i64>>::type_info(), Info::new(ArrayType::I64, true, Transform::Identity));
    assert_eq!(<Vec<Single>>::type_info(), Info::new(ArrayType::F32, true, Transform::Identity));
    assert_eq!(<Vec<Double>>::type_info(), Info::new(ArrayType::F64, true, Transform::Identity));
}

#[test]
fn descriptors_of_dynamic_values() {
    assert_eq!(Dynamic::type_info(), Info::new(ArrayType::F64, true, Transform::Dynamic));
    assert_eq!(<Vec<Dynamic>>::type_info(), Info::new(ArrayType::F64, true, Transform::DynamicArray));
    assert_eq!(
        <Vec<(&'static str, Dynamic)>>::type_info(),
        Info::new(ArrayType::F64, true, Transform::DynamicObject)
    );
}

#[test]
fn descriptors_of_options_and_results() {
    let base = u32::type_info();
    assert_eq!(<Option<u32>>::type_info(), base.option());
    assert_eq!(<Result<u32, String>>::type_info(), base.result());
    assert_eq!(<Result<Option<u32>, String>>::type_info(), base.option().result());
    assert_eq!(<Option<Result<u32, ()>>>::type_info(), base.option().result());
    assert_eq!(<Option<String>>::type_info(), String::type_info().option());
}

#[test]
fn niches_go_with_the_shape_of_the_encoding() {
    assert_eq!(u8::niche(), Niche::HighBitsNaN);
    assert_eq!(i32::niche(), Niche::HighBitsNaN);
    assert_eq!(bool::niche(), Niche::HighBitsNaN);
    assert_eq!(<()>::niche(), Niche::HighBitsNaN);
    assert_eq!(Pointer::niche(), Niche::HighBitsNaN);
    assert_eq!(Single::niche(), Niche::HighBitsNaN);
    assert_eq!(Double::niche(), Niche::HighBitsNaN);
    assert_eq!(String::niche(), Niche::LowBitsOne);
    assert_eq!(<&str>::niche(), Niche::LowBitsOne);
    assert_eq!(<Vec<i16>>::niche(), Niche::LowBitsOne);
    assert_eq!(Dynamic::niche(), Niche::LowBitsOne);
    assert_eq!(<Vec<Dynamic>>::niche(), Niche::LowBitsOne);
    assert_eq!(Json::niche(), Niche::LowBitsOne);
    assert_eq!(<Stash<String>>::niche(), Niche::LowBitsOne);
    assert_eq!(<Stash<u32>>::niche(), Niche::HighBitsNaN);
    assert_eq!(<KeepAlive<Vec<u8>>>::niche(), Niche::LowBitsOne);
}

#[test]
fn sentinels() {
    assert_eq!(Niche::HighBitsNaN.new(0).value(), 0xfff8_0000_0000_0000);
    assert_eq!(Niche::HighBitsNaN.new(0x1234_5678).value(), 0xfff8_0000_1234_5678);
    assert_eq!(Niche::HighBitsNaN.new(u32::MAX).value(), 0xfff8_0000_ffff_ffff);
    assert_eq!(Niche::LowBitsOne.new(0).value(), 1);
    assert_eq!(Niche::LowBitsOne.new(0x1234_5678).value(), 0x1234_5678_0000_0001);
    assert!(f64::from_bits(Niche::HighBitsNaN.new(7).value()).is_nan());
}
