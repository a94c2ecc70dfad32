use to_js::stash::Buffer;
use to_js::{Arena, Dynamic, Info, IntoWasm, ToWasm, TypeInfo, Wasm};

fn doubles_at(arena: &Arena, w: Wasm) -> Vec<u64> {
    match arena.find(w.low()).expect("nothing at this address").buffer() {
        Buffer::F64(words) => {
            assert_eq!(words.len(), w.high() as usize);
            words.clone()
        }
        _ => panic!("not a buffer of doubles"),
    }
}

fn text_at(arena: &Arena, bits: u64) -> String {
    let w = Wasm::from_bits(bits);
    match arena.find(w.low()).expect("nothing at this address").buffer() {
        Buffer::U8(bytes) => {
            assert_eq!(bytes.len(), w.high() as usize);
            String::from_utf8(bytes.clone()).unwrap()
        }
        _ => panic!("not a buffer of bytes"),
    }
}

fn descriptor<T: TypeInfo>() -> u64 {
    T::type_info().to_wasm().value()
}

#[test]
fn dynamic_of_a_number() {
    let mut arena = Arena::new();
    let d = Dynamic::new(&mut arena, 7u32);
    assert_eq!(f64::from_bits(d.value().value()), 7.0);
    assert_eq!(d.descriptor(), u32::type_info().to_wasm());
    assert_eq!(arena.len(), 0);
}

#[test]
fn dynamic_of_a_string_keeps_the_string() {
    let mut arena = Arena::new();
    let d = Dynamic::new(&mut arena, String::from("abc"));
    assert_eq!(arena.len(), 1);
    assert_eq!(text_at(&arena, d.value().value()), "abc");
    assert_eq!(d.descriptor(), String::type_info().to_wasm());
}

#[test]
fn dynamic_by_itself_is_an_array_of_one() {
    let mut arena = Arena::new();
    let d = Dynamic::new(&mut arena, true);
    let w = d.into_wasm(&mut arena);
    assert_eq!(w.high(), 2);
    assert_eq!(doubles_at(&arena, w), vec![1.0f64.to_bits(), descriptor::<bool>()]);
}

#[test]
fn array_of_truth_value_number_and_string() {
    let mut arena = Arena::new();
    let items = vec![
        Dynamic::new(&mut arena, true),
        Dynamic::new(&mut arena, 12u32),
        Dynamic::new(&mut arena, String::from("twelve")),
    ];
    let w = items.into_wasm(&mut arena);
    assert_eq!(arena.len(), 2);
    assert_eq!(w.high(), 6);
    let words = doubles_at(&arena, w);
    assert_eq!(words.len(), 6);
    assert_eq!(f64::from_bits(words[0]), 1.0);
    assert_eq!(words[1], descriptor::<bool>());
    assert_eq!(words[1].to_le_bytes(), [0, 0, 0, 10, 11, 0, 0, 0]);
    assert_eq!(f64::from_bits(words[2]), 12.0);
    assert_eq!(words[3], descriptor::<u32>());
    assert_eq!(words[3].to_le_bytes(), [0, 0, 0, 4, 9, 0, 0, 0]);
    assert_eq!(text_at(&arena, words[4]), "twelve");
    assert_eq!(words[5], descriptor::<String>());
    assert_eq!(words[5].to_le_bytes(), [0, 0, 1, 0, 12, 0, 0, 0]);
}

#[test]
fn empty_dynamic_array() {
    let mut arena = Arena::new();
    let w = Vec::<Dynamic>::new().into_wasm(&mut arena);
    assert_eq!(w.high(), 0);
    assert_eq!(arena.len(), 1);
    assert_eq!(doubles_at(&arena, w), Vec::<u64>::new());
}

#[test]
fn nested_dynamic_array() {
    let mut arena = Arena::new();
    let inner = vec![Dynamic::new(&mut arena, 1u8), Dynamic::new(&mut arena, 2u8)];
    let nested = Dynamic::new(&mut arena, inner);
    assert_eq!(nested.descriptor(), <Vec<Dynamic>>::type_info().to_wasm());
    let outer = vec![nested, Dynamic::new(&mut arena, false)].into_wasm(&mut arena);
    let words = doubles_at(&arena, outer);
    assert_eq!(words.len(), 4);
    let inner_words = doubles_at(&arena, Wasm::from_bits(words[0]));
    assert_eq!(
        inner_words,
        vec![1.0f64.to_bits(), descriptor::<u8>(), 2.0f64.to_bits(), descriptor::<u8>()]
    );
}

#[test]
fn dynamic_object_alternates_keys_and_values() {
    let mut arena = Arena::new();
    let entries: Vec<(&'static str, Dynamic)> = vec![
        ("width", Dynamic::new(&mut arena, 3u32)),
        ("name", Dynamic::new(&mut arena, String::from("box"))),
    ];
    assert_eq!(arena.len(), 1);
    let w = entries.into_wasm(&mut arena);
    assert_eq!(arena.len(), 4);
    assert_eq!(w.high(), 8);
    let words = doubles_at(&arena, w);
    assert_eq!(text_at(&arena, words[0]), "width");
    assert_eq!(words[1], descriptor::<&str>());
    assert_eq!(f64::from_bits(words[2]), 3.0);
    assert_eq!(words[3], descriptor::<u32>());
    assert_eq!(text_at(&arena, words[4]), "name");
    assert_eq!(words[5], descriptor::<&str>());
    assert_eq!(text_at(&arena, words[6]), "box");
    assert_eq!(words[7], descriptor::<String>());
}

#[test]
fn empty_dynamic_object() {
    let mut arena = Arena::new();
    let w = Vec::<(&'static str, Dynamic)>::new().into_wasm(&mut arena);
    assert_eq!(w.high(), 0);
    assert_eq!(arena.len(), 1);
}

#[test]
fn dynamic_object_as_a_dynamic_value() {
    let mut arena = Arena::new();
    let entries: Vec<(&'static str, Dynamic)> = vec![("k", Dynamic::new(&mut arena, ()))];
    let d = Dynamic::new(&mut arena, entries);
    assert_eq!(d.descriptor().value().to_le_bytes(), [0, 0, 1, 9, 15, 0, 0, 0]);
    let words = doubles_at(&arena, d.value());
    assert_eq!(words.len(), 4);
    assert_eq!(text_at(&arena, words[0]), "k");
    assert_eq!(words[2], 0);
    assert_eq!(words[3], descriptor::<()>());
}

#[test]
fn option_of_dynamic_array() {
    let mut arena = Arena::new();
    let none = None::<Vec<Dynamic>>.into_wasm(&mut arena);
    assert_eq!(none.value(), 1);
    let some = Some(vec![Dynamic::new(&mut arena, 5i8)]).into_wasm(&mut arena);
    assert_eq!(doubles_at(&arena, some), vec![5.0f64.to_bits(), descriptor::<i8>()]);
}

#[test]
fn area_is_returned_with_its_descriptor() {
    fn area(w: u32, h: u32) -> u32 {
        w * h
    }
    let mut arena = Arena::new();
    arena.clear();
    let returned = f64::from_bits(area(3, 4).into_wasm(&mut arena).value());
    assert_eq!(returned, 12.0);
    let info: Info = <u32 as TypeInfo>::type_info();
    assert_eq!(info.to_wasm().value().to_le_bytes(), [0, 0, 0, 4, 9, 0, 0, 0]);
    assert!(!info.is_array && !info.is_option && !info.is_result);
}
