use to_js::number::{Double, Single};
use to_js::stash::Buffer;
use to_js::{clear_keepalive, clear_stash, Arena, IntoWasm, Json, KeepAlive, Stash, ToWasm};

fn bytes_at(arena: &Arena, addr: u32) -> Vec<u8> {
    match arena.find(addr).expect("nothing at this address").buffer() {
        Buffer::U8(bytes) => bytes.clone(),
        _ => panic!("not a buffer of bytes"),
    }
}

#[test]
fn new_arena_is_empty() {
    let arena = Arena::new();
    assert_eq!(arena.len(), 0);
    assert!(arena.find(0).is_none());
    assert!(arena.find(1).is_none());
}

#[test]
fn push_returns_address_and_length() {
    let mut arena = Arena::new();
    let w = arena.push(Buffer::U8(vec![10, 20, 30]));
    assert_eq!(arena.len(), 1);
    assert_eq!(w.high(), 3);
    assert_eq!(w.value() >> 32, 3);
    assert_eq!(bytes_at(&arena, w.low()), vec![10, 20, 30]);
}

#[test]
fn address_is_where_the_elements_lie_in_the_arena() {
    let mut arena = Arena::new();
    let w = arena.push(Buffer::U32(vec![7, 8, 9, 10]));
    let entry = arena.find(w.low()).unwrap();
    assert_eq!(entry.addr(), w.low());
    match entry.buffer() {
        Buffer::U32(v) => {
            assert_eq!(v.as_ptr() as usize as u32, w.low());
            assert_eq!(v, &vec![7, 8, 9, 10]);
        }
        _ => panic!("not a buffer of 32-bit numbers"),
    }
}

#[test]
fn address_of_a_string_is_where_its_bytes_lie() {
    let mut arena = Arena::new();
    let text = String::from("a string that is long enough to live on the heap");
    let before = text.as_ptr() as usize as u32;
    let w = text.into_wasm(&mut arena);
    assert_eq!(w.low(), before);
    match arena.find(w.low()).unwrap().buffer() {
        Buffer::U8(v) => assert_eq!(v.as_ptr() as usize as u32, before),
        _ => panic!("not a buffer of bytes"),
    }
}

#[test]
fn several_buffers_are_kept_side_by_side() {
    let mut arena = Arena::new();
    let a = arena.push(Buffer::U8(vec![1; 64]));
    let b = arena.push(Buffer::U8(vec![2; 32]));
    let c = arena.push(Buffer::I16(vec![-3; 16]));
    assert_eq!(arena.len(), 3);
    assert_ne!(a.low(), b.low());
    assert_ne!(b.low(), c.low());
    assert_eq!(bytes_at(&arena, a.low()), vec![1; 64]);
    assert_eq!(bytes_at(&arena, b.low()), vec![2; 32]);
    assert_eq!((a.high(), b.high(), c.high()), (64, 32, 16));
}

#[test]
fn clear_makes_every_entry_unreachable() {
    let mut arena = Arena::new();
    let a = arena.push(Buffer::U8(vec![1, 2, 3]));
    let b = "hello".into_wasm(&mut arena);
    assert_eq!(arena.len(), 2);
    arena.clear();
    assert_eq!(arena.len(), 0);
    assert!(arena.find(a.low()).is_none());
    assert!(arena.find(b.low()).is_none());
}

#[test]
fn push_after_clear_starts_anew() {
    let mut arena = Arena::new();
    arena.push(Buffer::U8(vec![9; 100]));
    clear_stash(&mut arena);
    let w = arena.push(Buffer::U8(vec![4, 5]));
    assert_eq!(arena.len(), 1);
    assert_eq!(bytes_at(&arena, w.low()), vec![4, 5]);
}

#[test]
fn clear_stash_empties_the_arena() {
    let mut arena = Arena::new();
    String::from("abc").into_wasm(&mut arena);
    vec![1u16, 2, 3].into_wasm(&mut arena);
    clear_stash(&mut arena);
    assert_eq!(arena.len(), 0);
}

#[test]
fn owned_string_is_kept_as_its_bytes() {
    let mut arena = Arena::new();
    let w = String::from("héllo").into_wasm(&mut arena);
    assert_eq!(w.high(), 6);
    assert_eq!(bytes_at(&arena, w.low()), "héllo".as_bytes().to_vec());
}

#[test]
fn borrowed_string_is_copied() {
    let mut arena = Arena::new();
    let w = "xyz".into_wasm(&mut arena);
    assert_eq!(w.high(), 3);
    assert_eq!(bytes_at(&arena, w.low()), b"xyz".to_vec());
}

#[test]
fn typed_arrays_keep_kind_and_elements() {
    let mut arena = Arena::new();
    let a = vec![1u8, 2].into_wasm(&mut arena);
    let b = vec![-1i8, 2].into_wasm(&mut arena);
    let c = vec![500u16].into_wasm(&mut arena);
    let d = vec![-500i16, 3, 4].into_wasm(&mut arena);
    let e = vec![70_000u32].into_wasm(&mut arena);
    let f = vec![-70_000i32].into_wasm(&mut arena);
    let g = vec![u64::MAX, 0].into_wasm(&mut arena);
    let h = vec![i64::MIN].into_wasm(&mut arena);
    let x = vec![Single(1.5f32.to_bits())].into_wasm(&mut arena);
    let y = vec![Double(2.5f64.to_bits()), Double((-0.0f64).to_bits())].into_wasm(&mut arena);
    assert_eq!(arena.len(), 10);
    assert_eq!(
        [a.high(), b.high(), c.high(), d.high(), e.high(), f.high(), g.high(), h.high(), x.high(), y.high()],
        [2, 2, 1, 3, 1, 1, 2, 1, 1, 2]
    );
    assert!(matches!(arena.find(a.low()).unwrap().buffer(), Buffer::U8(v) if v == &vec![1, 2]));
    assert!(matches!(arena.find(b.low()).unwrap().buffer(), Buffer::I8(v) if v == &vec![-1, 2]));
    assert!(matches!(arena.find(c.low()).unwrap().buffer(), Buffer::U16(v) if v == &vec![500]));
    assert!(matches!(arena.find(d.low()).unwrap().buffer(), Buffer::I16(v) if v == &vec![-500, 3, 4]));
    assert!(matches!(arena.find(e.low()).unwrap().buffer(), Buffer::U32(v) if v == &vec![70_000]));
    assert!(matches!(arena.find(f.low()).unwrap().buffer(), Buffer::I32(v) if v == &vec![-70_000]));
    assert!(matches!(arena.find(g.low()).unwrap().buffer(), Buffer::U64(v) if v == &vec![u64::MAX, 0]));
    assert!(matches!(arena.find(h.low()).unwrap().buffer(), Buffer::I64(v) if v == &vec![i64::MIN]));
    assert!(matches!(arena.find(x.low()).unwrap().buffer(), Buffer::F32(v) if v == &vec![1.5f32.to_bits()]));
    assert!(matches!(
        arena.find(y.low()).unwrap().buffer(),
        Buffer::F64(v) if v == &vec![2.5f64.to_bits(), (-0.0f64).to_bits()]
    ));
}

#[test]
fn empty_array_has_length_zero() {
    let mut arena = Arena::new();
    let w = Vec::<u32>::new().into_wasm(&mut arena);
    assert_eq!(w.high(), 0);
    assert_eq!(arena.len(), 1);
}

#[test]
fn buffer_length() {
    assert_eq!(Buffer::U8(vec![]).len(), 0);
    assert_eq!(Buffer::F64(vec![1, 2, 3]).len(), 3);
    assert_eq!(Buffer::from_string(String::from("añb")).len(), 4);
}

#[test]
fn stash_remembers_the_encoding() {
    let mut arena = Arena::new();
    let stash = Stash::new(&mut arena, String::from("kept"));
    assert_eq!(arena.len(), 1);
    let w = stash.to_wasm();
    assert_eq!(w, stash.to_wasm());
    assert_eq!(w.high(), 4);
    assert_eq!(bytes_at(&arena, w.low()), b"kept".to_vec());
    let mut other = Arena::new();
    assert_eq!(stash.into_wasm(&mut other), w);
    assert_eq!(other.len(), 0);
}

#[test]
fn stash_of_a_number_keeps_nothing() {
    let mut arena = Arena::new();
    let stash = Stash::new(&mut arena, 12u32);
    assert_eq!(arena.len(), 0);
    assert_eq!(f64::from_bits(stash.to_wasm().value()), 12.0);
}

#[test]
fn keepalive_has_an_arena_of_its_own() {
    let mut stash = Arena::new();
    let mut keep = Arena::new();
    let alive = KeepAlive::new(&mut keep, vec![1u8, 2, 3]);
    String::from("short-lived").into_wasm(&mut stash);
    clear_stash(&mut stash);
    assert_eq!(stash.len(), 0);
    assert_eq!(keep.len(), 1);
    let w = alive.to_wasm();
    assert_eq!(w.high(), 3);
    assert_eq!(bytes_at(&keep, w.low()), vec![1, 2, 3]);
    clear_keepalive(&mut keep);
    assert_eq!(keep.len(), 0);
    assert!(keep.find(w.low()).is_none());
}

#[test]
fn json_text_travels_as_a_string() {
    let mut arena = Arena::new();
    let json = Json::new(&mut arena, String::from("{\"a\":1}"));
    let w = json.to_wasm();
    assert_eq!(w.high(), 7);
    assert_eq!(bytes_at(&arena, w.low()), b"{\"a\":1}".to_vec());
}

#[test]
fn find_gives_the_entry_that_came_last() {
    let mut arena = Arena::new();
    let first = Vec::<u8>::new().into_wasm(&mut arena);
    let second = Vec::<u8>::new().into_wasm(&mut arena);
    assert_eq!(first.low(), second.low());
    assert_eq!(arena.len(), 2);
    assert_eq!(bytes_at(&arena, first.low()), Vec::<u8>::new());
}

#[test]
fn boxed_and_borrowed_arrays_are_kept_too() {
    let mut arena = Arena::new();
    let boxed: Box<[u16]> = vec![1u16, 2, 3].into_boxed_slice();
    let at = boxed.as_ptr() as usize as u32;
    let a = boxed.into_wasm(&mut arena);
    assert_eq!(a.low(), at);
    assert_eq!(a.high(), 3);
    let owner = vec![-5i32, 6];
    let b = owner.as_slice().into_wasm(&mut arena);
    let c = (&owner).into_wasm(&mut arena);
    assert_eq!((b.high(), c.high()), (2, 2));
    assert_ne!(b.low(), owner.as_ptr() as usize as u32);
    assert!(matches!(arena.find(a.low()).unwrap().buffer(), Buffer::U16(v) if v == &vec![1, 2, 3]));
    assert!(matches!(arena.find(b.low()).unwrap().buffer(), Buffer::I32(v) if v == &owner));
    assert!(matches!(arena.find(c.low()).unwrap().buffer(), Buffer::I32(v) if v == &owner));
}
