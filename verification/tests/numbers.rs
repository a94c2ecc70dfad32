use to_js::number::{Double, Single};
use to_js::pointer::Pointer;
use to_js::{ToWasm, Wasm};

fn double(w: Wasm) -> f64 {
    f64::from_bits(w.value())
}

#[test]
fn every_unsigned_byte_is_its_double() {
    for v in 0..=u8::MAX {
        assert_eq!(v.to_wasm().value(), (v as f64).to_bits());
    }
}

#[test]
fn every_signed_byte_is_its_double() {
    for v in i8::MIN..=i8::MAX {
        assert_eq!(v.to_wasm().value(), (v as f64).to_bits());
    }
}

#[test]
fn every_unsigned_16_bit_number_is_its_double() {
    for v in 0..=u16::MAX {
        assert_eq!(v.to_wasm().value(), (v as f64).to_bits());
    }
}

#[test]
fn every_signed_16_bit_number_is_its_double() {
    for v in i16::MIN..=i16::MAX {
        assert_eq!(v.to_wasm().value(), (v as f64).to_bits());
    }
}

#[test]
fn unsigned_32_bit_numbers_are_their_doubles() {
    let mut cases: Vec<u32> = vec![0, 1, 2, 3, 12, 42, 255, 256, 65535, 65536, u32::MAX, u32::MAX - 1];
    for k in 0..32 {
        let p = 1u32 << k;
        cases.push(p);
        cases.push(p - 1);
        cases.push(p | 1);
        cases.push(p.wrapping_mul(3));
    }
    let mut x: u32 = 0x9e37_79b9;
    for _ in 0..10_000 {
        x ^= x << 13;
        x ^= x >> 17;
        x ^= x << 5;
        cases.push(x);
    }
    for v in cases {
        assert_eq!(v.to_wasm().value(), (v as f64).to_bits(), "{}", v);
    }
}

#[test]
fn signed_32_bit_numbers_are_their_doubles() {
    let mut cases: Vec<i32> = vec![0, 1, -1, 2, -2, 42, -42, i32::MAX, i32::MIN, i32::MIN + 1];
    for k in 0..31 {
        let p = 1i32 << k;
        cases.push(p);
        cases.push(-p);
        cases.push(p - 1);
        cases.push(-(p - 1));
    }
    let mut x: u32 = 0x1234_5678;
    for _ in 0..10_000 {
        x ^= x << 13;
        x ^= x >> 17;
        x ^= x << 5;
        cases.push(x as i32);
    }
    for v in cases {
        assert_eq!(v.to_wasm().value(), (v as f64).to_bits(), "{}", v);
    }
}

#[test]
fn exact_doubles_of_small_numbers() {
    assert_eq!(0u32.to_wasm().value(), 0);
    assert_eq!(1u32.to_wasm().value(), 0x3ff0_0000_0000_0000);
    assert_eq!(3u32.to_wasm().value(), 0x4008_0000_0000_0000);
    assert_eq!(12u32.to_wasm().value(), 0x4028_0000_0000_0000);
    assert_eq!((-1i32).to_wasm().value(), 0xbff0_0000_0000_0000);
    assert_eq!(i32::MIN.to_wasm().value(), 0xc1e0_0000_0000_0000);
    assert_eq!(u32::MAX.to_wasm().value(), 0x41ef_ffff_ffe0_0000);
}

#[test]
fn sixty_four_bit_numbers_travel_as_their_bits() {
    assert_eq!(0u64.to_wasm().value(), 0);
    assert_eq!(u64::MAX.to_wasm().value(), u64::MAX);
    assert_eq!(0x0123_4567_89ab_cdefu64.to_wasm().value(), 0x0123_4567_89ab_cdef);
    assert_eq!((-1i64).to_wasm().value(), u64::MAX);
    assert_eq!(i64::MIN.to_wasm().value(), 0x8000_0000_0000_0000);
    assert_eq!(5i64.to_wasm().value(), 5);
    assert_eq!((-2i64).to_wasm().value() as i64, -2);
}

#[test]
fn truth_values_are_one_and_zero() {
    assert_eq!(double(true.to_wasm()), 1.0);
    assert_eq!(double(false.to_wasm()), 0.0);
    assert_eq!(false.to_wasm().value(), 0);
}

#[test]
fn empty_value_is_zero() {
    assert_eq!(().to_wasm().value(), 0);
}

#[test]
fn address_is_the_double_of_its_number() {
    assert_eq!(double(Pointer(0).to_wasm()), 0.0);
    assert_eq!(double(Pointer(1024).to_wasm()), 1024.0);
    assert_eq!(double(Pointer(u32::MAX).to_wasm()), 4294967295.0);
}

#[test]
fn double_travels_unchanged() {
    for x in [0.0f64, -0.0, 1.5, -2.25, f64::MAX, f64::MIN_POSITIVE, f64::INFINITY, f64::NEG_INFINITY] {
        assert_eq!(Double(x.to_bits()).to_wasm().value(), x.to_bits());
    }
    let nan = 0x7ff8_0000_0000_1234u64;
    assert_eq!(Double(nan).to_wasm().value(), nan);
}

#[test]
fn single_is_widened_to_the_double_of_the_same_value() {
    let mut cases: Vec<u32> = vec![
        0,
        0x8000_0000,
        1,
        2,
        0x007f_ffff,
        0x0040_0000,
        0x0080_0000,
        0x0080_0001,
        0x3f80_0000,
        0xbf80_0000,
        0x7f7f_ffff,
        0xff7f_ffff,
        0x7f80_0000,
        0xff80_0000,
        1.5f32.to_bits(),
        (-0.1f32).to_bits(),
        3.14159f32.to_bits(),
    ];
    for k in 0..23 {
        cases.push(1u32 << k);
        cases.push((1u32 << k) | 1);
        cases.push(0x8000_0000 | (1u32 << k));
    }
    let mut x: u32 = 0xdead_beef;
    for _ in 0..20_000 {
        x ^= x << 13;
        x ^= x >> 17;
        x ^= x << 5;
        cases.push(x);
    }
    for bits in cases {
        let single = f32::from_bits(bits);
        let wide = Single(bits).to_wasm().value();
        if single.is_nan() {
            assert!(f64::from_bits(wide).is_nan(), "{:#x}", bits);
            assert_eq!(wide >> 63, (bits >> 31) as u64);
        } else {
            assert_eq!(wide, (single as f64).to_bits(), "{:#x}", bits);
        }
    }
}

#[test]
fn single_nan_becomes_a_quiet_nan_with_the_same_fraction() {
    assert_eq!(Single(0x7fc0_0000).to_wasm().value(), 0x7ff8_0000_0000_0000);
    assert_eq!(Single(0x7f80_0001).to_wasm().value(), 0x7ff8_0000_2000_0000);
    assert_eq!(Single(0xffc0_0000).to_wasm().value(), 0xfff8_0000_0000_0000);
}

#[test]
fn reference_is_encoded_as_its_referent() {
    let v = 77u16;
    assert_eq!((&v).to_wasm(), v.to_wasm());
    assert_eq!((&&v).to_wasm(), v.to_wasm());
}

fn samples_of_64_bits() -> Vec<u64> {
    let mut cases: Vec<u64> = vec![0, 1, 2, 3, u64::MAX, u64::MAX - 1, u64::MAX - 1023, u64::MAX - 1024];
    for k in 0..64 {
        let p = 1u64 << k;
        for d in 0..4u64 {
            cases.push(p.wrapping_add(d));
            cases.push(p.wrapping_sub(d));
        }
        if k >= 2 {
            cases.push(p | (p >> 1));
            cases.push(p | (p >> 2));
        }
        if k >= 54 {
            let half = 1u64 << (k - 53);
            for head in [0u64, 1, 2, 3, 0x000f_ffff_ffff_fffe, 0x000f_ffff_ffff_ffff] {
                let base = p | (head << (k - 52));
                cases.push(base | half);
                cases.push(base | (half - 1));
                cases.push(base | (half + 1));
            }
        }
    }
    let mut x: u64 = 0x2545_f491_4f6c_dd1d;
    for _ in 0..50_000 {
        x ^= x << 13;
        x ^= x >> 7;
        x ^= x << 17;
        cases.push(x);
        cases.push(x >> (x % 64));
    }
    cases
}

#[test]
fn nearest_double_of_64_bits_is_what_the_machine_gives() {
    for v in samples_of_64_bits() {
        assert_eq!(to_js::double::double_from_u64(v), (v as f64).to_bits(), "{}", v);
        let s = v as i64;
        assert_eq!(to_js::double::double_from_i64(s), (s as f64).to_bits(), "{}", s);
    }
}

#[test]
fn sizes_are_their_nearest_doubles() {
    for v in samples_of_64_bits() {
        let size = v as usize;
        assert_eq!(size.to_wasm().value(), (size as f64).to_bits(), "{}", size);
        let signed = v as isize;
        assert_eq!(signed.to_wasm().value(), (signed as f64).to_bits(), "{}", signed);
    }
    assert_eq!(double(10usize.to_wasm()), 10.0);
    assert_eq!(double((-10isize).to_wasm()), -10.0);
}

#[test]
fn conversions_of_32_bits() {
    assert_eq!(to_js::double::double_from_u32(12), 12.0f64.to_bits());
    assert_eq!(to_js::double::double_from_i32(-12), (-12.0f64).to_bits());
    assert_eq!(to_js::double::widen_single(0.5f32.to_bits()), 0.5f64.to_bits());
}
