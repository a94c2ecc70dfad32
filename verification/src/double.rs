//! IEEE-754 doubles as bit patterns, and the doubles of whole numbers.
//!
//! A double has one sign bit, eleven exponent bits and fifty-two fraction
//! bits. With exponent field `e` from 1 to 2046 and fraction `f` it stands
//! for `(2^52 + f) * 2^(e - 1075)`, negated where the sign bit is set. The
//! functions here work on the fields with shifts and masks;
//! [`lemma_magnitude_is_value`] ties them to that value.

use vstd::prelude::*;
use vstd::arithmetic::power2::{
    lemma2_to64, lemma2_to64_rest, lemma_pow2_pos, lemma_pow2_strictly_increases,
    lemma_pow2_unfold, pow2,
};
use vstd::bits::{
    lemma_u128_shr_is_div, lemma_u64_pow2_no_overflow, lemma_u64_shl_is_mul, lemma_u64_shr_is_div,
};
use vstd::std_specs::bits::{axiom_u64_leading_zeros, u64_leading_zeros};

verus! {

/// The fifty-two fraction bits.
pub const FRACTION_MASK: u64 = 0x000f_ffff_ffff_ffff;

/// The bit above the fraction, which a normal double leaves implicit.
pub const HIDDEN_BIT: u64 = 0x0010_0000_0000_0000;

/// The sign bit.
pub const SIGN_BIT: u64 = 0x8000_0000_0000_0000;

/// The exponent field of `bits`.
pub open spec fn exponent(bits: u64) -> u64 {
    (bits >> 52) & 0x7ff
}

/// The fraction field of `bits`.
pub open spec fn fraction(bits: u64) -> u64 {
    bits & FRACTION_MASK
}

/// Whether `bits` is a NaN: exponent all ones and a fraction that is not zero.
pub open spec fn is_nan(bits: u64) -> bool {
    exponent(bits) == 0x7ff && fraction(bits) != 0
}

/// The absolute value of the double `bits`, where that is a whole number
/// up to 2^64; `None` for fractions, larger numbers, infinities and NaNs.
pub open spec fn magnitude(bits: u64) -> Option<int> {
    let e = exponent(bits);
    let significand = fraction(bits) | HIDDEN_BIT;
    if e == 0 && fraction(bits) == 0 {
        Some(0)
    } else if 1023 <= e <= 1075 {
        let drop = (1075 - e) as u64;
        if (significand >> drop) << drop == significand {
            Some((significand >> drop) as int)
        } else {
            None
        }
    } else if 1075 < e <= 1087 {
        Some(((significand as u128) << ((e - 1075) as u128)) as int)
    } else {
        None
    }
}

/// The whole number that the double `bits` stands for, if it is one.
/// Both zeros stand for 0.
pub open spec fn double_to_int(bits: u64) -> Option<int> {
    match magnitude(bits) {
        Some(m) => Some(
            if bits & SIGN_BIT != 0 {
                -m
            } else {
                m
            },
        ),
        None => None,
    }
}

/// Shifting a number below 2^53 up by at most twelve places multiplies it
/// by that power of two.
proof fn lemma_shift_up(x: u64, d: nat)
    requires
        x < 0x20_0000_0000_0000,
        d <= 12,
    ensures
        (x as u128) << (d as u128) == x * pow2(d),
    decreases d,
{
    let wide = x as u128;
    let places = d as u128;
    if d == 0 {
        lemma2_to64();
    } else {
        lemma_shift_up(x, (d - 1) as nat);
        lemma_pow2_unfold(d);
        assert(x * pow2(d) == 2 * (x * pow2((d - 1) as nat))) by (nonlinear_arith)
            requires
                pow2(d) == 2 * pow2((d - 1) as nat),
        ;
    }
    assert(if places == 0 {
        wide << places == wide
    } else {
        wide << places == 2 * (wide << ((places - 1) as u128))
    }) by (bit_vector)
        requires
            wide < 0x20_0000_0000_0000,
            places <= 12,
    ;
}

/// What [`magnitude`] gives is the value of the double: the significand
/// times two to the power of the scale.
pub proof fn lemma_magnitude_is_value(bits: u64)
    ensures
        match magnitude(bits) {
            Some(m) => if scale(bits) < 0 {
                m * pow2((-scale(bits)) as nat) == significand(bits)
            } else {
                m == significand(bits) * pow2(scale(bits) as nat)
            },
            None => true,
        },
{
    let e = exponent(bits);
    let whole = fraction(bits) | HIDDEN_BIT;
    assert(e <= 0x7ff && 0x10_0000_0000_0000 <= whole < 0x20_0000_0000_0000) by (bit_vector)
        requires
            e == (bits >> 52) & 0x7ff,
            whole == (bits & FRACTION_MASK) | HIDDEN_BIT,
    ;
    if e == 0 && fraction(bits) == 0 {
        assert(0 * pow2(1074) == 0) by (nonlinear_arith);
    } else if 1023 <= e <= 1075 {
        let drop = (1075 - e) as u64;
        let m = whole >> drop;
        if (m << drop) == whole {
            lemma_u64_shr_is_div(whole, drop);
            lemma_pow2_pos(drop as nat);
            let p = pow2(drop as nat) as int;
            assert(m * p <= whole) by (nonlinear_arith)
                requires
                    m == whole as int / p,
                    p > 0,
                    whole >= 0,
            ;
            lemma_u64_shl_is_mul(m, drop);
            if drop == 0 {
                lemma2_to64();
            }
        }
    } else if 1075 < e <= 1087 {
        lemma_shift_up(whole, (e - 1075) as nat);
    }
}

/// The position of the highest bit that is set in `v`.
pub open spec fn top_bit(v: u64) -> u64
    recommends
        v != 0,
{
    (63 - u64_leading_zeros(v)) as u64
}

/// The double that stands for `v` exactly.
pub open spec fn double_of_nat(v: u64) -> u64
    recommends
        v < 0x20_0000_0000_0000,
{
    if v == 0 {
        0
    } else {
        let k = top_bit(v);
        ((1023 + k) as u64) << 52 | ((v << ((52 - k) as u64)) & FRACTION_MASK)
    }
}

/// The double that stands for `n` exactly.
pub open spec fn double_of_int(n: int) -> u64
    recommends
        -0x20_0000_0000_0000 < n < 0x20_0000_0000_0000,
{
    if n < 0 {
        SIGN_BIT | double_of_nat((-n) as u64)
    } else {
        double_of_nat(n as u64)
    }
}

/// The highest set bit of a number that is not zero is the only bit left
/// after shifting it down to position 0.
pub proof fn lemma_top_bit(v: u64)
    requires
        v != 0,
    ensures
        top_bit(v) < 64,
        v >> top_bit(v) == 1,
{
    axiom_u64_leading_zeros(v);
    let z = u64_leading_zeros(v);
    let k = (63 - z) as u64;
    let above = (64 - z) as u64;
    assert(v >> above == 0);
    assert((v >> k) & 1 != 0);
    assert(v >> k == 1) by (bit_vector)
        requires
            k < 64,
            above == k + 1,
            v >> above == 0,
            (v >> k) & 1 != 0,
    ;
}

/// The highest set bit of `v` is at `k` where `v` lies from 2^k up to,
/// but not at, 2^(k+1).
pub proof fn lemma_top_bit_bounds(v: u64)
    requires
        v != 0,
    ensures
        pow2(top_bit(v) as nat) <= v < 2 * pow2(top_bit(v) as nat),
{
    lemma_top_bit(v);
    let k = top_bit(v);
    lemma_u64_shr_is_div(v, k);
    lemma_pow2_pos(k as nat);
    let p = pow2(k as nat) as int;
    assert(p <= v < 2 * p) by (nonlinear_arith)
        requires
            v as int / p == 1,
            p > 0,
    ;
}

/// A number below 2^n has its highest set bit below `n`.
pub proof fn lemma_top_bit_below(v: u64, n: nat)
    requires
        v != 0,
        v < pow2(n),
    ensures
        top_bit(v) < n,
{
    lemma_top_bit_bounds(v);
    let k = top_bit(v) as nat;
    if k > n {
        lemma_pow2_strictly_increases(n, k);
    }
}

/// A number from 2^n on has its highest set bit at `n` or above.
pub proof fn lemma_top_bit_from(v: u64, n: nat)
    requires
        v >= pow2(n),
    ensures
        top_bit(v) >= n,
{
    lemma_pow2_pos(n);
    lemma_top_bit_bounds(v);
    let k = top_bit(v) as nat;
    if k + 1 < n {
        lemma_pow2_strictly_increases(k + 1, n);
    }
    if k < n {
        lemma_pow2_unfold(k + 1);
    }
}

/// A whole number below 2^53 in absolute value can be read back from its double.
pub proof fn lemma_double_int_roundtrip(n: int)
    requires
        -0x20_0000_0000_0000 < n < 0x20_0000_0000_0000,
    ensures
        double_to_int(double_of_int(n)) == Some(n),
{
    let v: u64 = if n < 0 {
        (-n) as u64
    } else {
        n as u64
    };
    let d = double_of_nat(v);
    lemma_nat_roundtrip(v);
    assert(d & SIGN_BIT == 0 && (SIGN_BIT | d) & SIGN_BIT != 0 && exponent(SIGN_BIT | d)
        == exponent(d) && fraction(SIGN_BIT | d) == fraction(d)) by (bit_vector)
        requires
            d >> 63 == 0,
    ;
}

/// The double of a number below 2^53 is not negative, has an exponent field
/// of at most 1075, and stands for that number.
pub proof fn lemma_nat_roundtrip(v: u64)
    requires
        v < 0x20_0000_0000_0000,
    ensures
        magnitude(double_of_nat(v)) == Some(v as int),
        double_of_nat(v) >> 63 == 0,
        exponent(double_of_nat(v)) <= 1075,
{
    let d = double_of_nat(v);
    if v == 0 {
        assert(0u64 >> 63 == 0 && (0u64 >> 52) & 0x7ff == 0 && 0u64 & FRACTION_MASK == 0)
            by (bit_vector);
    } else {
        lemma_top_bit(v);
        let k = top_bit(v);
        lemma2_to64_rest();
        lemma_top_bit_below(v, 53);
        let shift = (52 - k) as u64;
        let biased = (1023 + k) as u64;
        let drop = (1075 - biased) as u64;
        assert(drop == shift);
        assert({
            let d = biased << 52 | ((v << shift) & FRACTION_MASK);
            let significand = (d & FRACTION_MASK) | HIDDEN_BIT;
            &&& d >> 63 == 0
            &&& (d >> 52) & 0x7ff == biased
            &&& significand == v << shift
            &&& (significand >> shift) << shift == significand
            &&& significand >> shift == v
        }) by (bit_vector)
            requires
                k <= 52,
                v >> k == 1,
                shift == 52 - k,
                biased == 1023 + k,
        ;
    }
}

/// The double of a number that fits in 32 bits.
pub fn double_from_u32(v: u32) -> (bits: u64)
    ensures
        bits == double_of_nat(v as u64),
{
    if v == 0 {
        return 0;
    }
    let wide = v as u64;
    proof {
        lemma2_to64();
        lemma_top_bit_below(wide, 32);
    }
    let k: u64 = (63 - wide.leading_zeros()) as u64;
    let biased: u64 = 1023 + k;
    (biased << 52) | ((wide << (52 - k)) & FRACTION_MASK)
}

/// The double of a signed number that fits in 32 bits.
pub fn double_from_i32(v: i32) -> (bits: u64)
    ensures
        bits == double_of_int(v as int),
{
    if v < 0 {
        let magnitude: u32 = (-(v as i64)) as u32;
        SIGN_BIT | double_from_u32(magnitude)
    } else {
        double_from_u32(v as u32)
    }
}

/// The double nearest to `v`. Up to 2^53 that is the double of `v` itself.
/// Above, the lowest bits of `v` do not fit into the fraction: they are
/// rounded off, upwards from the half on, and at the half itself to the
/// neighbour with an even significand.
pub open spec fn double_nearest(v: u64) -> u64 {
    if v == 0 {
        0
    } else {
        let k = top_bit(v);
        if k <= 52 {
            double_of_nat(v)
        } else {
            let drop = (k - 52) as u64;
            let head = v >> drop;
            let rest = v & (((1u64 << drop) - 1) as u64);
            let half = 1u64 << ((drop - 1) as u64);
            let up: u64 = if rest > half || (rest == half && head & 1 == 1) {
                1
            } else {
                0
            };
            (((((1023 + k) as u64) << 52) | (head & FRACTION_MASK)) + up) as u64
        }
    }
}

/// The double nearest to `n`.
pub open spec fn double_nearest_int(n: int) -> u64
    recommends
        -0x8000_0000_0000_0000 <= n <= 0xffff_ffff_ffff_ffff,
{
    if n < 0 {
        SIGN_BIT | double_nearest((-n) as u64)
    } else {
        double_nearest(n as u64)
    }
}

/// Below 2^53 the nearest double is the double of the number itself.
pub proof fn lemma_nearest_is_exact(n: int)
    requires
        -0x20_0000_0000_0000 < n < 0x20_0000_0000_0000,
    ensures
        double_nearest_int(n) == double_of_int(n),
{
    let v: u64 = if n < 0 {
        (-n) as u64
    } else {
        n as u64
    };
    if v != 0 {
        lemma2_to64_rest();
        lemma_top_bit_below(v, 53);
    }
}

/// An exponent field of at most 1086 over any fraction makes a double
/// below 2^64.
proof fn lemma_fields_bound(biased: u64, head: u64)
    requires
        biased <= 1086,
    ensures
        (biased << 52) | (head & FRACTION_MASK) < 0x43f0_0000_0000_0000,
        ((biased << 52) | (head & FRACTION_MASK)) >> 52 == biased,
{
    assert(((biased << 52) | (head & FRACTION_MASK) < 0x43f0_0000_0000_0000) && (((biased << 52)
        | (head & FRACTION_MASK)) >> 52 == biased)) by (bit_vector)
        requires
            biased <= 1086,
    ;
}

/// The parts of a number from 2^53 on, as the nearest double is made of
/// them: the 53 highest bits, and what is rounded off.
proof fn lemma_nearest_parts(v: u64, k: u64, drop: u64, head: u64, rest: u64, half: u64)
    requires
        53 <= k <= 63,
        v >> k == 1,
        drop == k - 52,
        head == v >> drop,
        rest == v & (((1u64 << drop) - 1) as u64),
        half == 1u64 << ((drop - 1) as u64),
    ensures
        0x10_0000_0000_0000 <= head < 0x20_0000_0000_0000,
        1 <= half,
        rest < 2 * half,
        (1u64 << drop) == 2 * half,
        (v as u128) == ((head as u128) << (drop as u128)) + (rest as u128),
{
    assert(0x10_0000_0000_0000 <= head < 0x20_0000_0000_0000 && 1 <= half && rest < 2 * half && (
    1u64 << drop) == 2 * half && (v as u128) == ((head as u128) << (drop as u128)) + (
    rest as u128)) by (bit_vector)
        requires
            53 <= k <= 63,
            v >> k == 1,
            drop == k - 52,
            head == v >> drop,
            rest == v & (((1u64 << drop) - 1) as u64),
            half == 1u64 << ((drop - 1) as u64),
    ;
}

/// The whole number that a double stands for whose exponent field is
/// `biased`, or one more where rounding up has carried into it.
proof fn lemma_nearest_value(r: u64, biased: u64, head: u64, up: u64, drop: u64)
    requires
        1 <= drop <= 11,
        biased == 1075 + drop,
        0x10_0000_0000_0000 <= head < 0x20_0000_0000_0000,
        up <= 1,
        r == ((biased << 52) | (head & FRACTION_MASK)) + up,
    ensures
        magnitude(r) == Some((((head + up) as u128) << (drop as u128)) as int),
        ((head + up) as u128) << (drop as u128) == ((head as u128) << (drop as u128)) + ((
        up as u128) << (drop as u128)),
{
    let sum: u64 = (head + up) as u64;
    let e = exponent(r);
    let significand = fraction(r) | HIDDEN_BIT;
    assert(if sum < 0x20_0000_0000_0000 {
        e == biased && significand == sum
    } else {
        e == biased + 1 && significand == 0x10_0000_0000_0000
    }) by (bit_vector)
        requires
            1076 <= biased <= 1086,
            0x10_0000_0000_0000 <= head < 0x20_0000_0000_0000,
            up <= 1,
            sum == head + up,
            r == ((biased << 52) | (head & FRACTION_MASK)) + up,
            e == (r >> 52) & 0x7ff,
            significand == (r & FRACTION_MASK) | HIDDEN_BIT,
    ;
    let lift: u128 = (e - 1075) as u128;
    assert((significand as u128) << lift == (sum as u128) << (drop as u128)) by (bit_vector)
        requires
            1 <= drop <= 11,
            (lift == drop as u128 && significand == sum) || (lift == (drop + 1) as u128
                && significand == 0x10_0000_0000_0000 && sum == 0x20_0000_0000_0000),
    ;
    assert((sum as u128) << (drop as u128) == ((head as u128) << (drop as u128)) + ((up as u128)
        << (drop as u128))) by (bit_vector)
        requires
            1 <= drop <= 11,
            head < 0x20_0000_0000_0000,
            up <= 1,
            sum == head + up,
    ;
}

/// From 2^53 on, the nearest double is a whole number that lies at most
/// half a step from `v`, where a step is the distance between the doubles
/// around `v`; where it lies half a step away, it is an even number of steps.
pub proof fn lemma_nearest_is_near(v: u64)
    requires
        v >= 0x20_0000_0000_0000,
    ensures
        ({
            let half = 1u64 << ((top_bit(v) - 53) as u64);
            match magnitude(double_nearest(v)) {
                Some(m) => {
                    &&& m - v <= half
                    &&& v - m <= half
                    &&& (m - v == half || v - m == half) ==> (m / (2 * half)) % 2 == 0
                },
                None => false,
            }
        }),
{
    lemma_top_bit(v);
    let k = top_bit(v);
    lemma2_to64_rest();
    lemma_top_bit_from(v, 53);
    let drop: u64 = (k - 52) as u64;
    let biased: u64 = (1023 + k) as u64;
    let head = v >> drop;
    let rest = v & (((1u64 << drop) - 1) as u64);
    let half = 1u64 << ((drop - 1) as u64);
    let up: u64 = if rest > half || (rest == half && head & 1 == 1) {
        1
    } else {
        0
    };
    lemma_nearest_parts(v, k, drop, head, rest, half);
    let base = (biased << 52) | (head & FRACTION_MASK);
    lemma_fields_bound(biased, head);
    let r = double_nearest(v);
    assert(r == base + up);
    lemma_nearest_value(r, biased, head, up, drop);
    let m = ((head + up) as u128) << (drop as u128);
    let high = (head as u128) << (drop as u128);
    let step = (up as u128) << (drop as u128);
    assert(step == up * 2 * half && (head & 1 == 1 || head & 1 == 0)) by (bit_vector)
        requires
            1 <= drop <= 11,
            up <= 1,
            half == 1u64 << ((drop - 1) as u64),
            step == (up as u128) << (drop as u128),
    ;
    assert(m == high + up * 2 * half);
    assert(v == high + rest);
    if m - v == half || v - m == half {
        assert(rest == half);
        let sum: u64 = (head + up) as u64;
        assert(sum & 1 == 0) by (bit_vector)
            requires
                head < 0x20_0000_0000_0000,
                sum == head + up,
                (up == 1 && head & 1 == 1) || (up == 0 && head & 1 == 0),
        ;
        assert(m >> (drop as u128) == sum && sum % 2 == 0) by (bit_vector)
            requires
                1 <= drop <= 11,
                sum <= 0x20_0000_0000_0000,
                sum & 1 == 0,
                m == (sum as u128) << (drop as u128),
        ;
        lemma_u128_shr_is_div(m, drop as u128);
        lemma_u64_pow2_no_overflow(drop as nat);
        lemma_u64_shl_is_mul(1, drop);
        assert(pow2(drop as nat) == 2 * half);
    }
}

/// The nearest double of a number of 64 bits is a finite number.
pub proof fn lemma_nearest_is_finite(v: u64)
    ensures
        exponent(double_nearest(v)) <= 1087,
        exponent(SIGN_BIT | double_nearest(v)) <= 1087,
{
    let r = double_nearest(v);
    if v != 0 {
        lemma_top_bit(v);
        let k = top_bit(v);
        let biased: u64 = (1023 + k) as u64;
        if k <= 52 {
            lemma_fields_bound(biased, v << ((52 - k) as u64));
        } else {
            let drop: u64 = (k - 52) as u64;
            lemma_fields_bound(biased, v >> drop);
        }
    }
    assert((r >> 52) & 0x7ff <= 1087 && ((SIGN_BIT | r) >> 52) & 0x7ff <= 1087) by (bit_vector)
        requires
            r <= 0x43f0_0000_0000_0000,
    ;
}

/// The double nearest to a number of 64 bits.
pub fn double_from_u64(v: u64) -> (bits: u64)
    ensures
        bits == double_nearest(v),
{
    if v == 0 {
        return 0;
    }
    proof {
        lemma_top_bit(v);
    }
    let k: u64 = (63 - v.leading_zeros()) as u64;
    let biased: u64 = 1023 + k;
    if k <= 52 {
        (biased << 52) | ((v << (52 - k)) & FRACTION_MASK)
    } else {
        let drop: u64 = k - 52;
        let head: u64 = v >> drop;
        assert((1u64 << drop) >= 1) by (bit_vector)
            requires
                drop < 12,
        ;
        let rest: u64 = v & ((1u64 << drop) - 1);
        let half: u64 = 1u64 << (drop - 1);
        let up: u64 = if rest > half || (rest == half && head & 1 == 1) {
            1
        } else {
            0
        };
        let base: u64 = (biased << 52) | (head & FRACTION_MASK);
        proof {
            lemma_fields_bound(biased, head);
        }
        base + up
    }
}

/// The double nearest to a signed number of 64 bits.
pub fn double_from_i64(v: i64) -> (bits: u64)
    ensures
        bits == double_nearest_int(v as int),
{
    if v < 0 {
        let magnitude: u64 = if v == i64::MIN {
            0x8000_0000_0000_0000
        } else {
            (-v) as u64
        };
        SIGN_BIT | double_from_u64(magnitude)
    } else {
        double_from_u64(v as u64)
    }
}

/// The exponent field of an infinity and of every NaN.
pub const INFINITY: u64 = 0x7ff0_0000_0000_0000;

/// The highest fraction bit, which is set in a quiet NaN.
pub const QUIET_BIT: u64 = 0x0008_0000_0000_0000;

/// The exponent field of the 32-bit float `bits`.
pub open spec fn single_exponent(bits: u32) -> u32 {
    (bits >> 23) & 0xff
}

/// The fraction field of the 32-bit float `bits`.
pub open spec fn single_fraction(bits: u32) -> u32 {
    bits & 0x7f_ffff
}

/// Whether the 32-bit float `bits` is a NaN.
pub open spec fn single_is_nan(bits: u32) -> bool {
    single_exponent(bits) == 0xff && single_fraction(bits) != 0
}

/// The sign of the 32-bit float `bits`, at the place of the sign of a double.
pub open spec fn single_sign(bits: u32) -> u64 {
    ((bits >> 31) as u64) << 63
}

/// The double with the value of the 32-bit float `bits`. A zero keeps its
/// sign, an infinity stays one, and a NaN becomes the quiet NaN with the
/// same sign and the same fraction bits, moved to the top of the fraction.
pub open spec fn double_of_single(bits: u32) -> u64 {
    let e = single_exponent(bits) as u64;
    let m = single_fraction(bits) as u64;
    if e == 0 {
        if m == 0 {
            single_sign(bits)
        } else {
            let k = top_bit(m);
            single_sign(bits) | (((874 + k) as u64) << 52) | ((m << ((52 - k) as u64))
                & FRACTION_MASK)
        }
    } else if e == 255 {
        if m == 0 {
            single_sign(bits) | INFINITY
        } else {
            single_sign(bits) | INFINITY | QUIET_BIT | (m << 29)
        }
    } else {
        single_sign(bits) | (((e + 896) as u64) << 52) | (m << 29)
    }
}

/// The whole number that a finite double is a multiple of a power of two
/// of: the fraction, with the hidden bit where the double is normal.
pub open spec fn significand(bits: u64) -> u64 {
    if exponent(bits) == 0 {
        fraction(bits)
    } else {
        fraction(bits) | HIDDEN_BIT
    }
}

/// The power of two by which the significand of a finite double is
/// multiplied: the double stands for `significand * 2^scale`.
pub open spec fn scale(bits: u64) -> int {
    if exponent(bits) == 0 {
        -1074
    } else {
        exponent(bits) - 1075
    }
}

/// The significand of a finite 32-bit float.
pub open spec fn single_significand(bits: u32) -> u32 {
    if single_exponent(bits) == 0 {
        single_fraction(bits)
    } else {
        single_fraction(bits) | 0x80_0000
    }
}

/// The power of two by which the significand of a finite 32-bit float is
/// multiplied.
pub open spec fn single_scale(bits: u32) -> int {
    if single_exponent(bits) == 0 {
        -149
    } else {
        single_exponent(bits) - 150
    }
}

/// The double of a 32-bit float.
pub fn widen_single(bits: u32) -> (wide: u64)
    ensures
        wide == double_of_single(bits),
{
    let sign: u64 = ((bits >> 31) as u64) << 63;
    let e: u64 = ((bits >> 23) & 0xff) as u64;
    let m: u64 = (bits & 0x7f_ffff) as u64;
    assert(e <= 255 && m <= 0x7f_ffff) by (bit_vector)
        requires
            e == ((bits >> 23) & 0xff) as u64,
            m == (bits & 0x7f_ffff) as u64,
    ;
    if e == 0 {
        if m == 0 {
            sign
        } else {
            proof {
                lemma2_to64();
                lemma_top_bit_below(m, 23);
            }
            let k: u64 = (63 - m.leading_zeros()) as u64;
            let biased: u64 = 874 + k;
            sign | (biased << 52) | ((m << (52 - k)) & FRACTION_MASK)
        }
    } else if e == 255 {
        if m == 0 {
            sign | INFINITY
        } else {
            sign | INFINITY | QUIET_BIT | (m << 29)
        }
    } else {
        let biased: u64 = e + 896;
        sign | (biased << 52) | (m << 29)
    }
}

/// The double of a finite 32-bit float has the same sign and the same
/// value: a zero stays a zero, and otherwise the significand of the double
/// is that of the float, shifted up by as much as its scale is lower.
pub proof fn lemma_single_value(bits: u32)
    requires
        single_exponent(bits) != 0xff,
    ensures
        exponent(double_of_single(bits)) != 0x7ff,
        double_of_single(bits) & SIGN_BIT == single_sign(bits),
        single_significand(bits) == 0 ==> significand(double_of_single(bits)) == 0,
        single_significand(bits) != 0 ==> {
            let lower = single_scale(bits) - scale(double_of_single(bits));
            &&& 0 <= lower <= 52
            &&& significand(double_of_single(bits)) == (single_significand(bits) as u64) << (
            lower as u64)
        },
{
    let e = single_exponent(bits) as u64;
    let f = single_fraction(bits);
    let m = f as u64;
    let sign = single_sign(bits);
    let wide = double_of_single(bits);
    assert(e <= 254 && m <= 0x7f_ffff && (sign == 0 || sign == 0x8000_0000_0000_0000)) by (bit_vector)
        requires
            e == ((bits >> 23) & 0xff) as u64,
            m == (bits & 0x7f_ffff) as u64,
            sign == ((bits >> 31) as u64) << 63,
            e != 255,
    ;
    if e == 0 {
        if m == 0 {
            assert((sign >> 52) & 0x7ff == 0 && sign & FRACTION_MASK == 0 && sign & SIGN_BIT
                == sign) by (bit_vector)
                requires
                    sign == 0 || sign == 0x8000_0000_0000_0000,
            ;
        } else {
            lemma_top_bit(m);
            let k = top_bit(m);
            lemma2_to64();
            lemma_top_bit_below(m, 23);
            let biased: u64 = (874 + k) as u64;
            let shift: u64 = (52 - k) as u64;
            assert(wide == sign | (biased << 52) | ((m << shift) & FRACTION_MASK));
            assert((wide >> 52) & 0x7ff == biased && wide & SIGN_BIT == sign && (wide
                & FRACTION_MASK) | HIDDEN_BIT == m << shift) by (bit_vector)
                requires
                    wide == sign | (biased << 52) | ((m << shift) & FRACTION_MASK),
                    sign == 0 || sign == 0x8000_0000_0000_0000,
                    k <= 22,
                    m >> k == 1,
                    biased == 874 + k,
                    shift == 52 - k,
            ;
            assert(exponent(wide) == biased);
            assert(scale(wide) == biased - 1075);
            assert(single_scale(bits) == -149);
            assert(single_scale(bits) - scale(wide) == shift);
            assert(single_significand(bits) == f);
            assert(significand(wide) == m << shift);
        }
    } else {
        let biased: u64 = (e + 896) as u64;
        let hidden: u64 = (f | 0x80_0000) as u64;
        assert(wide == sign | (biased << 52) | (m << 29));
        assert(hidden != 0 && (wide >> 52) & 0x7ff == biased && wide & SIGN_BIT == sign && (wide
            & FRACTION_MASK) | HIDDEN_BIT == hidden << 29) by (bit_vector)
            requires
                wide == sign | (biased << 52) | (m << 29),
                sign == 0 || sign == 0x8000_0000_0000_0000,
                m <= 0x7f_ffff,
                1 <= e <= 254,
                biased == e + 896,
                m == f as u64,
                hidden == (f | 0x80_0000) as u64,
        ;
        assert(exponent(wide) == biased);
        assert(single_scale(bits) - scale(wide) == 29);
        assert(single_significand(bits) == f | 0x80_0000);
    }
}

/// The double of an infinity is the infinity of the same sign, and the
/// double of a NaN is a NaN.
pub proof fn lemma_single_special(bits: u32)
    requires
        single_exponent(bits) == 0xff,
    ensures
        exponent(double_of_single(bits)) == 0x7ff,
        double_of_single(bits) & SIGN_BIT == single_sign(bits),
        is_nan(double_of_single(bits)) == single_is_nan(bits),
{
    let m = single_fraction(bits) as u64;
    let sign = single_sign(bits);
    assert(m <= 0x7f_ffff && (sign == 0 || sign == 0x8000_0000_0000_0000)) by (bit_vector)
        requires
            m == (bits & 0x7f_ffff) as u64,
            sign == ((bits >> 31) as u64) << 63,
    ;
    assert({
        let inf = sign | INFINITY;
        let nan = sign | INFINITY | QUIET_BIT | (m << 29);
        &&& (inf >> 52) & 0x7ff == 0x7ff
        &&& inf & SIGN_BIT == sign
        &&& inf & FRACTION_MASK == 0
        &&& (nan >> 52) & 0x7ff == 0x7ff
        &&& nan & SIGN_BIT == sign
        &&& nan & FRACTION_MASK != 0
    }) by (bit_vector)
        requires
            sign == 0 || sign == 0x8000_0000_0000_0000,
            m <= 0x7f_ffff,
    ;
}

} // verus!
