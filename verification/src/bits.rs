//! Single-precision numbers as 32-bit patterns.

use vstd::arithmetic::power2::{
    lemma2_to64, lemma_pow2_adds, lemma_pow2_pos, lemma_pow2_strictly_increases, lemma_pow2_unfold,
    pow2,
};
use vstd::prelude::*;

verus! {

/// The pattern of `0.0`.
pub const F32_ZERO: u32 = 0;

/// The pattern of `1.0`.
pub const F32_ONE: u32 = 0x3F80_0000;

/// The pattern of `0.5`.
pub const F32_HALF: u32 = 0x3F00_0000;

/// The pattern of `1e-5`.
pub const F32_1E_MINUS_5: u32 = 0x3727_C5AC;

/// The pattern of `1e-9`.
pub const F32_1E_MINUS_9: u32 = 0x3089_705F;

/// The pattern of `10000.0`.
pub const F32_TEN_THOUSAND: u32 = 0x461C_4000;

/// The pattern of `1000000.0`.
pub const F32_MILLION: u32 = 0x4974_2400;

/// The pattern of positive infinity.
pub const F32_INFINITY: u32 = 0x7F80_0000;

/// Whether a pattern stands for a NaN.
pub open spec fn is_nan(b: u32) -> bool {
    b % 0x8000_0000 > F32_INFINITY
}

/// Whether a pattern stands for a number greater than zero.
pub open spec fn is_positive(b: u32) -> bool {
    0 < b <= F32_INFINITY
}

/// A number that orders patterns as the numbers they stand for are ordered:
/// `order_key(a) < order_key(b)` exactly when the number of `a` is less than
/// that of `b`, provided that neither is a NaN. Both zeros have key 0.
pub open spec fn order_key(b: u32) -> int {
    if b < 0x8000_0000 {
        b as int
    } else {
        0x8000_0000 - b
    }
}

/// The ordering key of a pattern.
pub fn key_of(b: u32) -> (k: i64)
    ensures
        k == order_key(b),
{
    if b < 0x8000_0000 {
        b as i64
    } else {
        0x8000_0000i64 - (b as i64)
    }
}

/// Tests a pattern for a number greater than zero.
pub fn positive(b: u32) -> (r: bool)
    ensures
        r == is_positive(b),
{
    0 < b && b <= F32_INFINITY
}

/// Tests a pattern for a NaN.
pub fn nan(b: u32) -> (r: bool)
    ensures
        r == is_nan(b),
{
    b % 0x8000_0000 > F32_INFINITY
}

/// The greater of a number and a positive lower bound; a NaN gives the bound.
pub open spec fn at_least_spec(b: u32, bound: u32) -> u32 {
    if !is_nan(b) && order_key(b) > order_key(bound) {
        b
    } else {
        bound
    }
}

/// The greater of a number and a lower bound; a NaN gives the bound.
pub fn at_least(b: u32, bound: u32) -> (r: u32)
    ensures
        r == at_least_spec(b, bound),
{
    if !nan(b) && key_of(b) > key_of(bound) {
        b
    } else {
        bound
    }
}

/// The magnitude of a finite single-precision number, times 2 to the 149th.
pub open spec fn single_magnitude(b: u32) -> nat {
    let e = (b / 0x80_0000 % 0x100) as nat;
    let m = (b % 0x80_0000) as nat;
    if e == 0 {
        m
    } else {
        (0x80_0000 + m) * pow2((e - 1) as nat)
    }
}

/// The magnitude of a finite half-precision number, times 2 to the 149th.
pub open spec fn half_magnitude(h: u16) -> nat {
    let e = (h / 0x400 % 0x20) as nat;
    let m = (h % 0x400) as nat;
    if e == 0 {
        m * pow2(125)
    } else {
        (0x400 + m) * pow2(e + 124)
    }
}

/// Whether a number differs from one by more than 2 to the -23rd, which is the
/// distance from one to the next greater number. A NaN does not.
pub open spec fn is_far_from_one(b: u32) -> bool {
    if is_nan(b) {
        false
    } else if b >= F32_INFINITY {
        true
    } else {
        let m = single_magnitude(b) as int;
        m > pow2(149) + pow2(126) || m < pow2(149) - pow2(126)
    }
}

/// Tests whether a number differs from one by more than 2 to the -23rd.
pub fn far_from_one(b: u32) -> (r: bool)
    ensures
        r == is_far_from_one(b),
{
    if nan(b) {
        return false;
    }
    let low: u32 = 0x3F7F_FFFE;
    let high: u32 = 0x3F80_0001;
    proof {
        lemma2_to64();
        lemma_pow2_adds(24, 125);
        lemma_pow2_adds(23, 126);
        lemma_pow2_adds(1, 125);
        assert(pow2(24) == 0x100_0000 && pow2(23) == 0x80_0000 && pow2(1) == 2);
        assert(low / 0x80_0000 % 0x100 == 126 && low % 0x80_0000 == 0x7F_FFFE);
        assert(high / 0x80_0000 % 0x100 == 127 && high % 0x80_0000 == 1);
        let p = pow2(125) as int;
        let q = pow2(126) as int;
        assert((0x80_0000 + 0x7F_FFFE) * p == 0x100_0000 * p - 2 * p) by (nonlinear_arith);
        assert((0x80_0000 + 1) * q == 0x80_0000 * q + q) by (nonlinear_arith);
        assert(single_magnitude(low) == pow2(149) - pow2(126));
        assert(single_magnitude(high) == pow2(149) + pow2(126));
        if b < F32_INFINITY {
            assert(b / 0x80_0000 % 0x100 < 0xFF);
            assert(b % 0x8000_0000 == b);
            if b < low {
                lemma_magnitude_grows(b, low);
            } else if b > high {
                lemma_magnitude_grows(high, b);
            } else {
                if b > low {
                    lemma_magnitude_grows(low, b);
                }
                if b < high {
                    lemma_magnitude_grows(b, high);
                }
            }
        }
    }
    b < low || b > high
}

/// Whether the single-precision pattern `s` is the half-precision pattern `h`
/// widened. The sign is kept. Infinity stays infinity; a NaN keeps its payload
/// and becomes quiet; a finite number keeps its magnitude.
pub open spec fn widens(h: u16, s: u32) -> bool {
    let he = h / 0x400 % 0x20;
    let hm = h % 0x400;
    &&& s / 0x8000_0000 == h / 0x8000
    &&& if he == 0x1F && hm == 0 {
        s % 0x8000_0000 == F32_INFINITY
    } else if he == 0x1F {
        s % 0x8000_0000 == 0x7FC0_0000 + hm % 0x200 * 0x2000
    } else {
        s / 0x80_0000 % 0x100 < 0xFF && single_magnitude(s) == half_magnitude(h)
    }
}

/// The single-precision pattern of a half-precision pattern.
pub open spec fn widened(h: u16) -> u32 {
    choose|s: u32| widens(h, s)
}

/// Among patterns of finite numbers the magnitude grows with the low 31 bits.
proof fn lemma_magnitude_grows(a: u32, b: u32)
    requires
        a / 0x80_0000 % 0x100 < 0xFF,
        b / 0x80_0000 % 0x100 < 0xFF,
        a % 0x8000_0000 < b % 0x8000_0000,
    ensures
        single_magnitude(a) < single_magnitude(b),
{
    let ea = (a / 0x80_0000 % 0x100) as nat;
    let eb = (b / 0x80_0000 % 0x100) as nat;
    let ma = (a % 0x80_0000) as nat;
    let mb = (b % 0x80_0000) as nat;
    assert(a % 0x8000_0000 == ea * 0x80_0000 + ma);
    assert(b % 0x8000_0000 == eb * 0x80_0000 + mb);
    if ea == eb {
        if ea > 0 {
            lemma_pow2_pos((ea - 1) as nat);
            let p = pow2((ea - 1) as nat);
            assert((0x80_0000 + ma) * p < (0x80_0000 + mb) * p) by (nonlinear_arith)
                requires
                    ma < mb,
                    p > 0,
            ;
        }
    } else {
        assert(ea < eb);
        let q = pow2((eb - 1) as nat);
        lemma_pow2_pos((eb - 1) as nat);
        assert(single_magnitude(b) >= 0x80_0000 * q) by (nonlinear_arith)
            requires
                single_magnitude(b) == (0x80_0000 + mb) * q,
                q > 0,
        ;
        if ea == 0 {
            assert(0x80_0000 * q >= 0x80_0000) by (nonlinear_arith)
                requires
                    q > 0,
            ;
        } else {
            let p = pow2((ea - 1) as nat);
            lemma_pow2_pos((ea - 1) as nat);
            lemma_pow2_unfold(ea);
            if ea < eb - 1 {
                lemma_pow2_strictly_increases(ea, (eb - 1) as nat);
            }
            assert(pow2(ea) == 2 * p);
            assert(2 * p <= q);
            assert((0x80_0000 + ma) * p < 0x80_0000 * q) by (nonlinear_arith)
                requires
                    ma < 0x80_0000,
                    p > 0,
                    2 * p <= q,
            ;
        }
    }
}

/// A half-precision pattern has one widened pattern.
pub proof fn lemma_widened_is_unique(h: u16, s: u32, t: u32)
    requires
        widens(h, s),
        widens(h, t),
    ensures
        s == t,
{
    if s % 0x8000_0000 < t % 0x8000_0000 {
        if h / 0x400 % 0x20 != 0x1F {
            lemma_magnitude_grows(s, t);
        }
    } else if t % 0x8000_0000 < s % 0x8000_0000 {
        if h / 0x400 % 0x20 != 0x1F {
            lemma_magnitude_grows(t, s);
        }
    }
}

/// Widens a half-precision pattern to single precision.
pub fn widen_half(h: u16) -> (s: u32)
    ensures
        widens(h, s),
        s == widened(h),
{
    let sign: u32 = (h / 0x8000) as u32 * 0x8000_0000;
    let he: u32 = (h / 0x400 % 0x20) as u32;
    let hm: u32 = (h % 0x400) as u32;
    let low: u32 = if he == 0x1F {
        if hm == 0 {
            F32_INFINITY
        } else {
            0x7FC0_0000 + hm % 0x200 * 0x2000
        }
    } else if he == 0 {
        if hm == 0 {
            0
        } else {
            widen_subnormal(hm)
        }
    } else {
        let low: u32 = (he + 112) * 0x80_0000 + hm * 0x2000;
        proof {
            let e = (he + 112) as nat;
            assert(low / 0x80_0000 % 0x100 == e);
            assert(low % 0x80_0000 == hm * 0x2000);
            lemma_pow2_adds(13, (he + 111) as nat);
            lemma2_to64();
            assert((0x80_0000 + hm * 0x2000) * pow2((he + 111) as nat) == (0x400 + hm) * pow2(
                (he + 124) as nat,
            )) by (nonlinear_arith)
                requires
                    pow2((he + 124) as nat) == 0x2000 * pow2((he + 111) as nat),
            ;
        }
        low
    };
    let s: u32 = sign + low;
    proof {
        assert(s % 0x8000_0000 == low);
        assert(s / 0x8000_0000 == h / 0x8000);
        assert(s / 0x80_0000 % 0x100 == low / 0x80_0000 % 0x100);
        assert(s % 0x80_0000 == low % 0x80_0000);
        if he == 0 && hm == 0 {
            assert(0 * pow2(125) == 0) by (nonlinear_arith);
        }
        assert(widens(h, s));
        let t = choose|t: u32| widens(h, t);
        lemma_widened_is_unique(h, s, t);
    }
    s
}

/// Finds the pattern of the positive number `m` times 2 to the -24th.
fn widen_subnormal(m: u32) -> (low: u32)
    requires
        0 < m < 0x400,
    ensures
        low < F32_INFINITY,
        single_magnitude(low) == m * pow2(125),
{
    let mut n: u32 = m;
    let mut k: u32 = 0;
    proof {
        lemma2_to64();
    }
    assert(m * pow2(0) == m) by (nonlinear_arith)
        requires
            pow2(0) == 1,
    ;
    while n < 0x400
        invariant
            0 < m <= n < 0x800,
            n < 0x400 || k > 0,
            k <= 10,
            n == m * pow2(k as nat),
        decreases 0x800 - n,
    {
        proof {
            lemma_pow2_unfold((k + 1) as nat);
            assert(m * (2 * pow2(k as nat)) == 2 * (m * pow2(k as nat))) by (nonlinear_arith);
            if k == 10 {
                lemma2_to64();
                assert(m * pow2(10) >= 0x400) by (nonlinear_arith)
                    requires
                        m >= 1,
                        pow2(10) == 0x400,
                ;
            }
        }
        n = n * 2;
        k = k + 1;
    }
    let low: u32 = (113 - k) * 0x80_0000 + (n - 0x400) * 0x2000;
    proof {
        let e = (113 - k) as nat;
        assert(low / 0x80_0000 % 0x100 == e);
        assert(low % 0x80_0000 == (n - 0x400) * 0x2000);
        lemma2_to64();
        let p = pow2((112 - k) as nat);
        lemma_pow2_adds(13, (112 - k) as nat);
        lemma_pow2_adds(k as nat, (125 - k) as nat);
        assert(pow2((125 - k) as nat) == 0x2000 * p);
        assert(pow2(125) == pow2(k as nat) * (0x2000 * p));
        assert((0x80_0000 + (n - 0x400) * 0x2000) * p == m * (pow2(k as nat) * (0x2000 * p)))
            by (nonlinear_arith)
            requires
                n == m * pow2(k as nat),
        ;
    }
    low
}

/// Ordering keys order numbers as they are: negative numbers by falling and
/// positive ones by growing patterns, with the negative below the positive and
/// both zeros alike.
pub proof fn law_keys_order_numbers(a: u32, b: u32)
    ensures
        a < 0x8000_0000 && b < 0x8000_0000 ==> (order_key(a) < order_key(b) <==> a < b),
        a > 0x8000_0000 && b > 0x8000_0000 ==> (order_key(a) < order_key(b) <==> a > b),
        a > 0x8000_0000 && b < 0x8000_0000 ==> order_key(a) < order_key(b),
        order_key(0x8000_0000) == 0,
        order_key(0) == 0,
{
}

/// Exactly the patterns beyond an infinity stand for a NaN, whatever the sign,
/// and exactly those from the least subnormal number up to infinity for a number
/// greater than zero.
pub proof fn law_patterns_are_told_apart(b: u32)
    ensures
        is_nan(b) <==> 0x7F80_0000 < b < 0x8000_0000 || 0xFF80_0000 < b,
        is_positive(b) <==> 1 <= b <= 0x7F80_0000,
        is_positive(b) ==> !is_nan(b) && order_key(b) > 0,
{
}

/// Of a number and a lower bound the greater is taken, and the bound in place of
/// a NaN.
pub proof fn law_bound_is_kept(b: u32, bound: u32)
    requires
        !is_nan(bound),
    ensures
        is_nan(b) ==> at_least_spec(b, bound) == bound,
        !is_nan(at_least_spec(b, bound)),
        order_key(at_least_spec(b, bound)) >= order_key(bound),
        !is_nan(b) ==> order_key(at_least_spec(b, bound)) >= order_key(b),
        at_least_spec(b, bound) == b || at_least_spec(b, bound) == bound,
{
}

/// A normal half-precision number is widened field by field: its sign moves to
/// the top, its exponent grows by 112, the difference of the biases, and its
/// fraction moves up by 13 places.
pub proof fn law_normal_halves_widen_by_fields(h: u16, s: u32)
    requires
        widens(h, s),
        0 < h / 0x400 % 0x20 < 0x1F,
    ensures
        s == h / 0x8000 * 0x8000_0000 + (h / 0x400 % 0x20 + 112) * 0x80_0000 + h % 0x400 * 0x2000,
{
    let e = h / 0x400 % 0x20;
    let m = h % 0x400;
    let t: u32 = (h / 0x8000 * 0x8000_0000 + (e + 112) * 0x80_0000 + m * 0x2000) as u32;
    assert(h / 0x8000 <= 1);
    assert(t == h / 0x8000 * 0x8000_0000 + (e + 112) * 0x80_0000 + m * 0x2000);
    assert(t / 0x8000_0000 == h / 0x8000);
    assert(t / 0x80_0000 % 0x100 == e + 112);
    assert(t % 0x80_0000 == m * 0x2000);
    lemma_pow2_adds(13, (e + 111) as nat);
    lemma2_to64();
    assert((0x80_0000 + m * 0x2000) * pow2((e + 111) as nat) == (0x400 + m) * pow2(
        (e + 124) as nat,
    )) by (nonlinear_arith)
        requires
            pow2((e + 124) as nat) == 0x2000 * pow2((e + 111) as nat),
    ;
    assert(widens(h, t));
    lemma_widened_is_unique(h, s, t);
}

/// Both zeros and both infinities keep their signs when they are widened, and a
/// NaN stays one.
pub proof fn law_special_halves_stay_special(s: u32, h: u16)
    ensures
        widens(0, s) ==> s == 0,
        widens(0x8000, s) ==> s == 0x8000_0000,
        widens(0x7C00, s) ==> s == 0x7F80_0000,
        widens(0xFC00, s) ==> s == 0xFF80_0000,
        widens(h, s) && h / 0x400 % 0x20 == 0x1F && h % 0x400 != 0 ==> is_nan(s),
{
    assert(0 * pow2(125) == 0) by (nonlinear_arith);
    assert(half_magnitude(0) == 0 && half_magnitude(0x8000) == 0);
    assert(single_magnitude(0) == 0);
    assert(single_magnitude(0x8000_0000) == 0);
    assert(widens(0, 0));
    assert(widens(0x8000, 0x8000_0000));
    if widens(0, s) {
        lemma_widened_is_unique(0, s, 0);
    }
    if widens(0x8000, s) {
        lemma_widened_is_unique(0x8000, s, 0x8000_0000);
    }
}

/// Not far from one are the number one, the next greater one, the two next
/// smaller ones, and a NaN.
pub proof fn law_near_one_is_a_few_patterns(b: u32)
    ensures
        is_nan(b) ==> !is_far_from_one(b),
        !is_nan(b) ==> (is_far_from_one(b) <==> b < 0x3F7F_FFFE || b > 0x3F80_0001),
{
    let low: u32 = 0x3F7F_FFFE;
    let high: u32 = 0x3F80_0001;
    lemma2_to64();
    lemma_pow2_adds(24, 125);
    lemma_pow2_adds(23, 126);
    lemma_pow2_adds(1, 125);
    assert(pow2(24) == 0x100_0000 && pow2(23) == 0x80_0000 && pow2(1) == 2);
    assert(low / 0x80_0000 % 0x100 == 126 && low % 0x80_0000 == 0x7F_FFFE);
    assert(high / 0x80_0000 % 0x100 == 127 && high % 0x80_0000 == 1);
    let p = pow2(125) as int;
    let q = pow2(126) as int;
    assert((0x80_0000 + 0x7F_FFFE) * p == 0x100_0000 * p - 2 * p) by (nonlinear_arith);
    assert((0x80_0000 + 1) * q == 0x80_0000 * q + q) by (nonlinear_arith);
    assert(single_magnitude(low) == pow2(149) - pow2(126));
    assert(single_magnitude(high) == pow2(149) + pow2(126));
    if b < F32_INFINITY {
        assert(b / 0x80_0000 % 0x100 < 0xFF);
        assert(b % 0x8000_0000 == b);
        if b < low {
            lemma_magnitude_grows(b, low);
        } else if b > high {
            lemma_magnitude_grows(high, b);
        } else {
            if b > low {
                lemma_magnitude_grows(low, b);
            }
            if b < high {
                lemma_magnitude_grows(b, high);
            }
        }
    }
}

} // verus!
