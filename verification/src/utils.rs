//! Fractions as whole percentages.
use crate::float32::{
    bit_length, lemma_mul_at_least, lemma_mul_bound, lemma_pow2_monotone, power_of_two,
    round_ties_even, Float32,
};
use vstd::arithmetic::div_mod::lemma_basic_div;
use vstd::arithmetic::power2::{
    lemma2_to64, lemma2_to64_rest, lemma_pow2_pos, lemma_pow2_unfold, pow2,
};
use vstd::prelude::*;

verus! {

/// The number of binary digits of `n`.
fn binary_digits(n: u64) -> (r: u32)
    requires
        n < 0x8000_0000,
    ensures
        r == bit_length(n as nat),
        r <= 31,
{
    let mut r: u32 = 0;
    let mut m: u64 = n;
    proof {
        lemma2_to64();
    }
    while m > 0
        invariant
            r <= 31,
            m < pow2((31 - r) as nat),
            bit_length(n as nat) == r + bit_length(m as nat),
        decreases m,
    {
        proof {
            lemma2_to64();
            lemma_pow2_unfold((31 - r) as nat);
        }
        m = m / 2;
        r = r + 1;
    }
    r
}

/// `n / 2^s` to the nearest integer, ties to even.
fn ties_even(n: u64, s: u32) -> (q: u64)
    requires
        n < 0x8000_0000,
        s <= 7,
    ensures
        q == round_ties_even(n as nat, s as nat),
        q <= n + 1,
{
    let d: u64 = power_of_two(s);
    proof {
        lemma_pow2_monotone(s as nat, 7);
        lemma2_to64();
        lemma_pow2_pos(s as nat);
    }
    let q: u64 = n / d;
    let r: u64 = n % d;
    if 2 * r > d || (2 * r == d && q % 2 == 1) {
        q + 1
    } else {
        q
    }
}

/// A fraction as a whole percentage: `value` times one hundred, rounded to
/// the nearest integer with ties away from zero, and held within 0 to 255.
/// The product is rounded to single precision first, as the multiplication of
/// two such numbers is; a NaN gives 0.
pub fn f32_to_u8_pct(value: Float32) -> (r: u8)
    ensures
        r == value.percent(),
{
    let field: u32 = (value.bits / 0x80_0000) % 0x100;
    let fraction: u32 = value.bits % 0x80_0000;
    if (field == 255 && fraction != 0) || value.bits >= 0x8000_0000 {
        return 0;
    }
    if field == 255 {
        return 255;
    }
    let m: u64 = if field == 0 {
        fraction as u64
    } else {
        0x80_0000 + fraction as u64
    };
    let e: i32 = if field == 0 {
        -149
    } else {
        field as i32 - 150
    };
    let exact: u64 = m * 100;
    let digits: u32 = binary_digits(exact);
    let dropped: u32 = if digits > 24 {
        digits - 24
    } else {
        0
    };
    let q: u64 = ties_even(exact, dropped);
    let k: i32 = e + dropped as i32;
    assert((q as nat, k as int) == value.times(100));
    if k >= 0 {
        if k >= 8 {
            proof {
                lemma_pow2_monotone(8, k as nat);
                lemma2_to64();
                if q >= 1 {
                    lemma_mul_at_least(q as nat, pow2(k as nat));
                } else {
                    assert(q * pow2(k as nat) == 0) by (nonlinear_arith)
                        requires
                            q == 0,
                    ;
                }
            }
            if q == 0 {
                0
            } else {
                255
            }
        } else {
            proof {
                lemma_pow2_monotone(k as nat, 7);
                lemma2_to64();
                lemma_mul_bound(q as nat, pow2(k as nat), 0x8000_0000, 128);
            }
            let whole: u64 = q * power_of_two(k as u32);
            if whole > 255 {
                255
            } else {
                whole as u8
            }
        }
    } else {
        let t: u32 = (-k) as u32;
        if t > 40 {
            proof {
                lemma_pow2_monotone(40, (t - 1) as nat);
                lemma2_to64_rest();
                lemma_pow2_unfold(t as nat);
                lemma_basic_div((q + pow2((t - 1) as nat)) as int, pow2(t as nat) as int);
            }
            0
        } else {
            proof {
                lemma_pow2_monotone((t - 1) as nat, 40);
                lemma_pow2_monotone(t as nat, 40);
                lemma2_to64_rest();
                lemma_pow2_pos(t as nat);
            }
            let whole: u64 = (q + power_of_two(t - 1)) / power_of_two(t);
            if whole > 255 {
                255
            } else {
                whole as u8
            }
        }
    }
}

} // verus!
