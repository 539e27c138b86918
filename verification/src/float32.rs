//! Single-precision numbers, carried as their IEEE 754 bit patterns and read
//! with integer arithmetic only.
use vstd::arithmetic::div_mod::{
    lemma_div_is_ordered, lemma_div_multiples_vanish, lemma_fundamental_div_mod, lemma_mod_bound,
    lemma_multiply_divide_lt,
};
use vstd::arithmetic::power2::{
    lemma2_to64, lemma2_to64_rest, lemma_pow2_adds, lemma_pow2_pos, lemma_pow2_strictly_increases,
    lemma_pow2_unfold, pow2,
};
use vstd::prelude::*;

verus! {

/// A binary32 number: one sign bit, eight exponent bits, twenty-three
/// fraction bits, from the most significant bit down.
#[derive(Clone, Copy, Debug, PartialEq, Eq, Structural)]
pub struct Float32 {
    pub bits: u32,
}

/// The number of binary digits of `n`: the least `l` with `n < 2^l`.
pub open spec fn bit_length(n: nat) -> nat
    decreases n,
{
    if n == 0 {
        0
    } else {
        1 + bit_length(n / 2)
    }
}

/// `n / 2^s` rounded to the nearest integer, a tie going to the even one.
pub open spec fn round_ties_even(n: nat, s: nat) -> nat {
    let q = n / pow2(s);
    let r = n % pow2(s);
    if 2 * r > pow2(s) || (2 * r == pow2(s) && q % 2 == 1) {
        q + 1
    } else {
        q
    }
}

/// `q * 2^k` rounded to the nearest integer, a tie going up.
pub open spec fn round_half_up(q: nat, k: int) -> nat {
    if k >= 0 {
        q * pow2(k as nat)
    } else {
        (q + pow2((-k - 1) as nat)) / pow2((-k) as nat)
    }
}

impl Float32 {
    /// Whether the sign bit is set.
    pub open spec fn negative(self) -> bool {
        self.bits >= 0x8000_0000
    }

    /// The exponent field, between 0 and 255.
    pub open spec fn biased_exponent(self) -> nat {
        ((self.bits / 0x80_0000) % 0x100) as nat
    }

    /// The fraction field, below `2^23`.
    pub open spec fn fraction(self) -> nat {
        (self.bits % 0x80_0000) as nat
    }

    /// Whether the pattern is not a number.
    pub open spec fn nan(self) -> bool {
        self.biased_exponent() == 255 && self.fraction() != 0
    }

    /// Whether the pattern is plus or minus infinity.
    pub open spec fn infinite(self) -> bool {
        self.biased_exponent() == 255 && self.fraction() == 0
    }

    /// For a finite number, the integer `m` of its magnitude `m * 2^e`: the
    /// fraction, with the hidden leading bit unless the number is subnormal.
    pub open spec fn significand(self) -> nat {
        if self.biased_exponent() == 0 {
            self.fraction()
        } else {
            0x80_0000 + self.fraction()
        }
    }

    /// For a finite number, the exponent `e` of its magnitude `m * 2^e`.
    pub open spec fn exponent(self) -> int {
        if self.biased_exponent() == 0 {
            -149
        } else {
            self.biased_exponent() - 150
        }
    }

    /// For a finite number: its magnitude is `n` or more.
    pub open spec fn magnitude_at_least(self, n: nat) -> bool {
        if self.exponent() >= 0 {
            self.significand() * pow2(self.exponent() as nat) >= n
        } else {
            self.significand() >= n * pow2((-self.exponent()) as nat)
        }
    }

    /// For a finite number: its magnitude is more than `n`.
    pub open spec fn magnitude_exceeds(self, n: nat) -> bool {
        if self.exponent() >= 0 {
            self.significand() * pow2(self.exponent() as nat) > n
        } else {
            self.significand() > n * pow2((-self.exponent()) as nat)
        }
    }

    /// The number is `n` or more. False of a NaN; minus zero is zero.
    pub open spec fn spec_at_least(self, n: nat) -> bool {
        !self.nan() && if self.negative() {
            n == 0 && self.significand() == 0
        } else {
            self.infinite() || self.magnitude_at_least(n)
        }
    }

    /// The number is more than `n`. False of a NaN.
    pub open spec fn spec_exceeds(self, n: nat) -> bool {
        !self.nan() && !self.negative() && (self.infinite() || self.magnitude_exceeds(n))
    }

    /// For a finite number, its product with `n` as single-precision
    /// multiplication rounds it, before any overflow to infinity: a pair
    /// `(m, e)` that stands for `m * 2^e`. An exact product of more than 24
    /// binary digits keeps its 24 leading ones, to nearest, ties to even. One
    /// of 24 digits or fewer is kept as it is, with as many digits as it has:
    /// the product of a subnormal number may so keep fewer than 24, and no
    /// digit of it lies below `2^-149`, the last place of a subnormal result.
    pub open spec fn times(self, n: nat) -> (nat, int) {
        let exact = self.significand() * n;
        let dropped = if bit_length(exact) > 24 {
            (bit_length(exact) - 24) as nat
        } else {
            0
        };
        (round_ties_even(exact, dropped), self.exponent() + dropped)
    }

    /// A fraction as a whole percentage: the number times one hundred, rounded
    /// as single precision rounds, then to the nearest integer with ties away
    /// from zero, then held within 0 to 255. A NaN gives 0.
    pub open spec fn percent(self) -> nat {
        if self.nan() || self.negative() {
            0
        } else if self.infinite() {
            255
        } else {
            let (m, e) = self.times(100);
            let whole = round_half_up(m, e);
            if whole > 255 {
                255
            } else {
                whole
            }
        }
    }

    /// Whether the pattern is not a number.
    pub fn is_nan(&self) -> (r: bool)
        ensures
            r == self.nan(),
    {
        (self.bits / 0x80_0000) % 0x100 == 255 && self.bits % 0x80_0000 != 0
    }

    /// How the magnitude of a finite number stands to `n`.
    fn weigh(&self, n: u32) -> (r: Weight)
        requires
            self.biased_exponent() < 255,
        ensures
            r is Heavier <==> self.magnitude_exceeds(n as nat),
            r is Lighter <==> !self.magnitude_at_least(n as nat),
    {
        let field: u32 = (self.bits / 0x80_0000) % 0x100;
        let fraction: u32 = self.bits % 0x80_0000;
        let m: u64 = if field == 0 {
            fraction as u64
        } else {
            0x80_0000 + fraction as u64
        };
        let biased: u32 = if field == 0 {
            1
        } else {
            field
        };
        if biased >= 150 {
            let k: u32 = biased - 150;
            if m == 0 {
                assert(0 * pow2(k as nat) == 0);
                Weight::of(0, n as u64)
            } else if k >= 32 {
                proof {
                    lemma_pow2_monotone(32, k as nat);
                    lemma2_to64();
                    lemma_mul_at_least(m as nat, pow2(k as nat));
                }
                Weight::Heavier
            } else {
                proof {
                    lemma_pow2_monotone(k as nat, 31);
                    lemma2_to64();
                    lemma_mul_bound(m as nat, pow2(k as nat), 0x100_0000, 0x8000_0000);
                }
                Weight::of(m * power_of_two(k), n as u64)
            }
        } else {
            let t: u32 = 150 - biased;
            if n == 0 {
                assert(0 * pow2(t as nat) == 0);
                Weight::of(m, 0)
            } else if t >= 24 {
                proof {
                    lemma_pow2_monotone(24, t as nat);
                    lemma2_to64();
                    lemma_mul_at_least(n as nat, pow2(t as nat));
                }
                Weight::Lighter
            } else {
                proof {
                    lemma_pow2_monotone(t as nat, 23);
                    lemma2_to64();
                    lemma_mul_bound(n as nat, pow2(t as nat), 0x1_0000_0000, 0x80_0000);
                }
                Weight::of(m, n as u64 * power_of_two(t))
            }
        }
    }

    /// Whether the number is `n` or more.
    pub fn at_least(&self, n: u32) -> (r: bool)
        ensures
            r == self.spec_at_least(n as nat),
    {
        let field: u32 = (self.bits / 0x80_0000) % 0x100;
        let fraction: u32 = self.bits % 0x80_0000;
        if field == 255 && fraction != 0 {
            false
        } else if self.bits >= 0x8000_0000 {
            n == 0 && field == 0 && fraction == 0
        } else if field == 255 {
            true
        } else {
            match self.weigh(n) {
                Weight::Lighter => false,
                _ => true,
            }
        }
    }

    /// Whether the number is more than `n`.
    pub fn exceeds(&self, n: u32) -> (r: bool)
        ensures
            r == self.spec_exceeds(n as nat),
    {
        let field: u32 = (self.bits / 0x80_0000) % 0x100;
        let fraction: u32 = self.bits % 0x80_0000;
        if (field == 255 && fraction != 0) || self.bits >= 0x8000_0000 {
            false
        } else if field == 255 {
            true
        } else {
            match self.weigh(n) {
                Weight::Heavier => true,
                _ => false,
            }
        }
    }
}

/// How one magnitude stands to another.
enum Weight {
    Lighter,
    Level,
    Heavier,
}

impl Weight {
    /// How `a` stands to `b`.
    fn of(a: u64, b: u64) -> (r: Weight)
        ensures
            r is Heavier <==> a > b,
            r is Lighter <==> a < b,
    {
        if a < b {
            Weight::Lighter
        } else if a == b {
            Weight::Level
        } else {
            Weight::Heavier
        }
    }
}

/// Powers of two do not decrease with the exponent.
pub proof fn lemma_pow2_monotone(a: nat, b: nat)
    requires
        a <= b,
    ensures
        pow2(a) <= pow2(b),
{
    if a < b {
        lemma_pow2_strictly_increases(a, b);
    }
}

/// A product with a positive factor is at least the other factor.
pub proof fn lemma_mul_at_least(a: nat, b: nat)
    requires
        a >= 1,
    ensures
        a * b >= b,
{
    assert(a * b >= b) by (nonlinear_arith)
        requires
            a >= 1,
            b >= 0,
    ;
}

/// A product of two bounded factors is bounded by the product of the bounds.
pub proof fn lemma_mul_bound(a: nat, b: nat, x: nat, y: nat)
    requires
        a <= x,
        b <= y,
    ensures
        a * b <= x * y,
{
    assert(a * b <= x * y) by (nonlinear_arith)
        requires
            0 <= a <= x,
            0 <= b <= y,
    ;
}

/// `2^k`, where it fits.
pub fn power_of_two(k: u32) -> (r: u64)
    requires
        k <= 62,
    ensures
        r == pow2(k as nat),
{
    let mut r: u64 = 1;
    let mut i: u32 = 0;
    proof {
        lemma2_to64();
    }
    while i < k
        invariant
            i <= k <= 62,
            r == pow2(i as nat),
        decreases k - i,
    {
        proof {
            lemma_pow2_unfold((i + 1) as nat);
            lemma_pow2_monotone((i + 1) as nat, 62);
            lemma2_to64_rest();
        }
        r = r * 2;
        i = i + 1;
    }
    r
}

/// A number below `2^k` has `k` binary digits at most.
pub proof fn lemma_bit_length_bound(n: nat, k: nat)
    requires
        n < pow2(k),
    ensures
        bit_length(n) <= k,
    decreases n,
{
    if n > 0 {
        if k == 0 {
            lemma2_to64();
        } else {
            lemma_pow2_unfold(k);
            lemma_bit_length_bound(n / 2, (k - 1) as nat);
        }
    }
}

/// Rounding to nearest does not pass a whole multiple: a number that is at
/// most `c * 2^s` rounds to at most `c`.
pub proof fn lemma_round_ties_even_below(n: nat, s: nat, c: nat)
    requires
        n <= c * pow2(s),
    ensures
        round_ties_even(n, s) <= c,
{
    let p = pow2(s) as int;
    lemma_pow2_pos(s);
    lemma_div_is_ordered(n as int, p * c, p);
    lemma_div_multiples_vanish(c as int, p);
    assert(c * pow2(s) == p * c) by (nonlinear_arith)
        requires
            p == pow2(s),
    ;
    lemma_fundamental_div_mod(n as int, p);
    lemma_mod_bound(n as int, p);
    let q = n as int / p;
    if q == c {
        assert(p * q == p * c);
        assert(n as int % p == 0);
    }
}

/// Rounding a half up does not pass a whole number: `q * 2^-u` with `q` at
/// most `c * 2^u` rounds to at most `c`.
pub proof fn lemma_round_half_up_below(q: nat, u: nat, c: nat)
    requires
        u >= 1,
        q <= c * pow2(u),
    ensures
        round_half_up(q, -(u as int)) <= c,
{
    let d = pow2(u) as int;
    let h = pow2((u - 1) as nat) as int;
    lemma_pow2_unfold(u);
    lemma_pow2_pos((u - 1) as nat);
    assert(q + h < d * (c + 1)) by (nonlinear_arith)
        requires
            q <= c * d,
            d == 2 * h,
            h > 0,
    ;
    lemma_multiply_divide_lt(q + h, d, c as int + 1);
}

/// A fraction gives a percentage: a number from zero to one, both included,
/// has a percentage from 0 to 100.
pub proof fn lemma_percent_of_fraction(value: Float32)
    requires
        value.spec_at_least(0),
        !value.spec_exceeds(1),
    ensures
        value.percent() <= 100,
{
    if !value.negative() {
        let m = value.significand();
        let e = value.exponent();
        lemma2_to64();
        if e >= 0 {
            lemma_pow2_pos(e as nat);
            lemma_mul_at_least(pow2(e as nat), m);
            assert(m * pow2(e as nat) == pow2(e as nat) * m) by (nonlinear_arith);
        } else {
            let t = (-e) as nat;
            assert(m <= pow2(t)) by {
                assert(1 * pow2(t) == pow2(t));
            }
            if value.biased_exponent() != 0 && t < 23 {
                lemma_pow2_monotone(t, 22);
            }
            assert(t >= 23);
            let exact = m * 100;
            assert(exact < pow2(31));
            lemma_bit_length_bound(exact, 31);
            let s = if bit_length(exact) > 24 {
                (bit_length(exact) - 24) as nat
            } else {
                0
            };
            let u = (t - s) as nat;
            lemma_pow2_adds(u, s);
            let c = 100 * pow2(u);
            assert(exact <= c * pow2(s)) by (nonlinear_arith)
                requires
                    exact == m * 100,
                    m <= pow2(t),
                    pow2(t) == pow2(u) * pow2(s),
                    c == 100 * pow2(u),
            ;
            lemma_round_ties_even_below(exact, s, c);
            let q = round_ties_even(exact, s);
            assert(value.times(100) == (q, e + s));
            lemma_round_half_up_below(q, u, 100);
        }
    }
}

} // verus!
