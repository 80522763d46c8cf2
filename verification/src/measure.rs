//! Measured values as 64-bit IEEE 754 patterns.
//!
//! Percentages and animation signals arrive as binary floating-point numbers.
//! The monitor only ever compares and rounds them, so they are held as their
//! bit pattern and read as exact multiples of 2^-1074, the smallest step the
//! format can express.
use vstd::arithmetic::power2::*;
use vstd::bits::*;
use vstd::prelude::*;

verus! {

/// One double-precision number, by its bit pattern.
#[derive(Clone, Copy, Debug, PartialEq, Eq, Structural)]
pub struct Binary64 {
    pub bits: u64,
}

/// How the fractional part of a magnitude compares to one half.
#[derive(Clone, Copy, Debug, PartialEq, Eq, Structural)]
pub enum Tail {
    Zero,
    BelowHalf,
    Half,
    AboveHalf,
}

/// How many of the smallest representable steps make up 1.
pub open spec fn one() -> nat {
    pow2(1074)
}

/// The fractional part of `units / one()` compared to one half.
pub open spec fn tail_of(units: nat) -> Tail {
    let rest = units % one();
    if rest == 0 {
        Tail::Zero
    } else if 2 * rest < one() {
        Tail::BelowHalf
    } else if 2 * rest == one() {
        Tail::Half
    } else {
        Tail::AboveHalf
    }
}

impl Binary64 {
    pub open spec fn negative(self) -> bool {
        self.bits >= 0x8000_0000_0000_0000
    }

    /// The biased exponent field.
    pub open spec fn exponent(self) -> nat {
        (self.bits / 0x10_0000_0000_0000) as nat % 2048
    }

    /// The fraction field.
    pub open spec fn fraction(self) -> nat {
        self.bits as nat % 0x10_0000_0000_0000
    }

    pub open spec fn nan(self) -> bool {
        self.exponent() == 2047 && self.fraction() != 0
    }

    pub open spec fn finite(self) -> bool {
        self.exponent() != 2047
    }

    /// The magnitude in steps of 2^-1074: the absolute value is `units / one()`.
    pub open spec fn units(self) -> nat {
        if self.exponent() == 0 {
            self.fraction()
        } else {
            (self.fraction() + 0x10_0000_0000_0000) * pow2((self.exponent() - 1) as nat)
        }
    }

    /// The value in steps of 2^-1074, below zero for a negative number.
    pub open spec fn steps(self) -> int {
        if self.negative() {
            -self.units()
        } else {
            self.units() as int
        }
    }

    /// `self <= other`, as the number line orders them; false of a
    /// not-a-number.
    pub open spec fn at_most(self, other: Binary64) -> bool {
        &&& !self.nan()
        &&& !other.nan()
        &&& {
            ||| !self.finite() && self.negative()
            ||| !other.finite() && !other.negative()
            ||| self.finite() && other.finite() && self.steps() <= other.steps()
        }
    }

    /// `self >= k`, as the number line orders them; false of a not-a-number.
    pub open spec fn at_least(self, k: nat) -> bool {
        if self.nan() {
            false
        } else if self.negative() {
            k == 0 && self.finite() && self.units() == 0
        } else {
            !self.finite() || self.units() >= k * one()
        }
    }

    /// `self > k`, as the number line orders them; false of a not-a-number.
    pub open spec fn above(self, k: nat) -> bool {
        &&& !self.nan()
        &&& !self.negative()
        &&& !self.finite() || self.units() > k * one()
    }

    /// `self > limit` for a `limit` that is finite and not negative.
    pub open spec fn exceeds(self, limit: Binary64) -> bool {
        &&& !self.nan()
        &&& !self.negative()
        &&& !self.finite() || self.units() > limit.units()
    }

    /// The number is zero, of either sign.
    pub open spec fn zero(self) -> bool {
        self.finite() && self.units() == 0
    }

    fn exponent_field(self) -> (e: u64)
        ensures
            e == self.exponent(),
    {
        self.bits / 0x10_0000_0000_0000 % 2048
    }

    fn fraction_field(self) -> (f: u64)
        ensures
            f == self.fraction(),
    {
        self.bits % 0x10_0000_0000_0000
    }

    pub fn is_negative(self) -> (b: bool)
        ensures
            b == self.negative(),
    {
        self.bits >= 0x8000_0000_0000_0000
    }

    pub fn is_nan(self) -> (b: bool)
        ensures
            b == self.nan(),
    {
        self.exponent_field() == 2047 && self.fraction_field() != 0
    }

    pub fn is_finite(self) -> (b: bool)
        ensures
            b == self.finite(),
    {
        self.exponent_field() != 2047
    }

    pub fn is_zero(self) -> (b: bool)
        ensures
            b == self.zero(),
    {
        proof {
            lemma_pow2_pos((self.exponent() - 1) as nat);
            if self.exponent() != 0 {
                assert((self.fraction() + 0x10_0000_0000_0000) * pow2(
                    (self.exponent() - 1) as nat,
                ) > 0) by (nonlinear_arith)
                    requires
                        self.fraction() >= 0,
                        pow2((self.exponent() - 1) as nat) > 0,
                ;
            }
        }
        self.exponent_field() == 0 && self.fraction_field() == 0
    }

    /// The whole part of a finite magnitude and how its fraction compares to
    /// one half. Whole parts of 2^52 and more are reported as 2^52: from there
    /// on every number is a whole one.
    pub fn parts(self) -> (r: (u64, Tail))
        requires
            self.finite(),
        ensures
            r.0 <= 0x10_0000_0000_0000,
            r.0 < 0x10_0000_0000_0000 ==> r.0 == self.units() / one(),
            r.0 == 0x10_0000_0000_0000 ==> self.units() / one() >= 0x10_0000_0000_0000,
            r.1 == tail_of(self.units()),
    {
        let e: u64 = self.exponent_field();
        let f: u64 = self.fraction_field();
        let ghost units = self.units();
        proof {
            lemma_pow2_pos(1074);
            lemma_half_of_one();
        }
        if e == 0 {
            proof {
                lemma_pow2_52();
                lemma_pow2_strictly_increases(52, 1073);
                lemma_small(units);
            }
            if f == 0 {
                return (0, Tail::Zero);
            }
            return (0, Tail::BelowHalf);
        }
        let m: u64 = f + 0x10_0000_0000_0000;
        if e <= 1021 {
            proof {
                lemma_below_half(m as nat, (e - 1) as nat);
                lemma_small(units);
            }
            return (0, Tail::BelowHalf);
        }
        if e >= 1075 {
            proof {
                lemma_whole(m as nat, (e - 1) as nat);
            }
            return (0x10_0000_0000_0000, Tail::Zero);
        }
        let s: u64 = 1075 - e;
        let p: u64 = 1u64 << s;
        proof {
            lemma_u64_pow2_no_overflow(s as nat);
            lemma_u64_shl_is_mul(1, s);
            lemma_split(m as nat, (e - 1) as nat, s as nat);
            lemma_pow2_unfold(s as nat);
            lemma_pow2_pos((s - 1) as nat);
        }
        let whole: u64 = m / p;
        let rest: u64 = m % p;
        let half: u64 = p / 2;
        proof {
            assert(m < 0x20_0000_0000_0000);
            assert(p >= 2);
            assert(whole < 0x10_0000_0000_0000) by (nonlinear_arith)
                requires
                    m < 0x20_0000_0000_0000,
                    p >= 2,
                    whole == m / p,
            ;
            let a = pow2((e - 1) as nat);
            assert(units % one() == rest * a);
            assert(rest == 0 <==> rest * a == 0) by (nonlinear_arith)
                requires
                    a > 0,
            ;
            assert(one() == 2 * half * a) by (nonlinear_arith)
                requires
                    one() == p * a,
                    p == 2 * half,
            ;
            assert(2 * (rest * a) < 2 * half * a <==> rest < half) by (nonlinear_arith)
                requires
                    a > 0,
            ;
            assert(2 * (rest * a) == 2 * half * a <==> rest == half) by (nonlinear_arith)
                requires
                    a > 0,
            ;
        }
        if rest == 0 {
            (whole, Tail::Zero)
        } else if rest < half {
            (whole, Tail::BelowHalf)
        } else if rest == half {
            (whole, Tail::Half)
        } else {
            (whole, Tail::AboveHalf)
        }
    }

    /// `self >= k`.
    pub fn is_at_least(self, k: u32) -> (b: bool)
        ensures
            b == self.at_least(k as nat),
    {
        proof {
            lemma_pow2_pos(1074);
            lemma_at_least(self.units(), k as nat);
        }
        if self.is_nan() {
            return false;
        }
        if self.is_negative() {
            return k == 0 && self.is_zero();
        }
        if !self.is_finite() {
            return true;
        }
        let (whole, _tail) = self.parts();
        whole >= k as u64
    }

    /// `self > k`.
    pub fn is_above(self, k: u32) -> (b: bool)
        ensures
            b == self.above(k as nat),
    {
        proof {
            lemma_pow2_pos(1074);
            lemma_above(self.units(), k as nat);
        }
        if self.is_nan() || self.is_negative() {
            return false;
        }
        if !self.is_finite() {
            return true;
        }
        let (whole, tail) = self.parts();
        whole > k as u64 || (whole == k as u64 && tail != Tail::Zero)
    }

    /// `self > limit`.
    pub fn is_over(self, limit: Binary64) -> (b: bool)
        requires
            limit.finite(),
            !limit.negative(),
        ensures
            b == self.exceeds(limit),
    {
        proof {
            if self.finite() && !self.negative() {
                if self.bits > limit.bits {
                    lemma_bits_order(limit, self);
                } else if self.bits < limit.bits {
                    lemma_bits_order(self, limit);
                }
            }
        }
        if self.is_nan() || self.is_negative() {
            return false;
        }
        !self.is_finite() || self.bits > limit.bits
    }
}

/// Patterns of finite numbers without a sign are ordered as the numbers are.
proof fn lemma_bits_order(a: Binary64, b: Binary64)
    requires
        a.finite(),
        b.finite(),
        !a.negative(),
        !b.negative(),
        a.bits < b.bits,
    ensures
        a.units() < b.units(),
{
    let w = 0x10_0000_0000_0000nat;
    let (ea, fa) = (a.exponent(), a.fraction());
    let (eb, fb) = (b.exponent(), b.fraction());
    assert(a.bits == ea * w + fa);
    assert(b.bits == eb * w + fb);
    lemma_pow2_52();
    if ea == eb {
        if ea > 0 {
            let k = pow2((ea - 1) as nat);
            lemma_pow2_pos((ea - 1) as nat);
            assert((fa + w) * k < (fb + w) * k) by (nonlinear_arith)
                requires
                    fa < fb,
                    k > 0,
            ;
        }
    } else {
        assert(ea < eb);
        let kb = pow2((eb - 1) as nat);
        lemma_pow2_pos((eb - 1) as nat);
        assert((fb + w) * kb >= w * kb) by (nonlinear_arith)
            requires
                kb > 0,
                fb >= 0,
        ;
        if ea == 0 {
            assert(w * kb >= w) by (nonlinear_arith)
                requires
                    kb >= 1,
            ;
        } else {
            let ka = pow2((ea - 1) as nat);
            lemma_pow2_pos((ea - 1) as nat);
            lemma_pow2_unfold(ea);
            if ea < eb - 1 {
                lemma_pow2_strictly_increases(ea, (eb - 1) as nat);
            }
            assert((fa + w) * ka < (2 * w) * ka) by (nonlinear_arith)
                requires
                    ka > 0,
                    fa < w,
            ;
            assert((2 * w) * ka <= w * kb) by (nonlinear_arith)
                requires
                    2 * ka <= kb,
            ;
        }
    }
}

proof fn lemma_pow2_52()
    ensures
        pow2(52) == 0x10_0000_0000_0000,
        pow2(53) == 0x20_0000_0000_0000,
{
    lemma2_to64();
    lemma2_to64_rest();
}

proof fn lemma_half_of_one()
    ensures
        one() == 2 * pow2(1073),
        pow2(1073) > 0,
{
    lemma_pow2_unfold(1074);
    lemma_pow2_pos(1073);
}

/// A magnitude below one half has whole part 0.
proof fn lemma_small(units: nat)
    requires
        2 * units < one(),
    ensures
        units / one() == 0,
        units % one() == units,
{
    lemma_pow2_pos(1074);
    vstd::arithmetic::div_mod::lemma_basic_div(units as int, one() as int);
    vstd::arithmetic::div_mod::lemma_small_mod(units, one());
}

proof fn lemma_below_half(m: nat, k: nat)
    requires
        m < 0x20_0000_0000_0000,
        k <= 1020,
        m > 0,
    ensures
        2 * (m * pow2(k)) < one(),
        m * pow2(k) > 0,
{
    lemma_pow2_52();
    lemma_pow2_pos(k);
    lemma_pow2_adds(53, k);
    lemma_half_of_one();
    if 53 + k < 1073 {
        lemma_pow2_strictly_increases(53 + k, 1073);
    }
    assert(0 < m * pow2(k) < pow2(53) * pow2(k)) by (nonlinear_arith)
        requires
            0 < m < pow2(53),
            pow2(k) > 0,
    ;
}

proof fn lemma_whole(m: nat, k: nat)
    requires
        m >= 0x10_0000_0000_0000,
        k >= 1074,
    ensures
        (m * pow2(k)) % one() == 0,
        (m * pow2(k)) / one() >= 0x10_0000_0000_0000,
{
    let j = (k - 1074) as nat;
    lemma_pow2_adds(1074, j);
    lemma_pow2_pos(j);
    lemma_pow2_pos(1074);
    let d = one() as int;
    let q = m * pow2(j);
    assert(m * pow2(k) == q * d) by (nonlinear_arith)
        requires
            pow2(k) == d * pow2(j),
            q == m * pow2(j),
    ;
    assert(q >= m) by (nonlinear_arith)
        requires
            q == m * pow2(j),
            pow2(j) >= 1,
    ;
    vstd::arithmetic::div_mod::lemma_div_multiples_vanish(q as int, d);
    vstd::arithmetic::div_mod::lemma_mod_multiples_basic(q as int, d);
    assert(d * q == q * d) by (nonlinear_arith);
}

/// Dividing `m * 2^k` by 2^(k+s) is dividing `m` by 2^s.
proof fn lemma_split(m: nat, k: nat, s: nat)
    requires
        k + s == 1074,
    ensures
        (m * pow2(k)) / one() == m / pow2(s),
        (m * pow2(k)) % one() == (m % pow2(s)) * pow2(k),
        one() == pow2(s) * pow2(k),
        pow2(k) > 0,
        pow2(s) > 0,
{
    lemma_pow2_adds(k, s);
    lemma_pow2_pos(k);
    lemma_pow2_pos(s);
    let a = pow2(k) as int;
    let b = pow2(s) as int;
    assert(one() == a * b);
    assert(a * b == b * a) by (nonlinear_arith);
    vstd::arithmetic::div_mod::lemma_div_denominator(m * a, a, b);
    vstd::arithmetic::div_mod::lemma_div_multiples_vanish(m as int, a);
    assert(m * a == a * m) by (nonlinear_arith);
    vstd::arithmetic::div_mod::lemma_truncate_middle(m as int, a, b);
    assert(a * (m as int % b) == (m as int % b) * a) by (nonlinear_arith);
}

proof fn lemma_at_least(units: nat, k: nat)
    ensures
        units >= k * one() <==> units / one() >= k,
{
    lemma_pow2_pos(1074);
    let d = one();
    assert(units >= k * d <==> units / d >= k) by (nonlinear_arith)
        requires
            d > 0,
    ;
}

proof fn lemma_above(units: nat, k: nat)
    ensures
        units > k * one() <==> (units / one() > k || (units / one() == k && units % one() != 0)),
{
    lemma_pow2_pos(1074);
    let d = one();
    vstd::arithmetic::div_mod::lemma_fundamental_div_mod(units as int, d as int);
    let q = units / d;
    let r = units % d;
    assert(units > k * d <==> (q > k || (q == k && r != 0))) by (nonlinear_arith)
        requires
            units == d * q + r,
            0 <= r < d,
    ;
}

/// Adding one to the exponent doubles a normal number, adding one to the
/// fraction adds one step of its size, and the pattern of 1 stands for 1.
pub proof fn law_patterns_stand_for_their_numbers(x: Binary64, y: Binary64)
    ensures
        (Binary64 { bits: 0x3ff0_0000_0000_0000 }).units() == one(),
        0 < x.exponent() && y.exponent() == x.exponent() + 1 && y.fraction() == x.fraction()
            ==> y.units() == 2 * x.units(),
        0 < x.exponent() && y.exponent() == x.exponent() && y.fraction() == x.fraction() + 1
            ==> y.units() == x.units() + pow2((x.exponent() - 1) as nat),
        x.exponent() == 0 ==> x.units() == x.fraction(),
        one() == pow2(1074),
{
    let e1 = (Binary64 { bits: 0x3ff0_0000_0000_0000 });
    assert(e1.exponent() == 1023);
    assert(e1.fraction() == 0);
    lemma_pow2_52();
    lemma_pow2_adds(52, 1022);
    if 0 < x.exponent() {
        let k = pow2((x.exponent() - 1) as nat);
        let m = x.fraction() + 0x10_0000_0000_0000;
        lemma_pow2_unfold(x.exponent());
        assert(m * (2 * k) == 2 * (m * k)) by (nonlinear_arith);
        assert((m + 1) * k == m * k + k) by (nonlinear_arith);
    }
}

/// The sign bit tells a number from its opposite; what has the largest exponent
/// is no finite number, and not-a-number if its fraction says anything.
pub proof fn law_patterns_have_a_sign(x: Binary64, y: Binary64)
    requires
        y.bits == x.bits + 0x8000_0000_0000_0000,
    ensures
        !x.negative(),
        y.negative(),
        y.units() == x.units(),
        y.steps() == -x.steps(),
        y.finite() == x.finite(),
        y.nan() == x.nan(),
        x.finite() <==> x.bits < 0x7ff0_0000_0000_0000,
        x.nan() <==> x.bits > 0x7ff0_0000_0000_0000,
{
}

/// Comparisons with whole numbers agree with one another: what is above a
/// number is at least that, what reaches the next one is above it, and what is
/// not a number is neither.
pub proof fn law_comparisons_agree(x: Binary64, k: nat)
    ensures
        x.above(k) ==> x.at_least(k),
        x.at_least(k + 1) ==> x.above(k),
        x.at_least(k) && !x.above(k) <==> x.finite() && x.steps() == k * one(),
        x.nan() ==> !x.above(k) && !x.at_least(k),
        x.finite() ==> (x.above(k) <==> x.steps() > k * one()),
        x.finite() ==> (x.at_least(k) <==> x.steps() >= k * one()),
        !x.finite() && !x.nan() ==> x.above(k) == !x.negative() && x.at_least(k) == !x.negative(),
{
    lemma_pow2_pos(1074);
    let d = one();
    assert((k + 1) * d == k * d + d) by (nonlinear_arith);
    assert(k * d >= 0) by (nonlinear_arith)
        requires
            d > 0,
    ;
    assert(k * d == 0 <==> k == 0) by (nonlinear_arith)
        requires
            d > 0,
    ;
}

/// One number exceeds another where it is not at most as large.
pub proof fn law_numbers_are_ordered(x: Binary64, y: Binary64)
    ensures
        !x.nan() && !y.nan() ==> x.at_most(y) || y.at_most(x),
        x.nan() || y.nan() ==> !x.at_most(y),
        x.finite() && y.finite() ==> (x.at_most(y) <==> x.steps() <= y.steps()),
        y.finite() && !y.negative() ==> (x.exceeds(y) <==> !x.nan() && !x.at_most(y)),
        x.finite() && y.finite() && !x.negative() && !y.negative() ==> (x.at_most(y) <==> x.bits
            <= y.bits),
        x.zero() <==> x.finite() && x.steps() == 0,
{
    if x.finite() && y.finite() && !x.negative() && !y.negative() {
        if x.bits < y.bits {
            lemma_bits_order(x, y);
        } else if y.bits < x.bits {
            lemma_bits_order(y, x);
        }
    }
}

} // verus!
