//! Saturating fixed-point decimal arithmetic.
//!
//! A [`Num`] stores a value as an `i128` count of units of `1 / SCALE`
//! (twelve decimal places).  The representable range is
//! `[-RAW_LIMIT / SCALE, RAW_LIMIT / SCALE]`; every operation clamps its
//! result into that range, so the two end points behave like the infinities
//! that a binary floating-point build would use as sentinels.
//!
//! Every operation is specified exactly, as an integer function of the raw
//! representations: addition and subtraction saturate, multiplication and
//! division truncate toward zero at the twelfth decimal place, division by
//! zero saturates to the signed end point (and `0 / 0` is `0`), and the
//! square root rounds down.

use vstd::prelude::*;

use core::cmp::Ordering;

verus! {

/// Number of raw units in 1.0: twelve decimal places.
pub const SCALE: i128 = 1_000_000_000_000;

/// Largest raw magnitude a `Num` may hold (`10^26`, i.e. `10^14` as a value).
pub const RAW_LIMIT: i128 = 100_000_000_000_000_000_000_000_000;

/// Is `v` a representable raw value?
pub open spec fn in_range(v: int) -> bool {
    -(RAW_LIMIT as int) <= v <= RAW_LIMIT as int
}

/// Clamp a raw value into the representable range.
pub open spec fn clip(v: int) -> int {
    if v > RAW_LIMIT as int {
        RAW_LIMIT as int
    } else if v < -(RAW_LIMIT as int) {
        -(RAW_LIMIT as int)
    } else {
        v
    }
}

/// Magnitude of a raw value.
pub open spec fn abs_v(v: int) -> int {
    if v < 0 {
        -v
    } else {
        v
    }
}

/// Re-apply a sign to a nonnegative magnitude.
pub open spec fn signed(neg: bool, m: int) -> int {
    if neg {
        -m
    } else {
        m
    }
}

/// Raw result of saturating addition.
pub open spec fn add_v(a: int, b: int) -> int {
    clip(a + b)
}

/// Raw result of saturating subtraction.
pub open spec fn sub_v(a: int, b: int) -> int {
    clip(a - b)
}

/// Raw result of fixed-point multiplication: the mathematical product,
/// truncated toward zero at the twelfth decimal place, then clamped.
pub open spec fn mul_v(a: int, b: int) -> int {
    signed((a < 0) != (b < 0), clip(abs_v(a) * abs_v(b) / (SCALE as int)))
}

/// Raw result of fixed-point division, truncated toward zero and clamped.
/// Division by zero saturates to the signed end point; `0 / 0` is `0`.
pub open spec fn div_v(a: int, b: int) -> int {
    if b == 0 {
        if a > 0 {
            RAW_LIMIT as int
        } else if a < 0 {
            -(RAW_LIMIT as int)
        } else {
            0
        }
    } else {
        signed((a < 0) != (b < 0), clip(abs_v(a) * (SCALE as int) / abs_v(b)))
    }
}

/// `r` is the integer square root of `x`.
pub open spec fn is_isqrt(x: int, r: int) -> bool {
    &&& 0 <= r
    &&& r * r <= x
    &&& x < (r + 1) * (r + 1)
}

/// Raw result of the fixed-point square root, rounded down.
/// Nonpositive inputs give zero.
pub open spec fn sqrt_v(a: int) -> int {
    if a <= 0 {
        0
    } else {
        choose|r: int| #[trigger] is_isqrt(a * (SCALE as int), r)
    }
}

/// Every nonnegative integer has an integer square root.
proof fn lemma_isqrt_exists(x: int)
    requires
        x >= 0,
    ensures
        exists|r: int| #[trigger] is_isqrt(x, r),
    decreases x,
{
    if x == 0 {
        assert(is_isqrt(0, 0));
    } else {
        lemma_isqrt_exists(x - 1);
        let r = choose|r: int| #[trigger] is_isqrt(x - 1, r);
        if x < (r + 1) * (r + 1) {
            assert(is_isqrt(x, r));
        } else {
            assert(is_isqrt(x, r + 1)) by (nonlinear_arith)
                requires
                    is_isqrt(x - 1, r),
                    x >= (r + 1) * (r + 1);
        }
    }
}

/// What the square root denotes: for positive inputs, `sqrt_v(a)` really is
/// the rounded-down square root of `a * SCALE`, so `sqrt_v(a) / SCALE`
/// approximates the real square root of `a / SCALE` from below.
pub proof fn lemma_sqrt_v_is_isqrt(a: int)
    requires
        a > 0,
    ensures
        is_isqrt(a * (SCALE as int), sqrt_v(a)),
{
    assert(a * (SCALE as int) >= 0) by (nonlinear_arith)
        requires
            a > 0,
            SCALE == 1_000_000_000_000i128;
    lemma_isqrt_exists(a * (SCALE as int));
}

/// The square root denotes a nonnegative value on every input.
pub proof fn lemma_sqrt_v_nonneg(a: int)
    ensures
        sqrt_v(a) >= 0,
{
    if a > 0 {
        lemma_sqrt_v_is_isqrt(a);
    }
}

/// The integer square root is unique.
pub proof fn lemma_isqrt_unique(x: int, r1: int, r2: int)
    requires
        is_isqrt(x, r1),
        is_isqrt(x, r2),
    ensures
        r1 == r2,
{
    if r1 < r2 {
        assert((r1 + 1) * (r1 + 1) <= r2 * r2) by (nonlinear_arith)
            requires
                0 <= r1,
                r1 + 1 <= r2;
    }
    if r2 < r1 {
        assert((r2 + 1) * (r2 + 1) <= r1 * r1) by (nonlinear_arith)
            requires
                0 <= r2,
                r2 + 1 <= r1;
    }
}

/// A saturating fixed-point decimal number with twelve decimal places.
#[derive(Clone, Copy, Debug, PartialEq, Eq, Structural)]
pub struct Num {
    raw: i128,
}

impl Num {
    /// Every `Num` holds a raw value in the representable range: each
    /// constructor clamps.
    #[verifier::type_invariant]
    pub open spec fn inv(self) -> bool {
        in_range(self@)
    }
}

impl View for Num {
    type V = int;

    closed spec fn view(&self) -> int {
        self.raw as int
    }
}

impl Num {
    /// The value zero.
    pub fn zero() -> (r: Num)
        ensures
            r@ == 0,
    {
        Num { raw: 0 }
    }

    /// The value one.
    pub fn one() -> (r: Num)
        ensures
            r@ == SCALE as int,
    {
        Num { raw: SCALE }
    }

    /// The largest representable value; used as a positive-infinity sentinel.
    pub fn max_value() -> (r: Num)
        ensures
            r@ == RAW_LIMIT as int,
    {
        Num { raw: RAW_LIMIT }
    }

    /// The smallest representable value; used as a negative-infinity sentinel.
    pub fn min_value() -> (r: Num)
        ensures
            r@ == -(RAW_LIMIT as int),
    {
        Num { raw: -RAW_LIMIT }
    }

    /// Build a number from a raw count of `1 / SCALE` units, clamping.
    pub fn from_raw(raw: i128) -> (r: Num)
        ensures
            r@ == clip(raw as int),
    {
        if raw > RAW_LIMIT {
            Num { raw: RAW_LIMIT }
        } else if raw < -RAW_LIMIT {
            Num { raw: -RAW_LIMIT }
        } else {
            Num { raw }
        }
    }

    /// The raw count of `1 / SCALE` units.
    pub fn raw(self) -> (r: i128)
        ensures
            r as int == self@,
    {
        self.raw
    }

    /// Convert an integer, clamping.
    pub fn from_int(v: i64) -> (r: Num)
        ensures
            r@ == clip(v as int * SCALE as int),
    {
        Num::from_raw((v as i128) * SCALE)
    }

    /// Convert a count, clamping.
    pub fn from_usize(v: usize) -> (r: Num)
        ensures
            r@ == clip(v as int * SCALE as int),
    {
        proof {
            assert((v as int) * (SCALE as int) <= u128::MAX as int) by (nonlinear_arith)
                requires
                    0 <= v as int <= 18_446_744_073_709_551_615,
                    SCALE == 1_000_000_000_000i128;
        }
        let wide: u128 = (v as u128) * (SCALE as u128);
        if wide > RAW_LIMIT as u128 {
            Num { raw: RAW_LIMIT }
        } else {
            Num { raw: wide as i128 }
        }
    }

    /// Build `mantissa * 10^(-scale)`, as `rust_decimal`-style parts, clamping.
    pub fn new(mantissa: i64, scale: u32) -> (r: Num)
        requires
            scale <= 12,
        ensures
            r@ == clip(mantissa as int * pow10((12 - scale) as nat)),
    {
        let factor: i128 = pow10_exec(12 - scale);
        let m: i128 = mantissa as i128;
        proof {
            assert(-(i128::MAX as int) <= (m as int) * (factor as int) <= i128::MAX as int)
                by (nonlinear_arith)
                requires
                    -(9_223_372_036_854_775_808 as int) <= m as int
                        <= 9_223_372_036_854_775_807 as int,
                    1 <= factor as int <= 1_000_000_000_000;
        }
        Num::from_raw(m * factor)
    }

    /// Saturating addition.
    pub fn add(self, other: Num) -> (r: Num)
        ensures
            r@ == add_v(self@, other@),
    {
        proof {
            use_type_invariant(&self);
            use_type_invariant(&other);
        }
        let s: i128 = self.raw + other.raw;
        Num::from_raw(s)
    }

    /// Saturating subtraction.
    pub fn sub(self, other: Num) -> (r: Num)
        ensures
            r@ == sub_v(self@, other@),
    {
        proof {
            use_type_invariant(&self);
            use_type_invariant(&other);
        }
        let s: i128 = self.raw - other.raw;
        Num::from_raw(s)
    }

    /// Negation.
    pub fn neg(self) -> (r: Num)
        ensures
            r@ == -self@,
    {
        proof {
            use_type_invariant(&self);
        }
        Num { raw: -self.raw }
    }

    /// Magnitude.
    pub fn abs(self) -> (r: Num)
        ensures
            r@ == abs_v(self@),
    {
        proof {
            use_type_invariant(&self);
        }
        if self.raw < 0 {
            Num { raw: -self.raw }
        } else {
            self
        }
    }

    /// Fixed-point multiplication, truncating toward zero and clamping.
    pub fn mul(self, other: Num) -> (r: Num)
        ensures
            r@ == mul_v(self@, other@),
    {
        proof {
            use_type_invariant(&self);
            use_type_invariant(&other);
        }
        let neg: bool = (self.raw < 0) != (other.raw < 0);
        let a: u128 = if self.raw < 0 {
            (-self.raw) as u128
        } else {
            self.raw as u128
        };
        let b: u128 = if other.raw < 0 {
            (-other.raw) as u128
        } else {
            other.raw as u128
        };
        let mag: u128 = match a.checked_mul(b) {
            Some(p) => p / (SCALE as u128),
            None => {
                proof {
                    lemma_big_quotient(a as int * b as int);
                }
                RAW_LIMIT as u128
            },
        };
        let mag: u128 = if mag > RAW_LIMIT as u128 {
            RAW_LIMIT as u128
        } else {
            mag
        };
        if neg {
            Num { raw: -(mag as i128) }
        } else {
            Num { raw: mag as i128 }
        }
    }

    /// Fixed-point division, truncating toward zero and clamping; division
    /// by zero saturates to the signed end point, and `0 / 0` is `0`.
    pub fn div(self, other: Num) -> (r: Num)
        ensures
            r@ == div_v(self@, other@),
    {
        proof {
            use_type_invariant(&self);
            use_type_invariant(&other);
        }
        if other.raw == 0 {
            if self.raw > 0 {
                Num { raw: RAW_LIMIT }
            } else if self.raw < 0 {
                Num { raw: -RAW_LIMIT }
            } else {
                Num { raw: 0 }
            }
        } else {
            let neg: bool = (self.raw < 0) != (other.raw < 0);
            let a: u128 = if self.raw < 0 {
                (-self.raw) as u128
            } else {
                self.raw as u128
            };
            let b: u128 = if other.raw < 0 {
                (-other.raw) as u128
            } else {
                other.raw as u128
            };
            proof {
                assert((a as int) * (SCALE as int) <= u128::MAX as int) by (nonlinear_arith)
                    requires
                        a as int <= RAW_LIMIT as int,
                        SCALE == 1_000_000_000_000i128,
                        RAW_LIMIT == 100_000_000_000_000_000_000_000_000i128;
            }
            let wide: u128 = a * (SCALE as u128);
            let mag: u128 = wide / b;
            let mag: u128 = if mag > RAW_LIMIT as u128 {
                RAW_LIMIT as u128
            } else {
                mag
            };
            if neg {
                Num { raw: -(mag as i128) }
            } else {
                Num { raw: mag as i128 }
            }
        }
    }

    /// Fixed-point square root, rounded down; nonpositive inputs give zero.
    pub fn sqrt(self) -> (r: Num)
        ensures
            r@ == sqrt_v(self@),
            r@ >= 0,
    {
        proof {
            use_type_invariant(&self);
        }
        if self.raw <= 0 {
            Num { raw: 0 }
        } else {
            let x: u128 = (self.raw as u128) * (SCALE as u128);
            let root: u128 = isqrt_u128(x);
            proof {
                assert(root as int <= RAW_LIMIT as int) by (nonlinear_arith)
                    requires
                        is_isqrt(x as int, root as int),
                        x as int <= RAW_LIMIT as int * SCALE as int;
                let rc = choose|r: int| #[trigger] is_isqrt(self@ * SCALE as int, r);
                lemma_isqrt_unique(x as int, root as int, rc);
            }
            Num { raw: root as i128 }
        }
    }

    /// The larger of two numbers.
    pub fn max(self, other: Num) -> (r: Num)
        ensures
            r@ == if self@ >= other@ { self@ } else { other@ },
    {
        if self.raw >= other.raw {
            self
        } else {
            other
        }
    }

    /// The smaller of two numbers.
    pub fn min(self, other: Num) -> (r: Num)
        ensures
            r@ == if self@ <= other@ { self@ } else { other@ },
    {
        if self.raw <= other.raw {
            self
        } else {
            other
        }
    }

    /// Is this number strictly negative?
    pub fn is_negative(self) -> (r: bool)
        ensures
            r == (self@ < 0),
    {
        self.raw < 0
    }
}

impl PartialOrd for Num {
    fn partial_cmp(&self, other: &Num) -> (r: Option<Ordering>) {
        if self.raw < other.raw {
            Some(Ordering::Less)
        } else if self.raw == other.raw {
            Some(Ordering::Equal)
        } else {
            Some(Ordering::Greater)
        }
    }
}

impl vstd::std_specs::cmp::PartialOrdSpecImpl for Num {
    open spec fn obeys_partial_cmp_spec() -> bool {
        true
    }

    open spec fn partial_cmp_spec(&self, other: &Num) -> Option<Ordering> {
        if self@ < other@ {
            Some(Ordering::Less)
        } else if self@ == other@ {
            Some(Ordering::Equal)
        } else {
            Some(Ordering::Greater)
        }
    }
}

/// Two numbers with the same raw value are the same number.
pub proof fn lemma_num_view_injective(a: Num, b: Num)
    ensures
        a@ == b@ ==> a == b,
{
}

/// Powers of ten, as raw integers.
pub open spec fn pow10(e: nat) -> int
    decreases e,
{
    if e == 0 {
        1
    } else {
        10 * pow10((e - 1) as nat)
    }
}

/// `10^e` for `e <= 12`.
fn pow10_exec(e: u32) -> (r: i128)
    requires
        e <= 12,
    ensures
        r as int == pow10(e as nat),
        1 <= r <= SCALE,
{
    let mut i: u32 = 0;
    let mut f: i128 = 1;
    proof {
        lemma_pow10_bounds(e as nat);
    }
    while i < e
        invariant
            i <= e <= 12,
            f as int == pow10(i as nat),
            1 <= f as int <= pow10(e as nat),
            pow10(e as nat) <= SCALE as int,
        decreases e - i,
    {
        proof {
            lemma_pow10_increases(i as nat + 1, e as nat);
        }
        f = f * 10;
        i = i + 1;
    }
    f
}

/// Powers of ten are at least one.
proof fn lemma_pow10_pos(e: nat)
    ensures
        1 <= pow10(e),
    decreases e,
{
    if e > 0 {
        lemma_pow10_pos((e - 1) as nat);
    }
}

/// Powers of ten grow with the exponent.
proof fn lemma_pow10_increases(e1: nat, e2: nat)
    requires
        e1 <= e2,
    ensures
        pow10(e1) <= pow10(e2),
        1 <= pow10(e1),
    decreases e2,
{
    lemma_pow10_pos(e1);
    if e1 < e2 {
        lemma_pow10_increases(e1, (e2 - 1) as nat);
    }
}

/// `10^e <= SCALE` for `e <= 12`.
proof fn lemma_pow10_bounds(e: nat)
    requires
        e <= 12,
    ensures
        1 <= pow10(e) <= SCALE as int,
{
    lemma_pow10_increases(e, 12);
    lemma_pow10_increases(0, e);
    reveal_with_fuel(pow10, 13);
    assert(pow10(12) == SCALE as int);
}

/// A product too large for `u128` yields a clamped quotient.
proof fn lemma_big_quotient(p: int)
    requires
        p > u128::MAX as int,
    ensures
        clip(p / (SCALE as int)) == RAW_LIMIT as int,
{
    assert((RAW_LIMIT as int + 1) * (SCALE as int) <= u128::MAX as int);
    assert(p / (SCALE as int) > RAW_LIMIT as int) by (nonlinear_arith)
        requires
            p > u128::MAX as int,
            (RAW_LIMIT as int + 1) * (SCALE as int) <= u128::MAX as int;
}

/// Integer square root of a `u128`, by bisection.
fn isqrt_u128(x: u128) -> (r: u128)
    ensures
        is_isqrt(x as int, r as int),
{
    let mut lo: u128 = 0;
    let mut hi: u128 = 18_446_744_073_709_551_616;
    proof {
        assert((hi as int) * (hi as int) > x as int) by (nonlinear_arith)
            requires
                hi as int == 18_446_744_073_709_551_616,
                x as int <= u128::MAX as int;
    }
    while lo + 1 < hi
        invariant
            lo < hi,
            hi <= 18_446_744_073_709_551_616,
            (lo as int) * (lo as int) <= x as int,
            (hi as int) * (hi as int) > x as int,
        decreases hi - lo,
    {
        let mid: u128 = lo + (hi - lo) / 2;
        proof {
            assert((mid as int) * (mid as int) < u128::MAX as int) by (nonlinear_arith)
                requires
                    (mid as int) < 18_446_744_073_709_551_616;
        }
        if mid * mid <= x {
            lo = mid;
        } else {
            hi = mid;
        }
    }
    lo
}

} // verus!
