//! Double-precision numbers held as IEEE 754 binary64 bit patterns.
//!
//! Thresholds and measured values are doubles. Their comparisons are decided
//! here on the bit patterns themselves, and every decision is stated over the
//! exact value that a pattern stands for.
//!
//! Every finite double is a whole multiple of 2^-1074, so its exact value is
//! given as an integer: the value multiplied by 2^1074.

use vstd::prelude::*;
use vstd::arithmetic::power2::pow2;
use vstd::arithmetic::power2::lemma_pow2_pos;
use vstd::arithmetic::power2::lemma_pow2_adds;
use vstd::arithmetic::power2::lemma_pow2_strictly_increases;
use vstd::arithmetic::power2::lemma2_to64;
use vstd::arithmetic::power2::lemma2_to64_rest;
use vstd::arithmetic::mul::lemma_mul_inequality;
use vstd::arithmetic::mul::lemma_mul_strict_inequality;
use vstd::arithmetic::mul::lemma_mul_is_commutative;

verus! {

/// The sign bit of a pattern.
pub const SIGN_BIT: u64 = 0x8000_0000_0000_0000;

/// The pattern of positive infinity: exponent field all ones, fraction zero.
pub const INFINITY_BITS: u64 = 0x7ff0_0000_0000_0000;

/// Two to the 52nd: the weight of the hidden bit, and the number of patterns
/// that share one exponent field.
pub const HIDDEN_BIT: u64 = 0x10_0000_0000_0000;

/// A double-precision number, held as its bit pattern.
///
/// The derived `==` compares patterns: it tells `-0.0` from `0.0` and finds a
/// NaN equal to itself. Numeric comparison is `lt`, `le`, `gt`, `ge`,
/// `close_to` and `apart_from`.
#[derive(Clone, Copy, Debug, PartialEq, Eq, Structural)]
pub struct Double {
    pub bits: u64,
}

impl Double {
    /// The pattern without its sign bit.
    pub open spec fn magnitude_bits(self) -> u64 {
        if self.bits >= SIGN_BIT {
            (self.bits - SIGN_BIT) as u64
        } else {
            self.bits
        }
    }

    /// Whether the sign bit is set (also true of `-0.0` and of some NaNs).
    pub open spec fn negative(self) -> bool {
        self.bits >= SIGN_BIT
    }

    /// Whether the pattern is a NaN.
    pub open spec fn nan(self) -> bool {
        self.magnitude_bits() > INFINITY_BITS
    }

    /// Whether the pattern is positive or negative infinity.
    pub open spec fn infinite(self) -> bool {
        self.magnitude_bits() == INFINITY_BITS
    }

    /// Whether the pattern is a zero, a subnormal or a normal number.
    pub open spec fn finite(self) -> bool {
        self.magnitude_bits() < INFINITY_BITS
    }

    /// The exponent field, from 0 to 2047.
    pub open spec fn exponent_field(self) -> nat {
        (self.magnitude_bits() / HIDDEN_BIT) as nat
    }

    /// The fraction field, below 2^52.
    pub open spec fn fraction_field(self) -> nat {
        (self.magnitude_bits() % HIDDEN_BIT) as nat
    }

    /// The significand as a whole number: the fraction, with the hidden bit
    /// added for every exponent field but zero.
    pub open spec fn significand(self) -> nat {
        if self.exponent_field() == 0 {
            self.fraction_field()
        } else {
            HIDDEN_BIT as nat + self.fraction_field()
        }
    }

    /// The power of two by which the significand is multiplied, counted from
    /// 2^-1074. Subnormals and the lowest normal binade share the power 0.
    pub open spec fn scale(self) -> nat {
        if self.exponent_field() == 0 {
            0
        } else {
            (self.exponent_field() - 1) as nat
        }
    }

    /// The absolute value multiplied by 2^1074. For an infinity this is
    /// 2^2098, which lies above the magnitude of every finite double. Of a NaN
    /// it says nothing of use.
    pub open spec fn magnitude(self) -> nat {
        self.significand() * pow2(self.scale())
    }

    /// The value multiplied by 2^1074, with infinities placed at plus and
    /// minus 2^2098. The two zeros share the value 0.
    pub open spec fn scaled_value(self) -> int {
        if self.negative() {
            -(self.magnitude() as int)
        } else {
            self.magnitude() as int
        }
    }

    /// `self < other` as IEEE 754 orders doubles: false when either is a NaN.
    pub open spec fn lt_spec(self, other: Double) -> bool {
        !self.nan() && !other.nan() && self.scaled_value() < other.scaled_value()
    }

    /// `self <= other` as IEEE 754 orders doubles: false when either is a NaN.
    pub open spec fn le_spec(self, other: Double) -> bool {
        !self.nan() && !other.nan() && self.scaled_value() <= other.scaled_value()
    }

    /// `self > other` as IEEE 754 orders doubles: false when either is a NaN.
    pub open spec fn gt_spec(self, other: Double) -> bool {
        !self.nan() && !other.nan() && self.scaled_value() > other.scaled_value()
    }

    /// `self >= other` as IEEE 754 orders doubles: false when either is a NaN.
    pub open spec fn ge_spec(self, other: Double) -> bool {
        !self.nan() && !other.nan() && self.scaled_value() >= other.scaled_value()
    }

    /// Wraps a bit pattern.
    pub fn from_bits(bits: u64) -> (d: Double)
        ensures
            d.bits == bits,
    {
        Double { bits }
    }

    /// The bit pattern.
    pub fn to_bits(&self) -> (bits: u64)
        ensures
            bits == self.bits,
    {
        self.bits
    }

    /// The pattern without its sign bit.
    fn magnitude_of(&self) -> (m: u64)
        ensures
            m == self.magnitude_bits(),
            m < SIGN_BIT,
    {
        if self.bits >= SIGN_BIT {
            self.bits - SIGN_BIT
        } else {
            self.bits
        }
    }

    pub fn is_sign_negative(&self) -> (r: bool)
        ensures
            r == self.negative(),
    {
        self.bits >= SIGN_BIT
    }

    pub fn is_nan(&self) -> (r: bool)
        ensures
            r == self.nan(),
    {
        self.magnitude_of() > INFINITY_BITS
    }

    pub fn is_infinite(&self) -> (r: bool)
        ensures
            r == self.infinite(),
    {
        self.magnitude_of() == INFINITY_BITS
    }

    pub fn is_finite(&self) -> (r: bool)
        ensures
            r == self.finite(),
    {
        self.magnitude_of() < INFINITY_BITS
    }

    /// A signed integer that orders the non-NaN patterns as their values are
    /// ordered.
    fn order_key(&self) -> (k: i64)
        requires
            !self.nan(),
        ensures
            k == if self.negative() {
                -(self.magnitude_bits() as int)
            } else {
                self.magnitude_bits() as int
            },
    {
        let m: u64 = self.magnitude_of();
        if self.bits >= SIGN_BIT {
            -(m as i64)
        } else {
            m as i64
        }
    }

    /// `self < other`; false when either is a NaN.
    pub fn lt(&self, other: &Double) -> (r: bool)
        ensures
            r == self.lt_spec(*other),
    {
        if self.is_nan() || other.is_nan() {
            return false;
        }
        proof {
            lemma_order_key(*self, *other);
        }
        self.order_key() < other.order_key()
    }

    /// `self <= other`; false when either is a NaN.
    pub fn le(&self, other: &Double) -> (r: bool)
        ensures
            r == self.le_spec(*other),
    {
        if self.is_nan() || other.is_nan() {
            return false;
        }
        proof {
            lemma_order_key(*self, *other);
        }
        self.order_key() <= other.order_key()
    }

    /// `self > other`; false when either is a NaN.
    pub fn gt(&self, other: &Double) -> (r: bool)
        ensures
            r == self.gt_spec(*other),
    {
        if self.is_nan() || other.is_nan() {
            return false;
        }
        proof {
            lemma_order_key(*self, *other);
        }
        self.order_key() > other.order_key()
    }

    /// `self >= other`; false when either is a NaN.
    pub fn ge(&self, other: &Double) -> (r: bool)
        ensures
            r == self.ge_spec(*other),
    {
        if self.is_nan() || other.is_nan() {
            return false;
        }
        proof {
            lemma_order_key(*self, *other);
        }
        self.order_key() >= other.order_key()
    }
}

/// The magnitude of a pattern grows strictly with the pattern itself, over
/// zeros, subnormals, normals and infinity alike.
pub proof fn lemma_magnitude_increases(a: Double, b: Double)
    requires
        !a.nan(),
        !b.nan(),
        a.magnitude_bits() < b.magnitude_bits(),
    ensures
        a.magnitude() < b.magnitude(),
{
    let ea = a.exponent_field();
    let eb = b.exponent_field();
    let h = HIDDEN_BIT as nat;
    lemma2_to64();
    lemma_pow2_pos(a.scale());
    lemma_pow2_pos(b.scale());
    assert(ea <= eb);
    if ea == eb {
        lemma_mul_strict_inequality(
            a.significand() as int,
            b.significand() as int,
            pow2(a.scale()) as int,
        );
    } else if ea == 0 {
        // A subnormal lies below the hidden bit; every normal number reaches it.
        lemma_mul_inequality(1, pow2(b.scale()) as int, b.significand() as int);
        lemma_mul_is_commutative(pow2(b.scale()) as int, b.significand() as int);
    } else {
        // a < 2^53 * 2^(ea - 1) = 2^52 * 2^ea <= 2^52 * 2^(eb - 1) <= b
        let sa = a.scale();
        let sb = b.scale();
        lemma_mul_strict_inequality(a.significand() as int, (2 * h) as int, pow2(sa) as int);
        lemma_pow2_adds(sa, 1);
        assert((2 * h) * pow2(sa) == h * pow2(sa + 1)) by (nonlinear_arith)
            requires
                pow2(sa + 1) == pow2(sa) * 2,
        ;
        if sa + 1 < sb {
            lemma_pow2_strictly_increases(sa + 1, sb);
        }
        lemma_mul_inequality(pow2(sa + 1) as int, pow2(sb) as int, h as int);
        lemma_mul_is_commutative(pow2(sa + 1) as int, h as int);
        lemma_mul_is_commutative(pow2(sb) as int, h as int);
        lemma_mul_inequality(h as int, b.significand() as int, pow2(sb) as int);
    }
}

/// Two patterns with one magnitude pattern have one magnitude, and of two
/// others the one with the larger pattern has the larger magnitude.
pub proof fn lemma_magnitude_order(a: Double, b: Double)
    requires
        !a.nan(),
        !b.nan(),
    ensures
        a.magnitude_bits() < b.magnitude_bits() <==> a.magnitude() < b.magnitude(),
        a.magnitude_bits() == b.magnitude_bits() <==> a.magnitude() == b.magnitude(),
{
    if a.magnitude_bits() < b.magnitude_bits() {
        lemma_magnitude_increases(a, b);
    } else if b.magnitude_bits() < a.magnitude_bits() {
        lemma_magnitude_increases(b, a);
    }
}

/// The signed magnitude pattern orders non-NaN doubles as their values do.
proof fn lemma_order_key(a: Double, b: Double)
    requires
        !a.nan(),
        !b.nan(),
    ensures
        ({
            let ka = if a.negative() { -(a.magnitude_bits() as int) } else { a.magnitude_bits() as int };
            let kb = if b.negative() { -(b.magnitude_bits() as int) } else { b.magnitude_bits() as int };
            &&& (ka < kb <==> a.scaled_value() < b.scaled_value())
            &&& (ka == kb <==> a.scaled_value() == b.scaled_value())
        }),
{
    lemma_magnitude_order(a, b);
    let zero = Double { bits: 0 };
    assert(zero.magnitude() == 0) by {
        assert(zero.significand() == 0);
    }
    lemma_magnitude_order(a, zero);
    lemma_magnitude_order(b, zero);
}

/// Machine epsilon, 2^-52, multiplied by 2^1074.
pub open spec fn epsilon_scaled() -> int {
    pow2(1022) as int
}

/// The least exact distance, multiplied by 2^1074, that binary64 subtraction
/// rounds to machine epsilon or above.
///
/// The doubles just below 2^-52 lie 2^-105 apart, so the largest of them is
/// 2^-52 - 2^-105. An exact difference half-way between that and 2^-52 is a
/// tie, and a tie goes to the even significand, which is that of 2^-52.
/// Rounding never changes the order of two values, so the rounded difference
/// is below 2^-52 exactly when the exact one is below 2^-52 - 2^-106.
pub open spec fn epsilon_cutoff() -> int {
    epsilon_scaled() - pow2(968)
}

/// The cutoff lies half-way between machine epsilon and the largest double
/// below it, 2^-52 - 2^-105, and both are whole multiples of 2^-105: no double
/// lies strictly between them.
pub proof fn lemma_cutoff_is_half_way()
    ensures
        2 * epsilon_cutoff() == (epsilon_scaled() - pow2(969)) + epsilon_scaled(),
        epsilon_scaled() == pow2(53) * pow2(969),
        0 < epsilon_cutoff() < epsilon_scaled(),
{
    lemma_pow2_adds(968, 1);
    lemma_pow2_adds(53, 969);
    lemma_pow2_pos(968);
    lemma2_to64();
    lemma_pow2_strictly_increases(968, 1022);
}

/// The exact distance between two non-NaN doubles, multiplied by 2^1074.
pub open spec fn distance(a: Double, b: Double) -> int {
    let d = a.scaled_value() - b.scaled_value();
    if d < 0 {
        -d
    } else {
        d
    }
}

/// The pattern of 2^-51, twice machine epsilon.
pub const TWO_EPSILON_BITS: u64 = 0x3cc0_0000_0000_0000;

/// `2^118 - 2^64`: the cutoff counted in units of 2^-170.
const CUTOFF_IN_WINDOW: u128 = 0x3f_ffff_ffff_ffff_0000_0000_0000_0000;

/// The least scale that the window of `close_to` holds exactly.
const WINDOW_SCALE: u64 = 904;

impl Double {
    /// `|self - other| < epsilon` as binary64 arithmetic decides it, epsilon
    /// being 2^-52: both are finite and their exact distance is below the
    /// cutoff under which the rounded difference stays below epsilon.
    ///
    /// With a NaN or an infinity on either side the difference is a NaN or an
    /// infinity, and is not below epsilon.
    pub open spec fn close_spec(self, other: Double) -> bool {
        self.finite() && other.finite() && distance(self, other) < epsilon_cutoff()
    }

    /// `|self - other| >= epsilon` as binary64 arithmetic decides it: neither
    /// is a NaN, they are not the same infinity (whose difference is a NaN),
    /// and they are not `close_spec`.
    pub open spec fn apart_spec(self, other: Double) -> bool {
        &&& !self.nan()
        &&& !other.nan()
        &&& !(self.infinite() && other.infinite() && self.negative() == other.negative())
        &&& !self.close_spec(other)
    }

    /// The significand and scale of a finite pattern.
    fn decode(&self) -> (r: (u64, u64))
        requires
            self.finite(),
        ensures
            r.0 == self.significand(),
            r.1 == self.scale(),
            r.0 < 2 * HIDDEN_BIT,
            r.1 <= 2045,
            r.1 >= 1 ==> r.0 >= HIDDEN_BIT,
    {
        let m: u64 = self.magnitude_of();
        let field: u64 = m / HIDDEN_BIT;
        let fraction: u64 = m % HIDDEN_BIT;
        if field == 0 {
            (fraction, 0)
        } else {
            (HIDDEN_BIT + fraction, field - 1)
        }
    }

    /// `|self - other| < epsilon`, as the subtraction and comparison of two
    /// doubles decide it.
    pub fn close_to(&self, other: &Double) -> (r: bool)
        ensures
            r == self.close_spec(*other),
    {
        if !self.is_finite() || !other.is_finite() {
            return false;
        }
        let same_sign: bool = self.is_sign_negative() == other.is_sign_negative();
        let swap: bool = self.magnitude_of() < other.magnitude_of();
        let hi: Double = if swap { *other } else { *self };
        let lo: Double = if swap { *self } else { *other };
        let (m_hi, e_hi) = hi.decode();
        let (m_lo, e_lo) = lo.decode();
        proof {
            lemma_magnitude_order(hi, lo);
            lemma_distance(hi, lo);
        }
        if hi.magnitude_of() >= TWO_EPSILON_BITS {
            // From twice epsilon on, only a double of the same sign and of
            // nearly the same scale can be close: the two significands are
            // brought to one scale and subtracted.
            proof {
                lemma_large(hi, lo);
            }
            if !same_sign || e_hi - e_lo >= 2 {
                return false;
            }
            let top: u64 = if e_hi > e_lo { m_hi * 2 } else { m_hi };
            proof {
                lemma_aligned(hi, lo);
            }
            let d: u64 = top - m_lo;
            let s: u64 = e_lo - 968;
            if s >= 54 {
                d == 0
            } else {
                proof {
                    vstd::bits::lemma_u64_shl_is_mul(1, (54 - s) as u64);
                }
                d < (1u64 << (54 - s))
            }
        } else {
            // Below twice epsilon both magnitudes fit a window of 128 bits
            // that starts 64 bits under the cutoff; what falls under the
            // window is too small to decide anything.
            proof {
                lemma_small(hi, lo);
            }
            let a: u128 = in_window(m_hi, e_hi);
            let b: u128 = in_window(m_lo, e_lo);
            let d: u128 = if same_sign { a - b } else { a + b };
            d < CUTOFF_IN_WINDOW
        }
    }

    /// `|self - other| >= epsilon`, as the subtraction and comparison of two
    /// doubles decide it.
    pub fn apart_from(&self, other: &Double) -> (r: bool)
        ensures
            r == self.apart_spec(*other),
    {
        if self.is_nan() || other.is_nan() {
            return false;
        }
        if self.is_infinite() && other.is_infinite() && self.is_sign_negative()
            == other.is_sign_negative() {
            return false;
        }
        !self.close_to(other)
    }
}

/// What a magnitude `m * 2^e` comes to in units of 2^904, where `e` is at
/// most 970: exact from the scale 904 on, and 0 below it.
pub open spec fn window_value(m: nat, e: nat) -> nat {
    if e < 904 {
        0
    } else {
        m * pow2((e - 904) as nat)
    }
}

/// Two to the power `k`.
fn power_of_two(k: u64) -> (p: u128)
    requires
        k <= 66,
    ensures
        p == pow2(k as nat),
        p <= 0x4_0000_0000_0000_0000,
{
    proof {
        lemma_powers();
        lemma2_to64();
    }
    let mut p: u128 = 1;
    let mut i: u64 = 0;
    while i < k
        invariant
            i <= k <= 66,
            p == pow2(i as nat),
            pow2(66) == 0x4_0000_0000_0000_0000,
        decreases k - i,
    {
        proof {
            lemma_pow2_strictly_increases(i as nat, 66);
            lemma_pow2_adds(i as nat, 1);
            lemma2_to64();
        }
        p = p * 2;
        i = i + 1;
    }
    proof {
        if k < 66 {
            lemma_pow2_strictly_increases(k as nat, 66);
        }
    }
    p
}

/// The magnitude `m * 2^e` in units of 2^904.
fn in_window(m: u64, e: u64) -> (w: u128)
    requires
        m < 2 * HIDDEN_BIT,
        e <= 970,
    ensures
        w == window_value(m as nat, e as nat),
{
    if e < WINDOW_SCALE {
        0
    } else {
        let p: u128 = power_of_two(e - WINDOW_SCALE);
        assert(m * p <= 0x20_0000_0000_0000 * 0x4_0000_0000_0000_0000) by (nonlinear_arith)
            requires
                m <= 0x20_0000_0000_0000,
                p <= 0x4_0000_0000_0000_0000,
        ;
        (m as u128) * p
    }
}

/// The powers of two that the proofs below name.
proof fn lemma_powers()
    ensures
        pow2(2) == 4,
        pow2(52) == HIDDEN_BIT,
        pow2(53) == 2 * HIDDEN_BIT,
        pow2(54) == 4 * HIDDEN_BIT,
        pow2(64) == 0x1_0000_0000_0000_0000,
        pow2(65) == 0x2_0000_0000_0000_0000,
        pow2(66) == 0x4_0000_0000_0000_0000,
        pow2(118) == 0x40_0000_0000_0000_0000_0000_0000_0000,
        pow2(904) > 0,
        pow2(968) > 0,
        pow2(904) == 2 * pow2(903),
        pow2(968) == pow2(64) * pow2(904),
        pow2(1022) == pow2(118) * pow2(904),
        pow2(1022) == pow2(54) * pow2(968),
        pow2(1022) == pow2(53) * pow2(969),
        pow2(1023) == pow2(52) * pow2(971),
        pow2(1023) == 2 * pow2(1022),
{
    lemma2_to64();
    lemma2_to64_rest();
    lemma_pow2_adds(64, 1);
    lemma_pow2_adds(64, 2);
    lemma_pow2_adds(64, 54);
    lemma_pow2_pos(904);
    lemma_pow2_pos(968);
    lemma_pow2_adds(903, 1);
    lemma_pow2_adds(64, 904);
    lemma_pow2_adds(118, 904);
    lemma_pow2_adds(54, 968);
    lemma_pow2_adds(53, 969);
    lemma_pow2_adds(52, 971);
    lemma_pow2_adds(1022, 1);
}

/// `2^e` is at most `2^f` when `e` is at most `f`.
proof fn lemma_pow2_increases(e: nat, f: nat)
    requires
        e <= f,
    ensures
        pow2(e) <= pow2(f),
        pow2(e) > 0,
{
    lemma_pow2_pos(e);
    if e < f {
        lemma_pow2_strictly_increases(e, f);
    }
}

/// The distance between two doubles is the difference of their magnitudes
/// when their signs agree, and the sum when they do not.
proof fn lemma_distance(hi: Double, lo: Double)
    requires
        hi.magnitude() >= lo.magnitude(),
    ensures
        distance(hi, lo) == distance(lo, hi),
        hi.negative() == lo.negative() ==> distance(hi, lo) == hi.magnitude() - lo.magnitude(),
        hi.negative() != lo.negative() ==> distance(hi, lo) == hi.magnitude() + lo.magnitude(),
{
}

/// From twice epsilon on, a double is close only to doubles of its own sign
/// whose scale is its own or one less.
proof fn lemma_large(hi: Double, lo: Double)
    requires
        hi.finite(),
        lo.finite(),
        hi.magnitude_bits() >= TWO_EPSILON_BITS,
        hi.magnitude_bits() >= lo.magnitude_bits(),
    ensures
        hi.scale() >= 971,
        hi.scale() >= lo.scale(),
        hi.negative() != lo.negative() ==> distance(hi, lo) >= epsilon_cutoff(),
        hi.scale() >= lo.scale() + 2 ==> distance(hi, lo) >= epsilon_cutoff(),
{
    lemma_powers();
    lemma_magnitude_order(hi, lo);
    lemma_distance(hi, lo);
    let h = HIDDEN_BIT as int;
    let sh = hi.scale();
    let sl = lo.scale();
    let mh = hi.significand() as int;
    let ml = lo.significand() as int;
    let a = hi.magnitude() as int;
    let b = lo.magnitude() as int;
    lemma_pow2_increases(971, sh);
    assert(a >= pow2(1023)) by (nonlinear_arith)
        requires
            a == mh * pow2(sh),
            mh >= h,
            pow2(sh) >= pow2(971),
            pow2(1023) == h * pow2(971),
            h > 0,
    ;
    if sh >= sl + 2 {
        let p = pow2((sh - 2) as nat) as int;
        lemma_pow2_adds((sh - 2) as nat, 2);
        lemma_pow2_increases(sl, (sh - 2) as nat);
        lemma_pow2_increases(969, (sh - 2) as nat);
        assert(a - b > pow2(1022)) by (nonlinear_arith)
            requires
                a == mh * pow2(sh),
                b == ml * pow2(sl),
                pow2(sh) == p * 4,
                0 < pow2(sl) <= p,
                pow2(969) <= p,
                mh >= h,
                0 <= ml < 2 * h,
                h > 0,
                pow2(1022) == (2 * h) * pow2(969),
        ;
    }
}

/// Two doubles of one sign and of scales at most one apart, the larger at or
/// above twice epsilon: their significands, brought to the lower scale,
/// decide whether they are close.
proof fn lemma_aligned(hi: Double, lo: Double)
    requires
        hi.finite(),
        lo.finite(),
        hi.negative() == lo.negative(),
        hi.magnitude_bits() >= lo.magnitude_bits(),
        hi.scale() >= 971,
        hi.scale() <= lo.scale() + 1,
    ensures
        ({
            let top = if hi.scale() > lo.scale() {
                2 * hi.significand()
            } else {
                hi.significand()
            };
            let d = top - lo.significand();
            let s = lo.scale() - 968;
            &&& lo.scale() >= 970
            &&& 0 <= d < 4 * HIDDEN_BIT
            &&& s >= 54 ==> (hi.close_spec(lo) <==> d == 0)
            &&& s < 54 ==> pow2((54 - s) as nat) <= 4 * HIDDEN_BIT
            &&& s < 54 ==> (hi.close_spec(lo) <==> d < pow2((54 - s) as nat))
        }),
{
    lemma_powers();
    lemma_magnitude_order(hi, lo);
    lemma_distance(hi, lo);
    let sh = hi.scale();
    let sl = lo.scale();
    let mh = hi.significand() as int;
    let ml = lo.significand() as int;
    let top = if sh > sl { 2 * mh } else { mh };
    let d = top - ml;
    let s = (sl - 968) as nat;
    let p = pow2(sl) as int;
    let q = pow2(968) as int;
    let ps = pow2(s) as int;
    lemma_pow2_pos(sl);
    if sh > sl {
        lemma_pow2_adds(sl, 1);
        lemma2_to64();
    }
    assert(hi.magnitude() == top * p) by (nonlinear_arith)
        requires
            hi.magnitude() == mh * pow2(sh),
            top == if sh > sl { 2 * mh } else { mh },
            pow2(sh) == if sh > sl { 2 * p } else { p },
    ;
    assert(top >= ml) by (nonlinear_arith)
        requires
            top * p >= ml * p,
            p > 0,
    ;
    assert(distance(hi, lo) == d * p) by (nonlinear_arith)
        requires
            distance(hi, lo) == top * p - ml * p,
            d == top - ml,
    ;
    lemma_pow2_adds(s, 968);
    lemma_pow2_increases(2, s);
    assert(distance(hi, lo) < epsilon_cutoff() <==> d * ps < pow2(54) - 1) by (nonlinear_arith)
        requires
            distance(hi, lo) == d * p,
            p == ps * q,
            q > 0,
            epsilon_cutoff() == pow2(54) * q - q,
    ;
    if s >= 54 {
        lemma_pow2_increases(54, s);
        assert(d * ps < pow2(54) - 1 <==> d == 0) by (nonlinear_arith)
            requires
                d >= 0,
                ps >= pow2(54),
                pow2(54) > 1,
        ;
    } else {
        let r = pow2((54 - s) as nat) as int;
        lemma_pow2_adds((54 - s) as nat, s);
        lemma_pow2_increases((54 - s) as nat, 54);
        assert(d * ps < pow2(54) - 1 <==> d < r) by (nonlinear_arith)
            requires
                d >= 0,
                ps >= 4,
                pow2(54) == r * ps,
        ;
    }
}

/// Below twice epsilon, two doubles are close exactly when their window
/// values are less than `2^118 - 2^64` apart.
proof fn lemma_small(hi: Double, lo: Double)
    requires
        hi.finite(),
        lo.finite(),
        hi.magnitude_bits() < TWO_EPSILON_BITS,
        hi.magnitude_bits() >= lo.magnitude_bits(),
    ensures
        ({
            let a = window_value(hi.significand(), hi.scale());
            let b = window_value(lo.significand(), lo.scale());
            &&& hi.scale() <= 970
            &&& lo.scale() <= 970
            &&& a >= b
            &&& a + b <= u128::MAX
            &&& hi.negative() == lo.negative() ==> (hi.close_spec(lo) <==> a - b
                < CUTOFF_IN_WINDOW)
            &&& hi.negative() != lo.negative() ==> (hi.close_spec(lo) <==> a + b
                < CUTOFF_IN_WINDOW)
        }),
{
    lemma_powers();
    lemma_magnitude_order(hi, lo);
    lemma_distance(hi, lo);
    lemma_window(hi);
    lemma_window(lo);
    let u = pow2(904) as int;
    let h = HIDDEN_BIT as int;
    let w = CUTOFF_IN_WINDOW as int;
    let a = window_value(hi.significand(), hi.scale()) as int;
    let b = window_value(lo.significand(), lo.scale()) as int;
    let ma = hi.magnitude() as int;
    let mb = lo.magnitude() as int;
    assert(epsilon_cutoff() == w * u) by (nonlinear_arith)
        requires
            epsilon_cutoff() == pow2(118) * u - pow2(64) * u,
            w == pow2(118) - pow2(64),
    ;
    let c = w * u;
    if lo.scale() >= 904 {
        // Both are exact in the window.
        assert(a >= b) by (nonlinear_arith)
            requires
                a * u >= b * u,
                u > 0,
        ;
        assert((a - b) * u < c <==> a - b < w) by (nonlinear_arith)
            requires
                c == w * u,
                u > 0,
        ;
        assert((a + b) * u < c <==> a + b < w) by (nonlinear_arith)
            requires
                c == w * u,
                u > 0,
        ;
        assert((a - b) * u == ma - mb && (a + b) * u == ma + mb) by (nonlinear_arith)
            requires
                ma == a * u,
                mb == b * u,
        ;
    } else if hi.scale() >= 904 {
        // The smaller one is too small to move the larger across the cutoff.
        if a + 0x1_0000_0000_0000_0000 <= w {
            assert(ma + mb < c) by (nonlinear_arith)
                requires
                    ma == a * u,
                    0 <= mb < h * u,
                    a + 0x1_0000_0000_0000_0000 <= w,
                    h == 0x10_0000_0000_0000,
                    c == w * u,
                    u > 0,
            ;
        } else {
            assert(ma - mb >= c) by (nonlinear_arith)
                requires
                    ma == a * u,
                    0 <= mb < h * u,
                    a >= w + 0x1_0000_0000_0000_0000,
                    h == 0x10_0000_0000_0000,
                    c == w * u,
                    u > 0,
            ;
        }
    } else {
        // Both are far below the cutoff.
        assert(ma + mb < c) by (nonlinear_arith)
            requires
                0 <= ma < h * u,
                0 <= mb < h * u,
                h == 0x10_0000_0000_0000,
                w == 0x3f_ffff_ffff_ffff_0000_0000_0000_0000,
                c == w * u,
                u > 0,
        ;
    }
}

/// What the window holds of a finite double below twice epsilon.
proof fn lemma_window(x: Double)
    requires
        x.finite(),
        x.magnitude_bits() < TWO_EPSILON_BITS,
    ensures
        ({
            let v = window_value(x.significand(), x.scale());
            &&& x.scale() <= 970
            &&& v < 0x80_0000_0000_0000_0000_0000_0000_0000
            &&& x.scale() >= 904 ==> x.magnitude() == v * pow2(904)
            &&& x.scale() >= 904 ==> (v + 0x1_0000_0000_0000_0000 <= CUTOFF_IN_WINDOW || v
                >= CUTOFF_IN_WINDOW + 0x1_0000_0000_0000_0000)
            &&& x.scale() < 904 ==> x.magnitude() < HIDDEN_BIT * pow2(904)
        }),
{
    lemma_powers();
    let h = HIDDEN_BIT as int;
    let m = x.significand() as int;
    let e = x.scale();
    let u = pow2(904) as int;
    if e >= 904 {
        let j = (e - 904) as nat;
        let pj = pow2(j) as int;
        let v = window_value(x.significand(), e) as int;
        lemma_pow2_adds(j, 904);
        assert(x.magnitude() == v * u) by (nonlinear_arith)
            requires
                x.magnitude() == m * pow2(e),
                pow2(e) == pj * u,
                v == m * pj,
        ;
        lemma_pow2_increases(j, 66);
        if j <= 64 {
            lemma_pow2_increases(j, 64);
            assert(v < 0x20_0000_0000_0000_0000_0000_0000_0000) by (nonlinear_arith)
                requires
                    v == m * pj,
                    0 <= m < 0x20_0000_0000_0000,
                    0 < pj <= 0x1_0000_0000_0000_0000,
            ;
        } else if j == 65 {
            assert(v <= 0x3f_ffff_ffff_fffe_0000_0000_0000_0000) by (nonlinear_arith)
                requires
                    v == m * pj,
                    0 <= m <= 0x1f_ffff_ffff_ffff,
                    pj == 0x2_0000_0000_0000_0000,
            ;
        } else {
            assert(v >= 0x40_0000_0000_0000_0000_0000_0000_0000) by (nonlinear_arith)
                requires
                    v == m * pj,
                    m >= 0x10_0000_0000_0000,
                    pj == 0x4_0000_0000_0000_0000,
            ;
            assert(v < 0x80_0000_0000_0000_0000_0000_0000_0000) by (nonlinear_arith)
                requires
                    v == m * pj,
                    0 <= m < 0x20_0000_0000_0000,
                    pj == 0x4_0000_0000_0000_0000,
            ;
        }
    } else {
        lemma_pow2_increases(e, 903);
        assert(x.magnitude() < h * u) by (nonlinear_arith)
            requires
                x.magnitude() == m * pow2(e),
                0 <= m < 2 * h,
                0 < pow2(e) <= pow2(903),
                u == 2 * pow2(903),
        ;
    }
}

} // verus!
