//! The numeric contract shared by every approximator and learner.
//!
//! A [`Scalar`] is a number with total arithmetic. The learning rules only
//! ever combine scalars through these operations, so a contract over the
//! `*_spec` functions fixes the exact expression tree that was evaluated.
//! [`Fixed`] is a deterministic signed fixed-point scalar.
use vstd::prelude::*;

verus! {

/// A number with total, deterministic arithmetic and a comparison.
pub trait Scalar: Sized + Copy {
    /// The additive identity.
    spec fn zero_spec() -> Self;

    /// The multiplicative identity.
    spec fn one_spec() -> Self;

    /// The scalar that stands for a count of `n` items.
    spec fn from_count_spec(n: usize) -> Self;

    /// The negation `-self`.
    spec fn neg_spec(self) -> Self;

    /// The sum `self + rhs`.
    spec fn add_spec(self, rhs: Self) -> Self;

    /// The difference `self - rhs`.
    spec fn sub_spec(self, rhs: Self) -> Self;

    /// The product `self * rhs`.
    spec fn mul_spec(self, rhs: Self) -> Self;

    /// The quotient `self / rhs`.
    spec fn div_spec(self, rhs: Self) -> Self;

    /// Whether `self` is strictly less than `rhs`.
    spec fn lt_spec(self, rhs: Self) -> bool;

    /// The additive identity.
    fn zero() -> (r: Self)
        ensures
            r == Self::zero_spec(),
    ;

    /// The multiplicative identity.
    fn one() -> (r: Self)
        ensures
            r == Self::one_spec(),
    ;

    /// The scalar that stands for a count of `n` items.
    fn from_count(n: usize) -> (r: Self)
        ensures
            r == Self::from_count_spec(n),
    ;

    /// Negation.
    fn neg(self) -> (r: Self)
        ensures
            r == self.neg_spec(),
    ;

    /// Addition.
    fn add(self, rhs: Self) -> (r: Self)
        ensures
            r == self.add_spec(rhs),
    ;

    /// Subtraction.
    fn sub(self, rhs: Self) -> (r: Self)
        ensures
            r == self.sub_spec(rhs),
    ;

    /// Multiplication.
    fn mul(self, rhs: Self) -> (r: Self)
        ensures
            r == self.mul_spec(rhs),
    ;

    /// Division. It is total: each scalar says what a zero divisor gives.
    fn div(self, rhs: Self) -> (r: Self)
        ensures
            r == self.div_spec(rhs),
    ;

    /// Strict comparison `self < rhs`.
    fn lt(self, rhs: Self) -> (r: bool)
        ensures
            r == self.lt_spec(rhs),
    ;
}

/// The larger of two scalars; the first where neither exceeds the other.
pub open spec fn max_spec<N: Scalar>(a: N, b: N) -> N {
    if a.lt_spec(b) {
        b
    } else {
        a
    }
}

/// The larger of two scalars; the first where neither exceeds the other.
pub fn max<N: Scalar>(a: N, b: N) -> (r: N)
    ensures
        r == max_spec(a, b),
{
    if a.lt(b) {
        b
    } else {
        a
    }
}

/// Number of raw units in one: the raw value is the number times `2^32`.
pub const FIXED_ONE: i64 = 4294967296;

/// Signed fixed-point number with 32 fractional bits. Arithmetic saturates
/// at the ends of the `i64` range and division truncates toward zero.
#[derive(Clone, Copy, Debug, PartialEq, Eq)]
pub struct Fixed {
    pub raw: i64,
}

/// `x` clamped to the `i64` range.
pub open spec fn saturate(x: int) -> i64 {
    if x > i64::MAX {
        i64::MAX
    } else if x < i64::MIN {
        i64::MIN
    } else {
        x as i64
    }
}

/// Quotient of `x` by `d`, rounded toward zero, for `d != 0`.
pub open spec fn trunc_div(x: int, d: int) -> int {
    if x >= 0 && d > 0 {
        x / d
    } else if x >= 0 {
        -(x / (-d))
    } else if d > 0 {
        -((-x) / d)
    } else {
        (-x) / (-d)
    }
}

/// Raw value of a quotient: the exact quotient scaled by `2^32`, truncated
/// and saturated. A zero divisor gives the extreme of the dividend's sign,
/// and zero for a zero dividend.
pub open spec fn fixed_div_raw(a: int, b: int) -> i64 {
    if b == 0 {
        if a > 0 {
            i64::MAX
        } else if a < 0 {
            i64::MIN
        } else {
            0
        }
    } else {
        saturate(trunc_div(a * FIXED_ONE, b))
    }
}

/// `x` times `2^32`.
fn scale_up(x: i128) -> (r: i128)
    requires
        -0x1_0000_0000_0000_0000 <= x <= 0x1_0000_0000_0000_0000,
    ensures
        r == x * FIXED_ONE,
{
    x * 4294967296
}

/// `x` clamped to the `i64` range.
fn saturate_wide(x: i128) -> (r: i64)
    ensures
        r == saturate(x as int),
{
    if x > i64::MAX as i128 {
        i64::MAX
    } else if x < i64::MIN as i128 {
        i64::MIN
    } else {
        x as i64
    }
}

/// Quotient of `x` by `d`, rounded toward zero.
fn trunc_div_wide(x: i128, d: i128) -> (r: i128)
    requires
        d != 0,
        -0x4000_0000_0000_0000_0000_0000_0000_0000 <= x <= 0x4000_0000_0000_0000_0000_0000_0000_0000,
        -0x4000_0000_0000_0000_0000_0000_0000_0000 <= d <= 0x4000_0000_0000_0000_0000_0000_0000_0000,
    ensures
        r == trunc_div(x as int, d as int),
{
    if x >= 0 && d > 0 {
        x / d
    } else if x >= 0 {
        let nd: i128 = -d;
        let q: i128 = x / nd;
        assert(0 <= q <= x) by (nonlinear_arith)
            requires
                q == x as int / nd as int,
                x >= 0,
                nd > 0,
        ;
        -q
    } else if d > 0 {
        let nx: i128 = -x;
        let q: i128 = nx / d;
        assert(0 <= q <= nx) by (nonlinear_arith)
            requires
                q == nx as int / d as int,
                nx >= 0,
                d > 0,
        ;
        -q
    } else {
        let nx: i128 = -x;
        let nd: i128 = -d;
        nx / nd
    }
}

impl Fixed {
    /// The number whose raw value is `raw`, that is `raw / 2^32`.
    pub fn from_raw(raw: i64) -> (r: Fixed)
        ensures
            r.raw == raw,
    {
        Fixed { raw }
    }

    /// The whole number `n`, saturated.
    pub fn from_int(n: i64) -> (r: Fixed)
        ensures
            r == Fixed::of_int(n as int),
    {
        Fixed { raw: saturate_wide(scale_up(n as i128)) }
    }

    /// The quotient `num / den` of two whole numbers.
    pub fn ratio(num: i64, den: i64) -> (r: Fixed)
        ensures
            r == Fixed::of_int(num as int).div_spec(Fixed::of_int(den as int)),
    {
        Fixed::from_int(num).div(Fixed::from_int(den))
    }

    /// The whole number `n` as a fixed-point value, saturated.
    pub open spec fn of_int(n: int) -> Fixed {
        Fixed { raw: saturate(n * FIXED_ONE) }
    }
}

impl Scalar for Fixed {
    open spec fn zero_spec() -> Self {
        Fixed { raw: 0 }
    }

    open spec fn one_spec() -> Self {
        Fixed { raw: FIXED_ONE }
    }

    open spec fn from_count_spec(n: usize) -> Self {
        Fixed { raw: saturate(n * FIXED_ONE) }
    }

    open spec fn neg_spec(self) -> Self {
        Fixed { raw: saturate(-self.raw) }
    }

    open spec fn add_spec(self, rhs: Self) -> Self {
        Fixed { raw: saturate(self.raw + rhs.raw) }
    }

    open spec fn sub_spec(self, rhs: Self) -> Self {
        Fixed { raw: saturate(self.raw - rhs.raw) }
    }

    open spec fn mul_spec(self, rhs: Self) -> Self {
        Fixed { raw: saturate(trunc_div(self.raw * rhs.raw, FIXED_ONE as int)) }
    }

    open spec fn div_spec(self, rhs: Self) -> Self {
        Fixed { raw: fixed_div_raw(self.raw as int, rhs.raw as int) }
    }

    open spec fn lt_spec(self, rhs: Self) -> bool {
        self.raw < rhs.raw
    }

    fn zero() -> (r: Self) {
        Fixed { raw: 0 }
    }

    fn one() -> (r: Self) {
        Fixed { raw: FIXED_ONE }
    }

    fn from_count(n: usize) -> (r: Self) {
        Fixed { raw: saturate_wide(scale_up(n as i128)) }
    }

    fn neg(self) -> (r: Self) {
        let wide: i128 = -(self.raw as i128);
        Fixed { raw: saturate_wide(wide) }
    }

    fn add(self, rhs: Self) -> (r: Self) {
        let wide: i128 = self.raw as i128 + rhs.raw as i128;
        Fixed { raw: saturate_wide(wide) }
    }

    fn sub(self, rhs: Self) -> (r: Self) {
        let wide: i128 = self.raw as i128 - rhs.raw as i128;
        Fixed { raw: saturate_wide(wide) }
    }

    fn mul(self, rhs: Self) -> (r: Self) {
        let a: i128 = self.raw as i128;
        let b: i128 = rhs.raw as i128;
        assert(-0x4000_0000_0000_0000_0000_0000_0000_0000 <= a * b
            <= 0x4000_0000_0000_0000_0000_0000_0000_0000) by (nonlinear_arith)
            requires
                -0x8000_0000_0000_0000 <= a <= 0x7fff_ffff_ffff_ffff,
                -0x8000_0000_0000_0000 <= b <= 0x7fff_ffff_ffff_ffff,
        ;
        let wide: i128 = a * b;
        Fixed { raw: saturate_wide(trunc_div_wide(wide, FIXED_ONE as i128)) }
    }

    fn div(self, rhs: Self) -> (r: Self) {
        if rhs.raw == 0 {
            if self.raw > 0 {
                Fixed { raw: i64::MAX }
            } else if self.raw < 0 {
                Fixed { raw: i64::MIN }
            } else {
                Fixed { raw: 0 }
            }
        } else {
            let wide: i128 = scale_up(self.raw as i128);
            Fixed { raw: saturate_wide(trunc_div_wide(wide, rhs.raw as i128)) }
        }
    }

    fn lt(self, rhs: Self) -> (r: bool) {
        self.raw < rhs.raw
    }
}

/// For fixed-point numbers, one and zero behave as the identities and
/// the annihilator of exact arithmetic: no rounding and no saturation enters.
pub proof fn lemma_fixed_identities(x: Fixed)
    ensures
        Fixed::one_spec().mul_spec(x) == x,
        x.mul_spec(Fixed::one_spec()) == x,
        Fixed::zero_spec().mul_spec(x) == Fixed::zero_spec(),
        x.add_spec(Fixed::zero_spec()) == x,
        Fixed::zero_spec().add_spec(x) == x,
        Fixed::one_spec().sub_spec(Fixed::one_spec()) == Fixed::zero_spec(),
        Fixed::one_spec().sub_spec(Fixed::zero_spec()) == Fixed::one_spec(),
{
    let c = FIXED_ONE as int;
    let r = x.raw as int;
    assert(c == 4294967296);
    assert(0 * r == 0);
    if r >= 0 {
        assert((c * r) / c == r && c * r >= 0 && (r * c) / c == r && r * c >= 0)
            by (nonlinear_arith)
            requires
                c > 0,
                r >= 0,
        ;
    } else {
        assert((-(c * r)) / c == -r && c * r < 0 && (-(r * c)) / c == -r && r * c < 0)
            by (nonlinear_arith)
            requires
                c > 0,
                r < 0,
        ;
    }
}

} // verus!
