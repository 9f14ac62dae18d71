//! Exact rational scalars with an explicit undefined value.
//!
//! The solver's numeric state is built from these scalars.  A value with a
//! positive denominator stands for the rational number `n / d`; the canonical
//! value with `d == 0` stands for an undefined result, as produced by a
//! division by zero or by an intermediate value too large for the fixed-width
//! representation.  Every operation is total: an undefined operand, or a
//! result out of range, yields the undefined value, which then propagates
//! through all later arithmetic — mirroring how a degenerate step in an
//! iterative solver poisons the quantities derived from it.

use vstd::prelude::*;

verus! {

/// An exact rational scalar, or the undefined value.
#[derive(Clone, Copy, PartialEq, Eq, Structural, Debug)]
pub struct Ratio {
    /// Numerator.
    pub n: i64,
    /// Denominator; positive for a defined value, `0` for the undefined value.
    pub d: i64,
}

/// Well-formedness: the denominator is non-negative and the undefined value
/// is canonical (numerator `0`).
pub open spec fn rat_wf(a: Ratio) -> bool {
    a.d >= 0 && (a.d == 0 ==> a.n == 0)
}

/// The value is the undefined one.
pub open spec fn rat_is_nan(a: Ratio) -> bool {
    a.d == 0
}

/// The canonical undefined value.
pub open spec fn rat_nan() -> Ratio {
    Ratio { n: 0, d: 0 }
}

/// The rational zero.
pub open spec fn rat_zero() -> Ratio {
    Ratio { n: 0, d: 1 }
}

/// Whether a mathematical integer fits the numerator/denominator width.
pub open spec fn fits_i64(x: int) -> bool {
    i64::MIN <= x <= i64::MAX
}

/// The result of an arithmetic operation with exact numerator `n` and exact
/// positive denominator `d`: an exact zero is canonicalized to `0 / 1`, and a
/// component out of range gives the undefined value.
pub open spec fn spec_make(n: int, d: int) -> Ratio
    recommends
        1 <= d,
{
    if n == 0 {
        rat_zero()
    } else if fits_i64(n) && fits_i64(d) {
        Ratio { n: n as i64, d: d as i64 }
    } else {
        rat_nan()
    }
}

/// The value `n / d`, brought to a non-negative denominator; undefined when
/// `d == 0` or when the sign change does not fit.
pub open spec fn spec_new(n: i64, d: i64) -> Ratio {
    if d == 0 {
        rat_nan()
    } else if d > 0 {
        Ratio { n: n, d: d }
    } else if n == i64::MIN || d == i64::MIN {
        rat_nan()
    } else {
        Ratio { n: (-n) as i64, d: (-d) as i64 }
    }
}

/// Exact sum; undefined operands and out-of-range results give the undefined value.
pub open spec fn spec_add(a: Ratio, b: Ratio) -> Ratio {
    if rat_is_nan(a) || rat_is_nan(b) {
        rat_nan()
    } else {
        spec_make(a.n * b.d + b.n * a.d, a.d * b.d)
    }
}

/// Exact difference; undefined operands and out-of-range results give the undefined value.
pub open spec fn spec_sub(a: Ratio, b: Ratio) -> Ratio {
    if rat_is_nan(a) || rat_is_nan(b) {
        rat_nan()
    } else {
        spec_make(a.n * b.d - b.n * a.d, a.d * b.d)
    }
}

/// Exact product; undefined operands and out-of-range results give the undefined value.
pub open spec fn spec_mul(a: Ratio, b: Ratio) -> Ratio {
    if rat_is_nan(a) || rat_is_nan(b) {
        rat_nan()
    } else {
        spec_make(a.n * b.n, a.d * b.d)
    }
}

/// Exact quotient; a division by zero, an undefined operand, or an
/// out-of-range result gives the undefined value.
pub open spec fn spec_div(a: Ratio, b: Ratio) -> Ratio {
    if rat_is_nan(a) || rat_is_nan(b) || b.n == 0 {
        rat_nan()
    } else {
        let n0 = a.n * b.d;
        let d0 = a.d * b.n;
        if d0 < 0 {
            spec_make(-n0, -d0)
        } else {
            spec_make(n0, d0)
        }
    }
}

/// Ordering of defined values by cross-multiplication; false whenever either
/// operand is undefined, so a comparison against an undefined quantity never
/// succeeds.
pub open spec fn spec_le(a: Ratio, b: Ratio) -> bool {
    &&& !rat_is_nan(a)
    &&& !rat_is_nan(b)
    &&& a.n * b.d <= b.n * a.d
}

/// Equality of the represented values: both undefined, or both defined and
/// equal as rational numbers.
pub open spec fn spec_rat_eq(a: Ratio, b: Ratio) -> bool {
    ||| (rat_is_nan(a) && rat_is_nan(b))
    ||| (!rat_is_nan(a) && !rat_is_nan(b) && a.n * b.d == b.n * a.d)
}

proof fn lemma_i64_mul_in_i128(x: int, y: int)
    by (nonlinear_arith)
    requires
        -0x8000_0000_0000_0000 <= x <= 0x7fff_ffff_ffff_ffff,
        -0x8000_0000_0000_0000 <= y <= 0x7fff_ffff_ffff_ffff,
    ensures
        -0x4000_0000_0000_0000_0000_0000_0000_0000 <= x * y
            <= 0x4000_0000_0000_0000_0000_0000_0000_0000,
{
}

proof fn lemma_mul_by_pos_in_i128(x: int, y: int)
    by (nonlinear_arith)
    requires
        -0x8000_0000_0000_0000 <= x <= 0x7fff_ffff_ffff_ffff,
        1 <= y <= 0x7fff_ffff_ffff_ffff,
    ensures
        -0x3fff_ffff_ffff_ffff_8000_0000_0000_0000 <= x * y
            <= 0x3fff_ffff_ffff_ffff_8000_0000_0000_0000,
{
}

proof fn lemma_pos_mul_pos(x: int, y: int)
    by (nonlinear_arith)
    requires
        x >= 1,
        y >= 1,
    ensures
        x * y >= 1,
{
}

proof fn lemma_pos_mul_sign(x: int, y: int)
    by (nonlinear_arith)
    requires
        x >= 1,
    ensures
        y > 0 ==> x * y >= 1,
        y < 0 ==> x * y <= -1,
{
}

/// The four arithmetic operations keep scalars well-formed.
pub proof fn lemma_ops_wf(a: Ratio, b: Ratio)
    requires
        rat_wf(a),
        rat_wf(b),
    ensures
        rat_wf(spec_add(a, b)),
        rat_wf(spec_sub(a, b)),
        rat_wf(spec_mul(a, b)),
        rat_wf(spec_div(a, b)),
{
    if !rat_is_nan(a) && !rat_is_nan(b) {
        lemma_pos_mul_pos(a.d as int, b.d as int);
        lemma_pos_mul_sign(a.d as int, b.n as int);
    }
}

proof fn lemma_square_nonneg(x: int)
    by (nonlinear_arith)
    ensures
        x * x >= 0,
{
}

proof fn lemma_nonneg_mul(x: int, y: int)
    by (nonlinear_arith)
    requires
        x >= 0,
        y >= 0,
    ensures
        x * y >= 0,
{
}

/// A defined product of a well-formed scalar with itself is non-negative.
pub proof fn lemma_self_mul_nonneg(x: Ratio)
    requires
        rat_wf(x),
    ensures
        !rat_is_nan(spec_mul(x, x)) ==> spec_le(rat_zero(), spec_mul(x, x)),
{
    if !rat_is_nan(x) {
        lemma_square_nonneg(x.n as int);
        lemma_ops_wf(x, x);
    }
}

/// A defined sum of two defined non-negative scalars is non-negative.
pub proof fn lemma_nonneg_add(a: Ratio, b: Ratio)
    requires
        rat_wf(a),
        rat_wf(b),
        spec_le(rat_zero(), a),
        spec_le(rat_zero(), b),
    ensures
        !rat_is_nan(spec_add(a, b)) ==> spec_le(rat_zero(), spec_add(a, b)),
{
    lemma_nonneg_mul(a.n as int, b.d as int);
    lemma_nonneg_mul(b.n as int, a.d as int);
    lemma_ops_wf(a, b);
}

/// Builds a scalar from a wide numerator and a wide positive denominator,
/// falling back to the undefined value when either is out of range.
fn from_wide(n: i128, d: i128) -> (r: Ratio)
    requires
        1 <= d,
    ensures
        r == spec_make(n as int, d as int),
{
    if n == 0 {
        Ratio { n: 0, d: 1 }
    } else if i64::MIN as i128 <= n && n <= i64::MAX as i128 && d <= i64::MAX as i128 {
        Ratio { n: n as i64, d: d as i64 }
    } else {
        Ratio { n: 0, d: 0 }
    }
}

impl Ratio {
    /// The canonical undefined value.
    pub fn nan() -> (r: Ratio)
        ensures
            r == rat_nan(),
            rat_wf(r),
    {
        Ratio { n: 0, d: 0 }
    }

    /// The rational zero.
    pub fn zero() -> (r: Ratio)
        ensures
            r == rat_zero(),
            rat_wf(r),
    {
        Ratio { n: 0, d: 1 }
    }

    /// The integer `n` as a rational.
    pub fn from_int(n: i64) -> (r: Ratio)
        ensures
            r == (Ratio { n: n, d: 1 }),
            rat_wf(r),
    {
        Ratio { n: n, d: 1 }
    }

    /// The value `n / d`, brought to a non-negative denominator.
    pub fn new(n: i64, d: i64) -> (r: Ratio)
        ensures
            r == spec_new(n, d),
            rat_wf(r),
    {
        if d == 0 {
            Ratio { n: 0, d: 0 }
        } else if d > 0 {
            Ratio { n: n, d: d }
        } else if n == i64::MIN || d == i64::MIN {
            Ratio { n: 0, d: 0 }
        } else {
            Ratio { n: -n, d: -d }
        }
    }

    /// Whether this is the undefined value.
    pub fn is_nan(self) -> (r: bool)
        ensures
            r == rat_is_nan(self),
    {
        self.d == 0
    }

    /// Exact rational sum.
    pub fn add(self, o: Ratio) -> (r: Ratio)
        requires
            rat_wf(self),
            rat_wf(o),
        ensures
            r == spec_add(self, o),
            rat_wf(r),
    {
        proof {
            lemma_ops_wf(self, o);
        }
        if self.d == 0 || o.d == 0 {
            return Ratio { n: 0, d: 0 };
        }
        proof {
            lemma_mul_by_pos_in_i128(self.n as int, o.d as int);
            lemma_mul_by_pos_in_i128(o.n as int, self.d as int);
            lemma_mul_by_pos_in_i128(self.d as int, o.d as int);
            lemma_pos_mul_pos(self.d as int, o.d as int);
        }
        let wn: i128 = (self.n as i128) * (o.d as i128) + (o.n as i128) * (self.d as i128);
        let wd: i128 = (self.d as i128) * (o.d as i128);
        from_wide(wn, wd)
    }

    /// Exact rational difference.
    pub fn sub(self, o: Ratio) -> (r: Ratio)
        requires
            rat_wf(self),
            rat_wf(o),
        ensures
            r == spec_sub(self, o),
            rat_wf(r),
    {
        proof {
            lemma_ops_wf(self, o);
        }
        if self.d == 0 || o.d == 0 {
            return Ratio { n: 0, d: 0 };
        }
        proof {
            lemma_mul_by_pos_in_i128(self.n as int, o.d as int);
            lemma_mul_by_pos_in_i128(o.n as int, self.d as int);
            lemma_mul_by_pos_in_i128(self.d as int, o.d as int);
            lemma_pos_mul_pos(self.d as int, o.d as int);
        }
        let wn: i128 = (self.n as i128) * (o.d as i128) - (o.n as i128) * (self.d as i128);
        let wd: i128 = (self.d as i128) * (o.d as i128);
        from_wide(wn, wd)
    }

    /// Exact rational product.
    pub fn mul(self, o: Ratio) -> (r: Ratio)
        requires
            rat_wf(self),
            rat_wf(o),
        ensures
            r == spec_mul(self, o),
            rat_wf(r),
    {
        proof {
            lemma_ops_wf(self, o);
        }
        if self.d == 0 || o.d == 0 {
            return Ratio { n: 0, d: 0 };
        }
        proof {
            lemma_i64_mul_in_i128(self.n as int, o.n as int);
            lemma_mul_by_pos_in_i128(self.d as int, o.d as int);
            lemma_pos_mul_pos(self.d as int, o.d as int);
        }
        let wn: i128 = (self.n as i128) * (o.n as i128);
        let wd: i128 = (self.d as i128) * (o.d as i128);
        from_wide(wn, wd)
    }

    /// Exact rational quotient; dividing by zero gives the undefined value.
    pub fn div(self, o: Ratio) -> (r: Ratio)
        requires
            rat_wf(self),
            rat_wf(o),
        ensures
            r == spec_div(self, o),
            rat_wf(r),
    {
        proof {
            lemma_ops_wf(self, o);
        }
        if self.d == 0 || o.d == 0 || o.n == 0 {
            return Ratio { n: 0, d: 0 };
        }
        proof {
            lemma_mul_by_pos_in_i128(self.n as int, o.d as int);
            lemma_mul_by_pos_in_i128(o.n as int, self.d as int);
            lemma_pos_mul_sign(self.d as int, o.n as int);
        }
        let wn0: i128 = (self.n as i128) * (o.d as i128);
        let wd0: i128 = (self.d as i128) * (o.n as i128);
        if wd0 < 0 {
            from_wide(-wn0, -wd0)
        } else {
            from_wide(wn0, wd0)
        }
    }

    /// Whether `self <= o` as rational values; false when either is undefined.
    pub fn le(self, o: Ratio) -> (r: bool)
        requires
            rat_wf(self),
            rat_wf(o),
        ensures
            r == spec_le(self, o),
    {
        if self.d == 0 || o.d == 0 {
            return false;
        }
        proof {
            lemma_mul_by_pos_in_i128(self.n as int, o.d as int);
            lemma_mul_by_pos_in_i128(o.n as int, self.d as int);
        }
        (self.n as i128) * (o.d as i128) <= (o.n as i128) * (self.d as i128)
    }

    /// Whether `self` and `o` stand for the same value: both undefined, or
    /// equal as rational numbers.
    pub fn eq_rat(self, o: Ratio) -> (r: bool)
        requires
            rat_wf(self),
            rat_wf(o),
        ensures
            r == spec_rat_eq(self, o),
    {
        if self.d == 0 || o.d == 0 {
            return self.d == 0 && o.d == 0;
        }
        proof {
            lemma_mul_by_pos_in_i128(self.n as int, o.d as int);
            lemma_mul_by_pos_in_i128(o.n as int, self.d as int);
        }
        (self.n as i128) * (o.d as i128) == (o.n as i128) * (self.d as i128)
    }
}

} // verus!
