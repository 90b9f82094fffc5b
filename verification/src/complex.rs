//! Complex scalars over exact integer components.
//!
//! A `Complex` is a pair (re, im) of machine integers; its mathematical
//! model `Cpx` is the same pair over unbounded integers.  All operations
//! are specified exactly against that model, and overflow freedom is part
//! of every contract.

use vstd::prelude::*;

verus! {

/// Mathematical model of a complex scalar: a pair of unbounded integers.
pub ghost struct Cpx {
    pub re: int,
    pub im: int,
}

/// The zero scalar.
pub open spec fn czero() -> Cpx {
    Cpx { re: 0, im: 0 }
}

/// The unit scalar.
pub open spec fn cone() -> Cpx {
    Cpx { re: 1, im: 0 }
}

/// Componentwise sum.
pub open spec fn cadd(a: Cpx, b: Cpx) -> Cpx {
    Cpx { re: a.re + b.re, im: a.im + b.im }
}

/// Componentwise difference.
pub open spec fn csub(a: Cpx, b: Cpx) -> Cpx {
    Cpx { re: a.re - b.re, im: a.im - b.im }
}

/// Product by the standard formula (a+bi)(c+di) = (ac-bd) + (ad+bc)i.
pub open spec fn cmul(a: Cpx, b: Cpx) -> Cpx {
    Cpx { re: a.re * b.re - a.im * b.im, im: a.re * b.im + a.im * b.re }
}

/// Conjugate: negate the imaginary part.
pub open spec fn cconj(a: Cpx) -> Cpx {
    Cpx { re: a.re, im: -a.im }
}

/// Squared norm re^2 + im^2.
pub open spec fn cnorm_sqr(a: Cpx) -> int {
    a.re * a.re + a.im * a.im
}

/// Component bound under which products, their three-term sums, and the
/// Hermitian inner product all stay inside the 64-bit range: with entries
/// bounded by 2^30, a product is bounded by 2^61 and a sum of three
/// products by 3 * 2^61 < 2^63.
pub const OP_LIMIT: i64 = 0x4000_0000;

/// Both components lie within the signed 64-bit range.
pub open spec fn cpx_fits(a: Cpx) -> bool {
    i64::MIN <= a.re <= i64::MAX && i64::MIN <= a.im <= i64::MAX
}

/// Both components are bounded by `b` in absolute value.
pub open spec fn cpx_le(a: Cpx, b: int) -> bool {
    -b <= a.re <= b && -b <= a.im <= b
}

/// |x * y| <= bx * by whenever |x| <= bx and |y| <= by.
pub proof fn lemma_mul_le(x: int, y: int, bx: int, by: int)
    by (nonlinear_arith)
    requires
        -bx <= x <= bx,
        -by <= y <= by,
        0 <= bx,
        0 <= by,
    ensures
        -(bx * by) <= x * y <= bx * by,
{
}

/// A product of bounded scalars is bounded: |cmul(a, b)| <= 2 * ba * bb
/// in each component.
pub proof fn lemma_cmul_le(a: Cpx, b: Cpx, ba: int, bb: int)
    requires
        cpx_le(a, ba),
        cpx_le(b, bb),
        0 <= ba,
        0 <= bb,
    ensures
        cpx_le(cmul(a, b), 2 * ba * bb),
{
    lemma_mul_le(a.re, b.re, ba, bb);
    lemma_mul_le(a.im, b.im, ba, bb);
    lemma_mul_le(a.re, b.im, ba, bb);
    lemma_mul_le(a.im, b.re, ba, bb);
    assert(2 * ba * bb == (ba * bb) + (ba * bb)) by (nonlinear_arith);
}

/// A squared norm is never negative.
pub proof fn lemma_cnorm_sqr_nonneg(a: Cpx)
    ensures
        cnorm_sqr(a) >= 0,
{
    assert(a.re * a.re >= 0) by (nonlinear_arith);
    assert(a.im * a.im >= 0) by (nonlinear_arith);
}

/// Multiplying a scalar by its own conjugate yields its squared norm on
/// the real axis: the imaginary part cancels exactly.
pub proof fn lemma_mul_conj_is_norm_sqr(a: Cpx)
    ensures
        cmul(a, cconj(a)).im == 0,
        cmul(a, cconj(a)).re == cnorm_sqr(a),
{
    assert(a.re * -a.im + a.im * a.re == 0) by (nonlinear_arith);
    assert(a.re * a.re - a.im * -a.im == a.re * a.re + a.im * a.im) by (nonlinear_arith);
}

/// Complex multiplication is associative.
#[verifier::rlimit(50)]
pub proof fn lemma_cmul_assoc(x: Cpx, y: Cpx, z: Cpx)
    ensures
        cmul(cmul(x, y), z) == cmul(x, cmul(y, z)),
{
    broadcast use vstd::arithmetic::mul::group_mul_properties;

    let a = x.re;
    let b = x.im;
    let c = y.re;
    let d = y.im;
    let e = z.re;
    let f = z.im;
    assert((a * c - b * d) * e - (a * d + b * c) * f == a * (c * e - d * f) - b * (c * f + d * e));
    assert((a * c - b * d) * f + (a * d + b * c) * e == a * (c * f + d * e) + b * (c * e - d * f));
}

/// Complex multiplication distributes over addition on the left factor.
pub proof fn lemma_cmul_dist_r(x: Cpx, y: Cpx, z: Cpx)
    ensures
        cmul(cadd(x, y), z) == cadd(cmul(x, z), cmul(y, z)),
{
    assert((x.re + y.re) * z.re - (x.im + y.im) * z.im == (x.re * z.re - x.im * z.im) + (y.re
        * z.re - y.im * z.im)) by (nonlinear_arith);
    assert((x.re + y.re) * z.im + (x.im + y.im) * z.re == (x.re * z.im + x.im * z.re) + (y.re
        * z.im + y.im * z.re)) by (nonlinear_arith);
}

/// Complex multiplication distributes over addition on the right factor.
pub proof fn lemma_cmul_dist_l(x: Cpx, y: Cpx, z: Cpx)
    ensures
        cmul(x, cadd(y, z)) == cadd(cmul(x, y), cmul(x, z)),
{
    assert(x.re * (y.re + z.re) - x.im * (y.im + z.im) == (x.re * y.re - x.im * y.im) + (x.re
        * z.re - x.im * z.im)) by (nonlinear_arith);
    assert(x.re * (y.im + z.im) + x.im * (y.re + z.re) == (x.re * y.im + x.im * y.re) + (x.re
        * z.im + x.im * z.re)) by (nonlinear_arith);
}

/// Multiplying by the conjugate of `b` and then by `b` scales by the
/// squared norm of `b`: the exact content of the division round trip,
/// since dividing `a * conj(b)` by `norm_sqr(b)` recovers `a` whenever
/// that norm is nonzero.
pub proof fn lemma_conj_quotient_round_trip(a: Cpx, b: Cpx)
    ensures
        cmul(cmul(a, cconj(b)), b) == (Cpx {
            re: a.re * cnorm_sqr(b),
            im: a.im * cnorm_sqr(b),
        }),
{
    lemma_cmul_assoc(a, cconj(b), b);
    assert(b.re * b.re - (-b.im) * b.im == cnorm_sqr(b)) by (nonlinear_arith);
    assert(b.re * b.im + (-b.im) * b.re == 0) by (nonlinear_arith);
    assert(cmul(cconj(b), b) == (Cpx { re: cnorm_sqr(b), im: 0 }));
    let n = cnorm_sqr(b);
    assert(a.re * n - a.im * 0 == a.re * n) by (nonlinear_arith);
    assert(a.re * 0 + a.im * n == a.im * n) by (nonlinear_arith);
    assert(cmul(a, Cpx { re: n, im: 0 }) == (Cpx { re: a.re * n, im: a.im * n }));
}

/// A complex scalar with exact 64-bit integer components.
#[derive(Clone, Copy, Debug, PartialEq, Eq, Structural)]
pub struct Complex {
    pub re: i64,
    pub im: i64,
}

impl View for Complex {
    type V = Cpx;

    open spec fn view(&self) -> Cpx {
        Cpx { re: self.re as int, im: self.im as int }
    }
}

impl Complex {
    pub fn new(re: i64, im: i64) -> (r: Self)
        ensures
            r@ == (Cpx { re: re as int, im: im as int }),
    {
        Self { re, im }
    }

    /// Squared norm; the caller guarantees the exact value fits the result
    /// type, which a bound of 2^31 on each component always does.
    pub fn norm_sqr(self) -> (r: i64)
        requires
            cnorm_sqr(self@) <= i64::MAX,
        ensures
            r == cnorm_sqr(self@),
            r >= 0,
    {
        let re: i128 = self.re as i128;
        let im: i128 = self.im as i128;
        proof {
            lemma_mul_le(re as int, re as int, 0x8000_0000_0000_0000, 0x8000_0000_0000_0000);
            lemma_mul_le(im as int, im as int, 0x8000_0000_0000_0000, 0x8000_0000_0000_0000);
            assert(re * re >= 0 && im * im >= 0) by (nonlinear_arith);
            assert(re as int == self@.re && im as int == self@.im);
        }
        let n: i128 = re * re + im * im;
        n as i64
    }

    pub fn conj(self) -> (r: Self)
        requires
            cpx_fits(cconj(self@)),
        ensures
            r@ == cconj(self@),
    {
        Self { re: self.re, im: -self.im }
    }

    pub fn add(self, rhs: Self) -> (r: Self)
        requires
            cpx_fits(cadd(self@, rhs@)),
        ensures
            r@ == cadd(self@, rhs@),
    {
        Self { re: self.re + rhs.re, im: self.im + rhs.im }
    }

    pub fn sub(self, rhs: Self) -> (r: Self)
        requires
            cpx_fits(csub(self@, rhs@)),
        ensures
            r@ == csub(self@, rhs@),
    {
        Self { re: self.re - rhs.re, im: self.im - rhs.im }
    }

    pub fn mul(self, rhs: Self) -> (r: Self)
        requires
            cpx_fits(cmul(self@, rhs@)),
        ensures
            r@ == cmul(self@, rhs@),
    {
        let ar: i128 = self.re as i128;
        let ai: i128 = self.im as i128;
        let br: i128 = rhs.re as i128;
        let bi: i128 = rhs.im as i128;
        proof {
            let b: int = 0x8000_0000_0000_0000;
            lemma_mul_le(ar as int, br as int, b, b);
            lemma_mul_le(ai as int, bi as int, b, b);
            lemma_mul_le(ar as int, bi as int, b, b);
            lemma_mul_le(ai as int, br as int, b, b);
        }
        let re: i128 = ar * br - ai * bi;
        let im: i128 = ar * bi + ai * br;
        Self { re: re as i64, im: im as i64 }
    }
}

impl Default for Complex {
    fn default() -> (r: Self)
        ensures
            r@ == czero(),
    {
        Self { re: 0, im: 0 }
    }
}

impl From<i64> for Complex {
    /// A real scalar: imaginary part zero.
    fn from(value: i64) -> (r: Self) {
        Self { re: value, im: 0 }
    }
}

impl vstd::std_specs::convert::FromSpecImpl<i64> for Complex {
    open spec fn obeys_from_spec() -> bool {
        true
    }

    open spec fn from_spec(value: i64) -> Self {
        Complex { re: value, im: 0 }
    }
}

} // verus!
