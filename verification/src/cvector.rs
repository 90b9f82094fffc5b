//! Color triplets: 3-component complex vectors with the Hermitian inner
//! product of the fundamental representation.

use vstd::prelude::*;

use crate::complex::{
    cadd, cconj, cmul, cnorm_sqr, cpx_fits, cpx_le, czero, lemma_cmul_le, Complex, Cpx,
    OP_LIMIT,
};

verus! {

/// Mathematical model of a color vector: an ordered triple of complex
/// scalars.
pub ghost struct Vec3 {
    pub c0: Cpx,
    pub c1: Cpx,
    pub c2: Cpx,
}

pub open spec fn vzero() -> Vec3 {
    Vec3 { c0: czero(), c1: czero(), c2: czero() }
}

pub open spec fn vadd(a: Vec3, b: Vec3) -> Vec3 {
    Vec3 { c0: cadd(a.c0, b.c0), c1: cadd(a.c1, b.c1), c2: cadd(a.c2, b.c2) }
}

pub open spec fn vsub(a: Vec3, b: Vec3) -> Vec3 {
    Vec3 {
        c0: crate::complex::csub(a.c0, b.c0),
        c1: crate::complex::csub(a.c1, b.c1),
        c2: crate::complex::csub(a.c2, b.c2),
    }
}

/// Componentwise product with one scalar factor.
pub open spec fn vscale(v: Vec3, f: Cpx) -> Vec3 {
    Vec3 { c0: cmul(v.c0, f), c1: cmul(v.c1, f), c2: cmul(v.c2, f) }
}

/// Hermitian inner product: sum of conj(lhs_i) * rhs_i.  It is conjugate
/// symmetric, not symmetric; the order of the arguments matters.
pub open spec fn vdot(a: Vec3, b: Vec3) -> Cpx {
    cadd(cadd(cmul(cconj(a.c0), b.c0), cmul(cconj(a.c1), b.c1)), cmul(cconj(a.c2), b.c2))
}

/// Sum of the squared norms of the components.
pub open spec fn vnorm_sqr(v: Vec3) -> int {
    cnorm_sqr(v.c0) + cnorm_sqr(v.c1) + cnorm_sqr(v.c2)
}

pub open spec fn vec_entry(v: Vec3, i: int) -> Cpx {
    if i == 0 {
        v.c0
    } else if i == 1 {
        v.c1
    } else {
        v.c2
    }
}

/// Every component is bounded by `b` in absolute value.
pub open spec fn vec_le(v: Vec3, b: int) -> bool {
    cpx_le(v.c0, b) && cpx_le(v.c1, b) && cpx_le(v.c2, b)
}

pub open spec fn vadd_fits(a: Vec3, b: Vec3) -> bool {
    cpx_fits(cadd(a.c0, b.c0)) && cpx_fits(cadd(a.c1, b.c1)) && cpx_fits(cadd(a.c2, b.c2))
}

pub open spec fn vsub_fits(a: Vec3, b: Vec3) -> bool {
    cpx_fits(crate::complex::csub(a.c0, b.c0)) && cpx_fits(crate::complex::csub(a.c1, b.c1))
        && cpx_fits(crate::complex::csub(a.c2, b.c2))
}

pub open spec fn vscale_fits(v: Vec3, f: Cpx) -> bool {
    cpx_fits(cmul(v.c0, f)) && cpx_fits(cmul(v.c1, f)) && cpx_fits(cmul(v.c2, f))
}

/// conj(x) * x is the squared norm of x on the real axis.
pub proof fn lemma_conj_mul_self(x: Cpx)
    ensures
        cmul(cconj(x), x) == (Cpx { re: cnorm_sqr(x), im: 0 }),
{
    assert(x.re * x.re - (-x.im) * x.im == x.re * x.re + x.im * x.im) by (nonlinear_arith);
    assert(x.re * x.im + (-x.im) * x.re == 0) by (nonlinear_arith);
}

/// The two cross terms of the Hermitian product are conjugates of each
/// other: conj(x) * y == conj(conj(y) * x).
pub proof fn lemma_conj_mul_swap(x: Cpx, y: Cpx)
    ensures
        cmul(cconj(x), y) == cconj(cmul(cconj(y), x)),
{
    assert(x.re * y.re - (-x.im) * y.im == y.re * x.re - (-y.im) * x.im) by (nonlinear_arith);
    assert(x.re * y.im + (-x.im) * y.re == -(y.re * x.im + (-y.im) * x.re)) by (nonlinear_arith);
}

/// The inner product of a vector with itself is real and equals its
/// squared norm.
pub proof fn lemma_self_dot_real(v: Vec3)
    ensures
        vdot(v, v).im == 0,
        vdot(v, v).re == vnorm_sqr(v),
{
    lemma_conj_mul_self(v.c0);
    lemma_conj_mul_self(v.c1);
    lemma_conj_mul_self(v.c2);
}

/// Conjugate symmetry of the Hermitian inner product:
/// dot(a, b) == conj(dot(b, a)).
pub proof fn lemma_dot_conj_symmetry(a: Vec3, b: Vec3)
    ensures
        vdot(a, b) == cconj(vdot(b, a)),
{
    lemma_conj_mul_swap(a.c0, b.c0);
    lemma_conj_mul_swap(a.c1, b.c1);
    lemma_conj_mul_swap(a.c2, b.c2);
}

/// A color vector: a fixed triple of complex components.
#[derive(Clone, Copy, Debug)]
pub struct CVector {
    pub values: [Complex; 3],
}

impl View for CVector {
    type V = Vec3;

    open spec fn view(&self) -> Vec3 {
        Vec3 { c0: self.values[0]@, c1: self.values[1]@, c2: self.values[2]@ }
    }
}

impl CVector {
    pub fn new(values: [Complex; 3]) -> (r: Self)
        ensures
            r@ == (Vec3 { c0: values[0]@, c1: values[1]@, c2: values[2]@ }),
    {
        Self { values }
    }

    /// Read one component; positions are 0, 1, 2.
    pub fn index(&self, i: usize) -> (r: Complex)
        requires
            i < 3,
        ensures
            r@ == vec_entry(self@, i as int),
    {
        self.values[i]
    }

    pub fn norm_sqr(&self) -> (r: i64)
        requires
            vnorm_sqr(self@) <= i64::MAX,
        ensures
            r == vnorm_sqr(self@),
            r >= 0,
    {
        proof {
            crate::complex::lemma_cnorm_sqr_nonneg(self@.c0);
            crate::complex::lemma_cnorm_sqr_nonneg(self@.c1);
            crate::complex::lemma_cnorm_sqr_nonneg(self@.c2);
        }
        let n0 = self.values[0].norm_sqr();
        let n1 = self.values[1].norm_sqr();
        let n2 = self.values[2].norm_sqr();
        n0 + n1 + n2
    }

    /// Multiply every component by one scalar factor.
    pub fn rescale(&self, factor: Complex) -> (r: CVector)
        requires
            vscale_fits(self@, factor@),
        ensures
            r@ == vscale(self@, factor@),
    {
        Self {
            values: [
                self.values[0].mul(factor),
                self.values[1].mul(factor),
                self.values[2].mul(factor),
            ],
        }
    }

    /// Hermitian inner product; conjugates the left argument, so
    /// dot(a, b) and dot(b, a) differ by conjugation.
    pub fn dot(lhs: &CVector, rhs: &CVector) -> (r: Complex)
        requires
            vec_le(lhs@, OP_LIMIT as int),
            vec_le(rhs@, OP_LIMIT as int),
        ensures
            r@ == vdot(lhs@, rhs@),
    {
        proof {
            let lim: int = OP_LIMIT as int;
            lemma_cmul_le(cconj(lhs@.c0), rhs@.c0, lim, lim);
            lemma_cmul_le(cconj(lhs@.c1), rhs@.c1, lim, lim);
            lemma_cmul_le(cconj(lhs@.c2), rhs@.c2, lim, lim);
        }
        let t0 = lhs.values[0].conj().mul(rhs.values[0]);
        let t1 = lhs.values[1].conj().mul(rhs.values[1]);
        let t2 = lhs.values[2].conj().mul(rhs.values[2]);
        t0.add(t1).add(t2)
    }

    pub fn add(self, rhs: Self) -> (r: Self)
        requires
            vadd_fits(self@, rhs@),
        ensures
            r@ == vadd(self@, rhs@),
    {
        Self {
            values: [
                self.values[0].add(rhs.values[0]),
                self.values[1].add(rhs.values[1]),
                self.values[2].add(rhs.values[2]),
            ],
        }
    }

    pub fn sub(self, rhs: Self) -> (r: Self)
        requires
            vsub_fits(self@, rhs@),
        ensures
            r@ == vsub(self@, rhs@),
    {
        Self {
            values: [
                self.values[0].sub(rhs.values[0]),
                self.values[1].sub(rhs.values[1]),
                self.values[2].sub(rhs.values[2]),
            ],
        }
    }
}

impl Default for CVector {
    fn default() -> (r: Self)
        ensures
            r@ == vzero(),
    {
        Self { values: [Complex { re: 0, im: 0 }, Complex { re: 0, im: 0 }, Complex {
            re: 0,
            im: 0,
        }] }
    }
}

impl From<[i64; 3]> for CVector {
    /// A vector of real components.
    fn from(value: [i64; 3]) -> (r: Self) {
        Self {
            values: [
                Complex { re: value[0], im: 0 },
                Complex { re: value[1], im: 0 },
                Complex { re: value[2], im: 0 },
            ],
        }
    }
}

impl vstd::std_specs::convert::FromSpecImpl<[i64; 3]> for CVector {
    open spec fn obeys_from_spec() -> bool {
        true
    }

    open spec fn from_spec(value: [i64; 3]) -> Self {
        CVector {
            values: [
                Complex { re: value[0], im: 0 },
                Complex { re: value[1], im: 0 },
                Complex { re: value[2], im: 0 },
            ],
        }
    }
}

} // verus!
