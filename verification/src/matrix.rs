//! 3x3 complex matrices: the representation of gauge links.
//!
//! Entries are stored in row-major order.  Multiplication keeps the exact
//! operand order — gauge-link composition encodes path ordering — and the
//! adjoint is the conjugate transpose, not an elementwise conjugate.

use vstd::prelude::*;

use crate::complex::{
    cadd, cconj, cmul, cone, cpx_fits, cpx_le, csub, czero, lemma_cmul_assoc, lemma_cmul_dist_l,
    lemma_cmul_dist_r, lemma_cmul_le, Complex, Cpx, OP_LIMIT,
};

verus! {

/// Component bound under which the cofactor expansion of the determinant
/// stays inside the 64-bit range: with entries bounded by 2^19 a 2x2
/// minor is bounded by 4 * 2^39 and the full expansion by 3 * 2^60.
pub const DET_LIMIT: i64 = 0x8_0000;

/// Mathematical model of a 3x3 complex matrix, entry (r, c) at `eRC`.
pub ghost struct CMat {
    pub e00: Cpx,
    pub e01: Cpx,
    pub e02: Cpx,
    pub e10: Cpx,
    pub e11: Cpx,
    pub e12: Cpx,
    pub e20: Cpx,
    pub e21: Cpx,
    pub e22: Cpx,
}

pub open spec fn mzero() -> CMat {
    CMat {
        e00: czero(), e01: czero(), e02: czero(),
        e10: czero(), e11: czero(), e12: czero(),
        e20: czero(), e21: czero(), e22: czero(),
    }
}

/// The group identity: ones on the diagonal, zeros elsewhere.
pub open spec fn mident() -> CMat {
    CMat {
        e00: cone(), e01: czero(), e02: czero(),
        e10: czero(), e11: cone(), e12: czero(),
        e20: czero(), e21: czero(), e22: cone(),
    }
}

pub open spec fn ment(m: CMat, r: int, c: int) -> Cpx {
    if r == 0 {
        if c == 0 { m.e00 } else if c == 1 { m.e01 } else { m.e02 }
    } else if r == 1 {
        if c == 0 { m.e10 } else if c == 1 { m.e11 } else { m.e12 }
    } else {
        if c == 0 { m.e20 } else if c == 1 { m.e21 } else { m.e22 }
    }
}

pub open spec fn mset(m: CMat, r: int, c: int, v: Cpx) -> CMat {
    if r == 0 {
        if c == 0 { CMat { e00: v, ..m } } else if c == 1 { CMat { e01: v, ..m } } else { CMat { e02: v, ..m } }
    } else if r == 1 {
        if c == 0 { CMat { e10: v, ..m } } else if c == 1 { CMat { e11: v, ..m } } else { CMat { e12: v, ..m } }
    } else {
        if c == 0 { CMat { e20: v, ..m } } else if c == 1 { CMat { e21: v, ..m } } else { CMat { e22: v, ..m } }
    }
}

pub open spec fn madd(a: CMat, b: CMat) -> CMat {
    CMat {
        e00: cadd(a.e00, b.e00), e01: cadd(a.e01, b.e01), e02: cadd(a.e02, b.e02),
        e10: cadd(a.e10, b.e10), e11: cadd(a.e11, b.e11), e12: cadd(a.e12, b.e12),
        e20: cadd(a.e20, b.e20), e21: cadd(a.e21, b.e21), e22: cadd(a.e22, b.e22),
    }
}

pub open spec fn msub(a: CMat, b: CMat) -> CMat {
    CMat {
        e00: csub(a.e00, b.e00), e01: csub(a.e01, b.e01), e02: csub(a.e02, b.e02),
        e10: csub(a.e10, b.e10), e11: csub(a.e11, b.e11), e12: csub(a.e12, b.e12),
        e20: csub(a.e20, b.e20), e21: csub(a.e21, b.e21), e22: csub(a.e22, b.e22),
    }
}

/// Sum of three products: one entry of a matrix product.
pub open spec fn dot3(a0: Cpx, a1: Cpx, a2: Cpx, b0: Cpx, b1: Cpx, b2: Cpx) -> Cpx {
    cadd(cadd(cmul(a0, b0), cmul(a1, b1)), cmul(a2, b2))
}

/// Standard matrix product: entry (r, c) is the sum over i of
/// a[r][i] * b[i][c].  Not commutative.
pub open spec fn mmul(a: CMat, b: CMat) -> CMat {
    CMat {
        e00: dot3(a.e00, a.e01, a.e02, b.e00, b.e10, b.e20),
        e01: dot3(a.e00, a.e01, a.e02, b.e01, b.e11, b.e21),
        e02: dot3(a.e00, a.e01, a.e02, b.e02, b.e12, b.e22),
        e10: dot3(a.e10, a.e11, a.e12, b.e00, b.e10, b.e20),
        e11: dot3(a.e10, a.e11, a.e12, b.e01, b.e11, b.e21),
        e12: dot3(a.e10, a.e11, a.e12, b.e02, b.e12, b.e22),
        e20: dot3(a.e20, a.e21, a.e22, b.e00, b.e10, b.e20),
        e21: dot3(a.e20, a.e21, a.e22, b.e01, b.e11, b.e21),
        e22: dot3(a.e20, a.e21, a.e22, b.e02, b.e12, b.e22),
    }
}

/// Hermitian adjoint: conjugate transpose, entry (r, c) is
/// conj(m[c][r]).
pub open spec fn madj(m: CMat) -> CMat {
    CMat {
        e00: cconj(m.e00), e01: cconj(m.e10), e02: cconj(m.e20),
        e10: cconj(m.e01), e11: cconj(m.e11), e12: cconj(m.e21),
        e20: cconj(m.e02), e21: cconj(m.e12), e22: cconj(m.e22),
    }
}

/// Determinant by cofactor expansion along the first row.
pub open spec fn mdet(m: CMat) -> Cpx {
    cadd(
        csub(
            cmul(m.e00, csub(cmul(m.e11, m.e22), cmul(m.e12, m.e21))),
            cmul(m.e01, csub(cmul(m.e10, m.e22), cmul(m.e12, m.e20))),
        ),
        cmul(m.e02, csub(cmul(m.e10, m.e21), cmul(m.e11, m.e20))),
    )
}

/// Every entry is bounded by `b` in absolute value.
pub open spec fn mat_le(m: CMat, b: int) -> bool {
    cpx_le(m.e00, b) && cpx_le(m.e01, b) && cpx_le(m.e02, b) && cpx_le(m.e10, b) && cpx_le(
        m.e11,
        b,
    ) && cpx_le(m.e12, b) && cpx_le(m.e20, b) && cpx_le(m.e21, b) && cpx_le(m.e22, b)
}

pub open spec fn madd_fits(a: CMat, b: CMat) -> bool {
    cpx_fits(cadd(a.e00, b.e00)) && cpx_fits(cadd(a.e01, b.e01)) && cpx_fits(cadd(a.e02, b.e02))
        && cpx_fits(cadd(a.e10, b.e10)) && cpx_fits(cadd(a.e11, b.e11)) && cpx_fits(
        cadd(a.e12, b.e12),
    ) && cpx_fits(cadd(a.e20, b.e20)) && cpx_fits(cadd(a.e21, b.e21)) && cpx_fits(
        cadd(a.e22, b.e22),
    )
}

pub open spec fn msub_fits(a: CMat, b: CMat) -> bool {
    cpx_fits(csub(a.e00, b.e00)) && cpx_fits(csub(a.e01, b.e01)) && cpx_fits(csub(a.e02, b.e02))
        && cpx_fits(csub(a.e10, b.e10)) && cpx_fits(csub(a.e11, b.e11)) && cpx_fits(
        csub(a.e12, b.e12),
    ) && cpx_fits(csub(a.e20, b.e20)) && cpx_fits(csub(a.e21, b.e21)) && cpx_fits(
        csub(a.e22, b.e22),
    )
}

/// Entries of a product of bounded matrices are bounded: each is a sum
/// of three products, every one within 2 * p * q.
pub proof fn lemma_mmul_le(a: CMat, b: CMat, p: int, q: int)
    requires
        mat_le(a, p),
        mat_le(b, q),
        0 <= p,
        0 <= q,
    ensures
        mat_le(mmul(a, b), 6 * p * q),
{
    lemma_cmul_le(a.e00, b.e00, p, q);
    lemma_cmul_le(a.e01, b.e10, p, q);
    lemma_cmul_le(a.e02, b.e20, p, q);
    lemma_cmul_le(a.e00, b.e01, p, q);
    lemma_cmul_le(a.e01, b.e11, p, q);
    lemma_cmul_le(a.e02, b.e21, p, q);
    lemma_cmul_le(a.e00, b.e02, p, q);
    lemma_cmul_le(a.e01, b.e12, p, q);
    lemma_cmul_le(a.e02, b.e22, p, q);
    lemma_cmul_le(a.e10, b.e00, p, q);
    lemma_cmul_le(a.e11, b.e10, p, q);
    lemma_cmul_le(a.e12, b.e20, p, q);
    lemma_cmul_le(a.e10, b.e01, p, q);
    lemma_cmul_le(a.e11, b.e11, p, q);
    lemma_cmul_le(a.e12, b.e21, p, q);
    lemma_cmul_le(a.e10, b.e02, p, q);
    lemma_cmul_le(a.e11, b.e12, p, q);
    lemma_cmul_le(a.e12, b.e22, p, q);
    lemma_cmul_le(a.e20, b.e00, p, q);
    lemma_cmul_le(a.e21, b.e10, p, q);
    lemma_cmul_le(a.e22, b.e20, p, q);
    lemma_cmul_le(a.e20, b.e01, p, q);
    lemma_cmul_le(a.e21, b.e11, p, q);
    lemma_cmul_le(a.e22, b.e21, p, q);
    lemma_cmul_le(a.e20, b.e02, p, q);
    lemma_cmul_le(a.e21, b.e12, p, q);
    lemma_cmul_le(a.e22, b.e22, p, q);
    assert(6 * p * q == (2 * p * q) + (2 * p * q) + (2 * p * q)) by (nonlinear_arith);
}

/// The adjoint is an involution: taking the conjugate transpose twice
/// gives the original matrix back.
pub proof fn lemma_adjoint_involution(m: CMat)
    ensures
        madj(madj(m)) == m,
{
}

/// One entry of a triple product may be grouped either way.
#[verifier::spinoff_prover]
#[verifier::rlimit(100)]
proof fn lemma_dot3_assoc(
    a0: Cpx, a1: Cpx, a2: Cpx,
    b00: Cpx, b01: Cpx, b02: Cpx,
    b10: Cpx, b11: Cpx, b12: Cpx,
    b20: Cpx, b21: Cpx, b22: Cpx,
    c0: Cpx, c1: Cpx, c2: Cpx,
)
    ensures
        dot3(
            dot3(a0, a1, a2, b00, b10, b20),
            dot3(a0, a1, a2, b01, b11, b21),
            dot3(a0, a1, a2, b02, b12, b22),
            c0, c1, c2,
        ) == dot3(
            a0, a1, a2,
            dot3(b00, b01, b02, c0, c1, c2),
            dot3(b10, b11, b12, c0, c1, c2),
            dot3(b20, b21, b22, c0, c1, c2),
        ),
{
    lemma_cmul_dist_r(cadd(cmul(a0, b00), cmul(a1, b10)), cmul(a2, b20), c0);
    lemma_cmul_dist_r(cmul(a0, b00), cmul(a1, b10), c0);
    lemma_cmul_dist_r(cadd(cmul(a0, b01), cmul(a1, b11)), cmul(a2, b21), c1);
    lemma_cmul_dist_r(cmul(a0, b01), cmul(a1, b11), c1);
    lemma_cmul_dist_r(cadd(cmul(a0, b02), cmul(a1, b12)), cmul(a2, b22), c2);
    lemma_cmul_dist_r(cmul(a0, b02), cmul(a1, b12), c2);
    lemma_cmul_assoc(a0, b00, c0);
    lemma_cmul_assoc(a1, b10, c0);
    lemma_cmul_assoc(a2, b20, c0);
    lemma_cmul_assoc(a0, b01, c1);
    lemma_cmul_assoc(a1, b11, c1);
    lemma_cmul_assoc(a2, b21, c1);
    lemma_cmul_assoc(a0, b02, c2);
    lemma_cmul_assoc(a1, b12, c2);
    lemma_cmul_assoc(a2, b22, c2);
    lemma_cmul_dist_l(a0, cadd(cmul(b00, c0), cmul(b01, c1)), cmul(b02, c2));
    lemma_cmul_dist_l(a0, cmul(b00, c0), cmul(b01, c1));
    lemma_cmul_dist_l(a1, cadd(cmul(b10, c0), cmul(b11, c1)), cmul(b12, c2));
    lemma_cmul_dist_l(a1, cmul(b10, c0), cmul(b11, c1));
    lemma_cmul_dist_l(a2, cadd(cmul(b20, c0), cmul(b21, c1)), cmul(b22, c2));
    lemma_cmul_dist_l(a2, cmul(b20, c0), cmul(b21, c1));
}

/// Matrix multiplication is associative: (a * b) * c == a * (b * c).
#[verifier::spinoff_prover]
#[verifier::rlimit(100)]
pub proof fn lemma_mmul_assoc(a: CMat, b: CMat, c: CMat)
    ensures
        mmul(mmul(a, b), c) == mmul(a, mmul(b, c)),
{
    lemma_dot3_assoc(
        a.e00, a.e01, a.e02,
        b.e00, b.e01, b.e02, b.e10, b.e11, b.e12, b.e20, b.e21, b.e22,
        c.e00, c.e10, c.e20,
    );
    lemma_dot3_assoc(
        a.e00, a.e01, a.e02,
        b.e00, b.e01, b.e02, b.e10, b.e11, b.e12, b.e20, b.e21, b.e22,
        c.e01, c.e11, c.e21,
    );
    lemma_dot3_assoc(
        a.e00, a.e01, a.e02,
        b.e00, b.e01, b.e02, b.e10, b.e11, b.e12, b.e20, b.e21, b.e22,
        c.e02, c.e12, c.e22,
    );
    lemma_dot3_assoc(
        a.e10, a.e11, a.e12,
        b.e00, b.e01, b.e02, b.e10, b.e11, b.e12, b.e20, b.e21, b.e22,
        c.e00, c.e10, c.e20,
    );
    lemma_dot3_assoc(
        a.e10, a.e11, a.e12,
        b.e00, b.e01, b.e02, b.e10, b.e11, b.e12, b.e20, b.e21, b.e22,
        c.e01, c.e11, c.e21,
    );
    lemma_dot3_assoc(
        a.e10, a.e11, a.e12,
        b.e00, b.e01, b.e02, b.e10, b.e11, b.e12, b.e20, b.e21, b.e22,
        c.e02, c.e12, c.e22,
    );
    lemma_dot3_assoc(
        a.e20, a.e21, a.e22,
        b.e00, b.e01, b.e02, b.e10, b.e11, b.e12, b.e20, b.e21, b.e22,
        c.e00, c.e10, c.e20,
    );
    lemma_dot3_assoc(
        a.e20, a.e21, a.e22,
        b.e00, b.e01, b.e02, b.e10, b.e11, b.e12, b.e20, b.e21, b.e22,
        c.e01, c.e11, c.e21,
    );
    lemma_dot3_assoc(
        a.e20, a.e21, a.e22,
        b.e00, b.e01, b.e02, b.e10, b.e11, b.e12, b.e20, b.e21, b.e22,
        c.e02, c.e12, c.e22,
    );
}

/// The identity matrix is a two-sided neutral element of multiplication.
pub proof fn lemma_identity_neutral(m: CMat)
    ensures
        mmul(mident(), m) == m,
        mmul(m, mident()) == m,
{
}

/// A 3x3 complex matrix, entries stored row-major.
#[derive(Clone, Copy, Debug)]
pub struct Matrix {
    pub values: [Complex; 9],
}

impl View for Matrix {
    type V = CMat;

    open spec fn view(&self) -> CMat {
        CMat {
            e00: self.values[0]@, e01: self.values[1]@, e02: self.values[2]@,
            e10: self.values[3]@, e11: self.values[4]@, e12: self.values[5]@,
            e20: self.values[6]@, e21: self.values[7]@, e22: self.values[8]@,
        }
    }
}

/// Sum of three entry products with every intermediate proved in range;
/// the shared kernel of `mul`.
fn dot3_exec(a0: Complex, a1: Complex, a2: Complex, b0: Complex, b1: Complex, b2: Complex) -> (r:
    Complex)
    requires
        cpx_le(a0@, OP_LIMIT as int),
        cpx_le(a1@, OP_LIMIT as int),
        cpx_le(a2@, OP_LIMIT as int),
        cpx_le(b0@, OP_LIMIT as int),
        cpx_le(b1@, OP_LIMIT as int),
        cpx_le(b2@, OP_LIMIT as int),
    ensures
        r@ == dot3(a0@, a1@, a2@, b0@, b1@, b2@),
{
    proof {
        let lim: int = OP_LIMIT as int;
        lemma_cmul_le(a0@, b0@, lim, lim);
        lemma_cmul_le(a1@, b1@, lim, lim);
        lemma_cmul_le(a2@, b2@, lim, lim);
    }
    a0.mul(b0).add(a1.mul(b1)).add(a2.mul(b2))
}

impl Matrix {
    /// The group identity and the cold-start link value.
    pub fn identity() -> (r: Self)
        ensures
            r@ == mident(),
    {
        let zero = Complex { re: 0, im: 0 };
        let one = Complex { re: 1, im: 0 };
        Self { values: [one, zero, zero, zero, one, zero, zero, zero, one] }
    }

    /// Read the entry at (row, column).
    pub fn index(&self, row: usize, col: usize) -> (r: Complex)
        requires
            row < 3,
            col < 3,
        ensures
            r@ == ment(self@, row as int, col as int),
    {
        self.values[row * 3 + col]
    }

    /// Replace the entry at (row, column).
    pub fn set_entry(&mut self, row: usize, col: usize, v: Complex)
        requires
            row < 3,
            col < 3,
        ensures
            final(self)@ == mset(old(self)@, row as int, col as int, v@),
    {
        self.values[row * 3 + col] = v;
    }

    /// Hermitian adjoint (conjugate transpose).
    pub fn conj(&self) -> (r: Self)
        requires
            mat_le(self@, i64::MAX as int),
        ensures
            r@ == madj(self@),
    {
        Self {
            values: [
                self.values[0].conj(),
                self.values[3].conj(),
                self.values[6].conj(),
                self.values[1].conj(),
                self.values[4].conj(),
                self.values[7].conj(),
                self.values[2].conj(),
                self.values[5].conj(),
                self.values[8].conj(),
            ],
        }
    }

    /// Determinant by cofactor expansion along the first row: the only
    /// check available on a sampled matrix for SU(3) membership.
    pub fn det(&self) -> (r: Complex)
        requires
            mat_le(self@, DET_LIMIT as int),
        ensures
            r@ == mdet(self@),
    {
        proof {
            let lim: int = DET_LIMIT as int;
            lemma_cmul_le(self@.e11, self@.e22, lim, lim);
            lemma_cmul_le(self@.e12, self@.e21, lim, lim);
            lemma_cmul_le(self@.e10, self@.e22, lim, lim);
            lemma_cmul_le(self@.e12, self@.e20, lim, lim);
            lemma_cmul_le(self@.e10, self@.e21, lim, lim);
            lemma_cmul_le(self@.e11, self@.e20, lim, lim);
            lemma_cmul_le(self@.e00, csub(cmul(self@.e11, self@.e22), cmul(self@.e12, self@.e21)),
                lim, 4 * lim * lim);
            lemma_cmul_le(self@.e01, csub(cmul(self@.e10, self@.e22), cmul(self@.e12, self@.e20)),
                lim, 4 * lim * lim);
            lemma_cmul_le(self@.e02, csub(cmul(self@.e10, self@.e21), cmul(self@.e11, self@.e20)),
                lim, 4 * lim * lim);
        }
        let sub1 = self.values[4].mul(self.values[8]).sub(self.values[5].mul(self.values[7]));
        let sub2 = self.values[3].mul(self.values[8]).sub(self.values[5].mul(self.values[6]));
        let sub3 = self.values[3].mul(self.values[7]).sub(self.values[4].mul(self.values[6]));
        self.values[0].mul(sub1).sub(self.values[1].mul(sub2)).add(self.values[2].mul(sub3))
    }

    pub fn add(self, rhs: Self) -> (r: Self)
        requires
            madd_fits(self@, rhs@),
        ensures
            r@ == madd(self@, rhs@),
    {
        Self {
            values: [
                self.values[0].add(rhs.values[0]),
                self.values[1].add(rhs.values[1]),
                self.values[2].add(rhs.values[2]),
                self.values[3].add(rhs.values[3]),
                self.values[4].add(rhs.values[4]),
                self.values[5].add(rhs.values[5]),
                self.values[6].add(rhs.values[6]),
                self.values[7].add(rhs.values[7]),
                self.values[8].add(rhs.values[8]),
            ],
        }
    }

    pub fn sub(self, rhs: Self) -> (r: Self)
        requires
            msub_fits(self@, rhs@),
        ensures
            r@ == msub(self@, rhs@),
    {
        Self {
            values: [
                self.values[0].sub(rhs.values[0]),
                self.values[1].sub(rhs.values[1]),
                self.values[2].sub(rhs.values[2]),
                self.values[3].sub(rhs.values[3]),
                self.values[4].sub(rhs.values[4]),
                self.values[5].sub(rhs.values[5]),
                self.values[6].sub(rhs.values[6]),
                self.values[7].sub(rhs.values[7]),
                self.values[8].sub(rhs.values[8]),
            ],
        }
    }

    /// Standard matrix product, in exactly this operand order.
    pub fn mul(self, rhs: Self) -> (r: Self)
        requires
            mat_le(self@, OP_LIMIT as int),
            mat_le(rhs@, OP_LIMIT as int),
        ensures
            r@ == mmul(self@, rhs@),
    {
        let v = &self.values;
        let w = &rhs.values;
        Self {
            values: [
                dot3_exec(v[0], v[1], v[2], w[0], w[3], w[6]),
                dot3_exec(v[0], v[1], v[2], w[1], w[4], w[7]),
                dot3_exec(v[0], v[1], v[2], w[2], w[5], w[8]),
                dot3_exec(v[3], v[4], v[5], w[0], w[3], w[6]),
                dot3_exec(v[3], v[4], v[5], w[1], w[4], w[7]),
                dot3_exec(v[3], v[4], v[5], w[2], w[5], w[8]),
                dot3_exec(v[6], v[7], v[8], w[0], w[3], w[6]),
                dot3_exec(v[6], v[7], v[8], w[1], w[4], w[7]),
                dot3_exec(v[6], v[7], v[8], w[2], w[5], w[8]),
            ],
        }
    }
}

impl Default for Matrix {
    /// The all-zero matrix.
    fn default() -> (r: Self)
        ensures
            r@ == mzero(),
    {
        let zero = Complex { re: 0, im: 0 };
        Self { values: [zero, zero, zero, zero, zero, zero, zero, zero, zero] }
    }
}

impl From<[i64; 9]> for Matrix {
    /// A matrix of real entries, row-major.
    fn from(values: [i64; 9]) -> (r: Self) {
        Self {
            values: [
                Complex { re: values[0], im: 0 },
                Complex { re: values[1], im: 0 },
                Complex { re: values[2], im: 0 },
                Complex { re: values[3], im: 0 },
                Complex { re: values[4], im: 0 },
                Complex { re: values[5], im: 0 },
                Complex { re: values[6], im: 0 },
                Complex { re: values[7], im: 0 },
                Complex { re: values[8], im: 0 },
            ],
        }
    }
}

impl vstd::std_specs::convert::FromSpecImpl<[i64; 9]> for Matrix {
    open spec fn obeys_from_spec() -> bool {
        true
    }

    open spec fn from_spec(values: [i64; 9]) -> Self {
        Matrix {
            values: [
                Complex { re: values[0], im: 0 },
                Complex { re: values[1], im: 0 },
                Complex { re: values[2], im: 0 },
                Complex { re: values[3], im: 0 },
                Complex { re: values[4], im: 0 },
                Complex { re: values[5], im: 0 },
                Complex { re: values[6], im: 0 },
                Complex { re: values[7], im: 0 },
                Complex { re: values[8], im: 0 },
            ],
        }
    }
}

impl From<[Complex; 9]> for Matrix {
    /// A matrix from nine complex entries, row-major.
    fn from(values: [Complex; 9]) -> (r: Self) {
        Self { values }
    }
}

impl vstd::std_specs::convert::FromSpecImpl<[Complex; 9]> for Matrix {
    open spec fn obeys_from_spec() -> bool {
        true
    }

    open spec fn from_spec(values: [Complex; 9]) -> Self {
        Matrix { values }
    }
}

} // verus!
