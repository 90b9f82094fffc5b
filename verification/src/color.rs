//! SU(3) proposal assembly by SU(2) subgroup embedding.
//!
//! A normalized SU(2) sample is a quadruple (r0, r1, r2, r3) on the unit
//! 4-sphere.  It maps to a 2x2 complex block, which embeds into one of
//! three 3x3 subgroup matrices R, S, T; their product R * S * T is the
//! SU(3) proposal.  The drawing and normalization of the quadruples is
//! floating-point work done by the consumer; the assembly and its
//! algebra are verified here over exact scalars.

use vstd::prelude::*;

use crate::complex::{cmul, cone, cpx_le, csub, czero, Complex, Cpx, OP_LIMIT};
use crate::matrix::{lemma_mmul_le, mat_le, mdet, mmul, CMat, Matrix};

verus! {

/// Component bound on SU(2) cells under which the triple product
/// R * S * T stays within every multiplication limit: entries of R * S
/// are bounded by 6 * 2^24 < 2^30.
pub const SU2_LIMIT: i64 = 0x1000;

/// First cell of the SU(2) matrix of a quadruple: r0 + r3 i.
pub open spec fn su2_cell0(r0: int, r1: int, r2: int, r3: int) -> Cpx {
    Cpx { re: r0, im: r3 }
}

/// Second cell: r2 + r1 i.
pub open spec fn su2_cell1(r0: int, r1: int, r2: int, r3: int) -> Cpx {
    Cpx { re: r2, im: r1 }
}

/// Third cell: -r2 + r1 i.
pub open spec fn su2_cell2(r0: int, r1: int, r2: int, r3: int) -> Cpx {
    Cpx { re: -r2, im: r1 }
}

/// Fourth cell: r0 - r3 i.
pub open spec fn su2_cell3(r0: int, r1: int, r2: int, r3: int) -> Cpx {
    Cpx { re: r0, im: -r3 }
}

/// R embedding: the 2x2 block in the top-left corner, identity at the
/// bottom-right.
pub open spec fn embed_r_spec(q0: Cpx, q1: Cpx, q2: Cpx, q3: Cpx) -> CMat {
    CMat {
        e00: q0, e01: q1, e02: czero(),
        e10: q2, e11: q3, e12: czero(),
        e20: czero(), e21: czero(), e22: cone(),
    }
}

/// S embedding: the 2x2 block on rows and columns 0 and 2, identity in
/// the middle.
pub open spec fn embed_s_spec(q0: Cpx, q1: Cpx, q2: Cpx, q3: Cpx) -> CMat {
    CMat {
        e00: q0, e01: czero(), e02: q1,
        e10: czero(), e11: cone(), e12: czero(),
        e20: q2, e21: czero(), e22: q3,
    }
}

/// T embedding: the 2x2 block in the bottom-right corner, identity at
/// the top-left.
pub open spec fn embed_t_spec(q0: Cpx, q1: Cpx, q2: Cpx, q3: Cpx) -> CMat {
    CMat {
        e00: cone(), e01: czero(), e02: czero(),
        e10: czero(), e11: q0, e12: q1,
        e20: czero(), e21: q2, e22: q3,
    }
}

/// Each subgroup embedding of a unit quadruple has determinant exactly
/// one: the 2x2 block contributes q0*q3 - q1*q2 = r0^2 + r1^2 + r2^2 +
/// r3^2 and the identity border contributes nothing.
pub proof fn lemma_su2_embed_unit_det(r0: int, r1: int, r2: int, r3: int)
    requires
        r0 * r0 + r1 * r1 + r2 * r2 + r3 * r3 == 1,
    ensures
        mdet(
            embed_r_spec(
                su2_cell0(r0, r1, r2, r3),
                su2_cell1(r0, r1, r2, r3),
                su2_cell2(r0, r1, r2, r3),
                su2_cell3(r0, r1, r2, r3),
            ),
        ) == cone(),
        mdet(
            embed_s_spec(
                su2_cell0(r0, r1, r2, r3),
                su2_cell1(r0, r1, r2, r3),
                su2_cell2(r0, r1, r2, r3),
                su2_cell3(r0, r1, r2, r3),
            ),
        ) == cone(),
        mdet(
            embed_t_spec(
                su2_cell0(r0, r1, r2, r3),
                su2_cell1(r0, r1, r2, r3),
                su2_cell2(r0, r1, r2, r3),
                su2_cell3(r0, r1, r2, r3),
            ),
        ) == cone(),
{
    let q0 = su2_cell0(r0, r1, r2, r3);
    let q1 = su2_cell1(r0, r1, r2, r3);
    let q2 = su2_cell2(r0, r1, r2, r3);
    let q3 = su2_cell3(r0, r1, r2, r3);
    assert(r0 * r0 - r3 * (-r3) == r0 * r0 + r3 * r3) by (nonlinear_arith);
    assert(r0 * (-r3) + r3 * r0 == 0) by (nonlinear_arith);
    assert(r2 * (-r2) - r1 * r1 == -(r2 * r2) - r1 * r1) by (nonlinear_arith);
    assert(r2 * r1 + r1 * (-r2) == 0) by (nonlinear_arith);
    assert(cmul(q0, q3) == (Cpx { re: r0 * r0 + r3 * r3, im: 0 }));
    assert(cmul(q1, q2) == (Cpx { re: -(r2 * r2) - r1 * r1, im: 0 }));
    assert(csub(cmul(q0, q3), cmul(q1, q2)) == cone());
    // R: the minors against the identity border collapse onto the block.
    let mr = embed_r_spec(q0, q1, q2, q3);
    assert(csub(cmul(mr.e11, mr.e22), cmul(mr.e12, mr.e21)) == q3);
    assert(csub(cmul(mr.e10, mr.e22), cmul(mr.e12, mr.e20)) == q2);
    assert(cmul(mr.e02, csub(cmul(mr.e10, mr.e21), cmul(mr.e11, mr.e20))) == czero());
    // S: the block sits on rows and columns 0 and 2; the third cofactor
    // carries the negated cell.
    let ms = embed_s_spec(q0, q1, q2, q3);
    let nq2 = Cpx { re: r2, im: -r1 };
    assert(csub(cmul(ms.e11, ms.e22), cmul(ms.e12, ms.e21)) == q3);
    assert(cmul(ms.e01, csub(cmul(ms.e10, ms.e22), cmul(ms.e12, ms.e20))) == czero());
    assert(csub(cmul(ms.e10, ms.e21), cmul(ms.e11, ms.e20)) == nq2);
    assert(r2 * r2 - r1 * (-r1) == r2 * r2 + r1 * r1) by (nonlinear_arith);
    assert(r2 * (-r1) + r1 * r2 == 0) by (nonlinear_arith);
    assert(cmul(q1, nq2) == (Cpx { re: r2 * r2 + r1 * r1, im: 0 }));
    // T: the first cofactor is the block determinant, the others vanish.
    let mt = embed_t_spec(q0, q1, q2, q3);
    assert(csub(cmul(mt.e11, mt.e22), cmul(mt.e12, mt.e21)) == csub(
        cmul(q0, q3),
        cmul(q1, q2),
    ));
    assert(cmul(mt.e00, csub(cmul(mt.e11, mt.e22), cmul(mt.e12, mt.e21))) == csub(
        cmul(q0, q3),
        cmul(q1, q2),
    ));
    assert(cmul(mt.e01, csub(cmul(mt.e10, mt.e22), cmul(mt.e12, mt.e20))) == czero());
    assert(cmul(mt.e02, csub(cmul(mt.e10, mt.e21), cmul(mt.e11, mt.e20))) == czero());
}

/// Build the 2x2 SU(2) matrix cells of a quadruple, in row-major order.
pub fn su2_matrix(r0: i64, r1: i64, r2: i64, r3: i64) -> (r: [Complex; 4])
    requires
        r2 != i64::MIN,
        r3 != i64::MIN,
    ensures
        r[0]@ == su2_cell0(r0 as int, r1 as int, r2 as int, r3 as int),
        r[1]@ == su2_cell1(r0 as int, r1 as int, r2 as int, r3 as int),
        r[2]@ == su2_cell2(r0 as int, r1 as int, r2 as int, r3 as int),
        r[3]@ == su2_cell3(r0 as int, r1 as int, r2 as int, r3 as int),
{
    [
        Complex { re: r0, im: r3 },
        Complex { re: r2, im: r1 },
        Complex { re: -r2, im: r1 },
        Complex { re: r0, im: -r3 },
    ]
}

/// Embed 2x2 cells into the top-left subgroup matrix R.
pub fn embed_r(q: &[Complex; 4]) -> (r: Matrix)
    ensures
        r@ == embed_r_spec(q[0]@, q[1]@, q[2]@, q[3]@),
{
    let zero = Complex { re: 0, im: 0 };
    let one = Complex { re: 1, im: 0 };
    Matrix { values: [q[0], q[1], zero, q[2], q[3], zero, zero, zero, one] }
}

/// Embed 2x2 cells into the outer subgroup matrix S.
pub fn embed_s(q: &[Complex; 4]) -> (r: Matrix)
    ensures
        r@ == embed_s_spec(q[0]@, q[1]@, q[2]@, q[3]@),
{
    let zero = Complex { re: 0, im: 0 };
    let one = Complex { re: 1, im: 0 };
    Matrix { values: [q[0], zero, q[1], zero, one, zero, q[2], zero, q[3]] }
}

/// Embed 2x2 cells into the bottom-right subgroup matrix T.
pub fn embed_t(q: &[Complex; 4]) -> (r: Matrix)
    ensures
        r@ == embed_t_spec(q[0]@, q[1]@, q[2]@, q[3]@),
{
    let zero = Complex { re: 0, im: 0 };
    let one = Complex { re: 1, im: 0 };
    Matrix { values: [one, zero, zero, zero, q[0], q[1], zero, q[2], q[3]] }
}

/// Assemble the SU(3) proposal from three SU(2) samples: the product
/// R * S * T, multiplied in exactly that order.
pub fn su3_from_su2(r2: &[Complex; 4], s2: &[Complex; 4], t2: &[Complex; 4]) -> (r: Matrix)
    requires
        forall|i: int| 0 <= i < 4 ==> cpx_le(#[trigger] r2[i]@, SU2_LIMIT as int),
        forall|i: int| 0 <= i < 4 ==> cpx_le(#[trigger] s2[i]@, SU2_LIMIT as int),
        forall|i: int| 0 <= i < 4 ==> cpx_le(#[trigger] t2[i]@, SU2_LIMIT as int),
    ensures
        r@ == mmul(
            mmul(
                embed_r_spec(r2[0]@, r2[1]@, r2[2]@, r2[3]@),
                embed_s_spec(s2[0]@, s2[1]@, s2[2]@, s2[3]@),
            ),
            embed_t_spec(t2[0]@, t2[1]@, t2[2]@, t2[3]@),
        ),
{
    let r = embed_r(r2);
    let s = embed_s(s2);
    let t = embed_t(t2);
    proof {
        let lim: int = SU2_LIMIT as int;
        assert(mat_le(r@, lim) && mat_le(s@, lim) && mat_le(t@, lim));
        lemma_mmul_le(r@, s@, lim, lim);
        assert(6 * lim * lim == 100663296) by (nonlinear_arith)
            requires
                lim == 0x1000,
        ;
        assert(100663296 < OP_LIMIT as int);
    }
    r.mul(s).mul(t)
}

} // verus!
