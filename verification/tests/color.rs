use su3lattice::color::{embed_r, embed_s, embed_t, su2_matrix, su3_from_su2};
use su3lattice::Matrix;

#[test]
fn su2_matrix_layout() {
    let q = su2_matrix(1, 2, 3, 4);

    assert_eq!((q[0].re, q[0].im), (1, 4));
    assert_eq!((q[1].re, q[1].im), (3, 2));
    assert_eq!((q[2].re, q[2].im), (-3, 2));
    assert_eq!((q[3].re, q[3].im), (1, -4));
}

#[test]
fn embeddings_place_the_block() {
    let q = su2_matrix(1, 2, 3, 4);

    let r = embed_r(&q);
    assert_eq!((r.index(0, 0).re, r.index(0, 0).im), (1, 4));
    assert_eq!((r.index(0, 1).re, r.index(0, 1).im), (3, 2));
    assert_eq!((r.index(1, 0).re, r.index(1, 0).im), (-3, 2));
    assert_eq!((r.index(1, 1).re, r.index(1, 1).im), (1, -4));
    assert_eq!((r.index(2, 2).re, r.index(2, 2).im), (1, 0));
    assert_eq!((r.index(0, 2).re, r.index(2, 0).re), (0, 0));

    let s = embed_s(&q);
    assert_eq!((s.index(0, 0).re, s.index(0, 0).im), (1, 4));
    assert_eq!((s.index(0, 2).re, s.index(0, 2).im), (3, 2));
    assert_eq!((s.index(2, 0).re, s.index(2, 0).im), (-3, 2));
    assert_eq!((s.index(2, 2).re, s.index(2, 2).im), (1, -4));
    assert_eq!((s.index(1, 1).re, s.index(1, 1).im), (1, 0));
    assert_eq!((s.index(0, 1).re, s.index(1, 0).re), (0, 0));

    let t = embed_t(&q);
    assert_eq!((t.index(1, 1).re, t.index(1, 1).im), (1, 4));
    assert_eq!((t.index(1, 2).re, t.index(1, 2).im), (3, 2));
    assert_eq!((t.index(2, 1).re, t.index(2, 1).im), (-3, 2));
    assert_eq!((t.index(2, 2).re, t.index(2, 2).im), (1, -4));
    assert_eq!((t.index(0, 0).re, t.index(0, 0).im), (1, 0));
    assert_eq!((t.index(0, 1).re, t.index(1, 0).re), (0, 0));
}

#[test]
fn identity_quaternions_compose_to_identity() {
    let q = su2_matrix(1, 0, 0, 0);

    let m = su3_from_su2(&q, &q, &q);
    let i = Matrix::identity();

    for r in 0..3 {
        for c in 0..3 {
            assert_eq!(m.index(r, c).re, i.index(r, c).re);
            assert_eq!(m.index(r, c).im, i.index(r, c).im);
        }
    }
}

#[test]
fn unit_quaternions_compose_to_unit_determinant() {
    // Three distinct unit quadruples: each embedding has determinant one,
    // so the composed proposal does as well.
    let r2 = su2_matrix(0, 1, 0, 0);
    let s2 = su2_matrix(0, 0, 1, 0);
    let t2 = su2_matrix(0, 0, 0, 1);

    let m = su3_from_su2(&r2, &s2, &t2);
    let d = m.det();

    assert_eq!(d.re, 1);
    assert_eq!(d.im, 0);
}

#[test]
fn single_embedding_has_unit_determinant() {
    let q = su2_matrix(0, 1, 0, 0);

    assert_eq!((embed_r(&q).det().re, embed_r(&q).det().im), (1, 0));
    assert_eq!((embed_s(&q).det().re, embed_s(&q).det().im), (1, 0));
    assert_eq!((embed_t(&q).det().re, embed_t(&q).det().im), (1, 0));
}
