use su3lattice::{CVector, Complex};

#[test]
fn it_should_dot() {
    let a = CVector::new([Complex::new(1, 1), Complex::new(0, 1), Complex::new(1, 0)]);
    let b = CVector::new([Complex::new(2, 1), Complex::new(1, 0), Complex::new(1, 1)]);

    assert_eq!(CVector::dot(&a, &a).re, a.norm_sqr());
    assert_eq!(CVector::dot(&b, &b).re, b.norm_sqr());

    assert_eq!(CVector::dot(&a, &b).re, 4);
    assert_eq!(CVector::dot(&a, &b).im, -1);
    assert_eq!(CVector::dot(&b, &a).re, 4);
    assert_eq!(CVector::dot(&b, &a).im, 1);
}

#[test]
fn cvector_it_should_add() {
    let a = CVector::from([1i64, 2, 3]);
    let b = CVector::from([4i64, 5, 6]);

    let c = a.add(b);
    assert_eq!(c.index(0).re, 5);
    assert_eq!(c.index(1).re, 7);
    assert_eq!(c.index(2).re, 9);
}

#[test]
fn cvector_it_should_sub() {
    let a = CVector::from([1i64, 2, 3]);
    let b = CVector::from([6i64, 5, 4]);

    let c = a.sub(b);
    assert_eq!(c.index(0).re, -5);
    assert_eq!(c.index(1).re, -3);
    assert_eq!(c.index(2).re, -1);
}

#[test]
fn color_triplet_norm_sqr() {
    let a = CVector::from([2i64, 3, 6]);

    assert_eq!(a.norm_sqr(), 49);
}

#[test]
fn it_should_rescale() {
    // The exact core has no scalar 1/7; scaling the same triplet by an
    // exact factor scales the squared norm by its squared modulus.
    let a = CVector::from([2i64, 3, 6]);

    let b = a.rescale(Complex::new(2, 0));

    assert_eq!(b.index(0).re, 4);
    assert_eq!(b.index(1).re, 6);
    assert_eq!(b.index(2).re, 12);
    assert_eq!(b.norm_sqr(), 4 * 49);
}

#[test]
fn rescale_by_imaginary_unit_keeps_norm() {
    let a = CVector::from([2i64, 3, 6]);

    let b = a.rescale(Complex::new(0, 1));

    assert_eq!(b.index(0).re, 0);
    assert_eq!(b.index(0).im, 2);
    assert_eq!(b.norm_sqr(), 49);
}

#[test]
fn self_dot_is_real() {
    let v = CVector::new([Complex::new(2, -5), Complex::new(-1, 4), Complex::new(0, 3)]);

    let d = CVector::dot(&v, &v);

    assert_eq!(d.im, 0);
    assert_eq!(d.re, v.norm_sqr());
}
