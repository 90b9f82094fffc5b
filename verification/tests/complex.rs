use su3lattice::Complex;

#[test]
fn it_should_conjugate() {
    let a = Complex::new(1, 2);
    let b = a.conj();

    assert_eq!(b.re, 1);
    assert_eq!(b.im, -2);
}

#[test]
fn it_should_norm_sqr() {
    let a = Complex::new(1, 2);
    let n = a.norm_sqr();

    assert_eq!(n, 5);
}

#[test]
fn complex_it_should_add() {
    let a = Complex::new(1, 2);
    let b = Complex::new(3, 4);

    let c = a.add(b);

    assert_eq!(c.re, 4);
    assert_eq!(c.im, 6);
}

#[test]
fn complex_it_should_sub() {
    let a = Complex::new(1, 2);
    let b = Complex::new(3, 4);

    let c = a.sub(b);

    assert_eq!(c.re, -2);
    assert_eq!(c.im, -2);
}

#[test]
fn it_should_multiply() {
    let a = Complex::new(1, 2);
    let b = Complex::new(3, 4);

    let c = a.mul(b);

    assert_eq!(c.re, -5);
    assert_eq!(c.im, 10);
}

#[test]
fn it_should_multiply_conjugates() {
    let a = Complex::new(1, 1);
    let b = a.conj();

    let c = a.mul(b);

    assert_eq!(c.re, 2);
    assert_eq!(c.im, 0);
}

#[test]
fn conjugate_product_is_norm_sqr() {
    let a = Complex::new(3, -7);

    let c = a.mul(a.conj());

    assert_eq!(c.im, 0);
    assert_eq!(c.re, a.norm_sqr());
}

#[test]
fn conjugate_quotient_round_trip_scales_by_norm_sqr() {
    // Multiplying by conj(b) and then b scales a by norm_sqr(b): the
    // exact skeleton of (a / b) * b == a before the float division.
    let a = Complex::new(1, 2);
    let b = Complex::new(2, 1);

    let c = a.mul(b.conj()).mul(b);

    assert_eq!(c.re, a.re * b.norm_sqr());
    assert_eq!(c.im, a.im * b.norm_sqr());
}

#[test]
fn from_real_and_default() {
    let a = Complex::from(5i64);
    assert_eq!(a.re, 5);
    assert_eq!(a.im, 0);

    let z = Complex::default();
    assert_eq!(z.re, 0);
    assert_eq!(z.im, 0);
}
