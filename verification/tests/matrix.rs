use su3lattice::{Complex, Matrix};

fn real_entries(m: &Matrix) -> Vec<i64> {
    let mut out = Vec::new();
    for r in 0..3 {
        for c in 0..3 {
            let e = m.index(r, c);
            assert_eq!(e.im, 0);
            out.push(e.re);
        }
    }
    out
}

#[test]
fn it_should_mul() {
    let a = Matrix::from([1i64, 2, 3, 4, 5, 6, 7, 8, 9]);
    let b = Matrix::from([10i64, 11, 12, 13, 14, 15, 16, 17, 18]);

    let c = a.mul(b);

    assert_eq!(real_entries(&c), vec![84, 90, 96, 201, 216, 231, 318, 342, 366]);
}

#[test]
fn it_should_conj() {
    let mut a = Matrix::from([1i64, 2, 3, 4, 5, 6, 7, 8, 9]);

    assert_eq!(real_entries(&a.conj()), vec![1, 4, 7, 2, 5, 8, 3, 6, 9]);

    a.set_entry(0, 1, Complex::new(1, 1));

    assert_eq!(a.conj().index(1, 0).re, 1);
    assert_eq!(a.conj().index(1, 0).im, -1);
}

#[test]
fn it_should_det() {
    let a = Matrix::from([1i64, 2, 3, 1, 3, 2, 3, 1, 2]);

    assert_eq!(a.index(1, 2).norm_sqr(), 4);

    assert_eq!(a.det().re, -12);
    assert_eq!(a.det().im, 0);
}

#[test]
fn matrix_it_should_add() {
    let a = Matrix::from([1i64, 2, 3, 4, 5, 6, 7, 8, 9]);
    let b = Matrix::from([10i64, 20, 30, 40, 50, 60, 70, 80, 90]);

    let c = a.add(b);

    assert_eq!(real_entries(&c), vec![11, 22, 33, 44, 55, 66, 77, 88, 99]);
}

#[test]
fn matrix_it_should_sub() {
    let a = Matrix::from([10i64, 20, 30, 40, 50, 60, 70, 80, 90]);
    let b = Matrix::from([1i64, 2, 3, 4, 5, 6, 7, 8, 9]);

    let c = a.sub(b);

    assert_eq!(real_entries(&c), vec![9, 18, 27, 36, 45, 54, 63, 72, 81]);
}

#[test]
fn identity_is_neutral() {
    let m = Matrix::from([
        Complex::new(1, 2),
        Complex::new(0, -3),
        Complex::new(4, 0),
        Complex::new(-1, 1),
        Complex::new(2, 2),
        Complex::new(3, -5),
        Complex::new(0, 0),
        Complex::new(7, -1),
        Complex::new(-2, 6),
    ]);
    let i = Matrix::identity();

    for r in 0..3 {
        for c in 0..3 {
            assert_eq!(i.mul(m).index(r, c).re, m.index(r, c).re);
            assert_eq!(i.mul(m).index(r, c).im, m.index(r, c).im);
            assert_eq!(m.mul(i).index(r, c).re, m.index(r, c).re);
            assert_eq!(m.mul(i).index(r, c).im, m.index(r, c).im);
        }
    }
}

#[test]
fn multiplication_is_associative() {
    let a = Matrix::from([
        Complex::new(1, 2),
        Complex::new(0, -3),
        Complex::new(4, 0),
        Complex::new(-1, 1),
        Complex::new(2, 2),
        Complex::new(3, -5),
        Complex::new(0, 0),
        Complex::new(7, -1),
        Complex::new(-2, 6),
    ]);
    let b = Matrix::from([
        Complex::new(2, 0),
        Complex::new(1, 1),
        Complex::new(-3, 2),
        Complex::new(0, 4),
        Complex::new(5, -2),
        Complex::new(1, 0),
        Complex::new(-1, -1),
        Complex::new(2, 3),
        Complex::new(0, 1),
    ]);
    let c = Matrix::from([
        Complex::new(0, 1),
        Complex::new(3, -3),
        Complex::new(2, 2),
        Complex::new(1, 0),
        Complex::new(-4, 1),
        Complex::new(0, -2),
        Complex::new(5, 5),
        Complex::new(1, -1),
        Complex::new(-2, 0),
    ]);

    let left = a.mul(b).mul(c);
    let right = a.mul(b.mul(c));

    for r in 0..3 {
        for col in 0..3 {
            assert_eq!(left.index(r, col).re, right.index(r, col).re);
            assert_eq!(left.index(r, col).im, right.index(r, col).im);
        }
    }
}

#[test]
fn adjoint_twice_is_identity_map() {
    let m = Matrix::from([
        Complex::new(1, 2),
        Complex::new(0, -3),
        Complex::new(4, 0),
        Complex::new(-1, 1),
        Complex::new(2, 2),
        Complex::new(3, -5),
        Complex::new(0, 0),
        Complex::new(7, -1),
        Complex::new(-2, 6),
    ]);

    let back = m.conj().conj();

    for r in 0..3 {
        for c in 0..3 {
            assert_eq!(back.index(r, c).re, m.index(r, c).re);
            assert_eq!(back.index(r, c).im, m.index(r, c).im);
        }
    }
}

#[test]
fn default_is_zero() {
    let z = Matrix::default();

    assert_eq!(real_entries(&z), vec![0, 0, 0, 0, 0, 0, 0, 0, 0]);
}
