use su3lattice::lattice::LinkUpdate;
use su3lattice::{Lattice, Matrix};

#[test]
fn it_should_init() {
    let _lattice = Lattice::cold_with_size(8);
}

#[test]
fn cold_start_has_identity_links() {
    let lattice = Lattice::cold_with_size(2);

    assert_eq!(lattice.size(), 2);
    assert_eq!(lattice.site_count(), 16);

    let id = Matrix::identity();
    for site in 0..16 {
        for dir in 0..4 {
            let m = lattice.link(site, dir);
            for r in 0..3 {
                for c in 0..3 {
                    assert_eq!(m.index(r, c).re, id.index(r, c).re);
                    assert_eq!(m.index(r, c).im, id.index(r, c).im);
                }
            }
        }
    }
}

#[test]
fn site_index_is_row_major() {
    let lattice = Lattice::cold_with_size(3);

    assert_eq!(lattice.site_index(0, 0, 0, 0), 0);
    assert_eq!(lattice.site_index(0, 0, 0, 2), 2);
    assert_eq!(lattice.site_index(1, 2, 0, 2), ((1 * 3 + 2) * 3 + 0) * 3 + 2);
    assert_eq!(lattice.site_index(2, 2, 2, 2), 80);
}

#[test]
fn staples_are_identity_stub() {
    let lattice = Lattice::cold_with_size(2);

    let staples = lattice.compute_staples(3);
    let id = Matrix::identity();
    for staple in staples.iter() {
        for r in 0..3 {
            for c in 0..3 {
                assert_eq!(staple.index(r, c).re, id.index(r, c).re);
                assert_eq!(staple.index(r, c).im, id.index(r, c).im);
            }
        }
    }
}

struct Numbering {
    next: i64,
}

impl LinkUpdate for Numbering {
    fn update(&mut self, _link: &Matrix, _staples: &[Matrix; 6]) -> Matrix {
        let v = self.next;
        self.next += 1;
        Matrix::from([v, 0, 0, 0, v, 0, 0, 0, v])
    }
}

#[test]
fn sweep_visits_sites_in_linear_order() {
    let mut lattice = Lattice::cold_with_size(2);
    let mut upd = Numbering { next: 0 };

    lattice.sweep(&mut upd);

    assert_eq!(lattice.site_count(), 16);
    for site in 0..16 {
        // The first-direction link took the updater's value for this
        // visit; the sweep walked the sites in index order.
        assert_eq!(lattice.link(site, 0).index(0, 0).re, site as i64);
        // The other directions are untouched.
        for dir in 1..4 {
            assert_eq!(lattice.link(site, dir).index(0, 0).re, 1);
            assert_eq!(lattice.link(site, dir).index(0, 1).re, 0);
        }
    }
}

struct CopyNeighbor {
    seen: Vec<i64>,
}

impl LinkUpdate for CopyNeighbor {
    fn update(&mut self, link: &Matrix, _staples: &[Matrix; 6]) -> Matrix {
        self.seen.push(link.index(0, 0).re);
        Matrix::from([link.index(0, 0).re + 1, 0, 0, 0, 1, 0, 0, 0, 1])
    }
}

#[test]
fn sweep_is_gauss_seidel_within_one_pass() {
    let mut lattice = Lattice::cold_with_size(2);
    let mut first = Numbering { next: 5 };
    lattice.sweep(&mut first);

    // A second sweep reads each site after every earlier site of the same
    // pass has already been replaced.
    let mut second = CopyNeighbor { seen: Vec::new() };
    lattice.sweep(&mut second);

    let expected: Vec<i64> = (5..21).collect();
    assert_eq!(second.seen, expected);
    for site in 0..16 {
        assert_eq!(lattice.link(site, 0).index(0, 0).re, site as i64 + 6);
    }
}
