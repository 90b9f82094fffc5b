//! The 4-dimensional lattice of gauge links and its sweep protocol.
//!
//! A lattice of extent `size` holds `size^4` sites, flattened row-major
//! over (x, y, z, t); each site carries one link matrix per spacetime
//! direction 0..4.  A sweep walks the sites in linear index order and
//! lets a caller-supplied updater replace the first-direction link, so
//! updates are Gauss-Seidel style: a later site sees the already-updated
//! value of an earlier one, not its pre-sweep value.

use vstd::prelude::*;

use crate::matrix::{mident, CMat, Matrix};

verus! {

/// Mathematical model of one site: its four direction links.
pub ghost struct SiteM {
    pub d0: CMat,
    pub d1: CMat,
    pub d2: CMat,
    pub d3: CMat,
}

/// A site whose four links are all the group identity: the cold start.
pub open spec fn site_cold() -> SiteM {
    SiteM { d0: mident(), d1: mident(), d2: mident(), d3: mident() }
}

pub open spec fn site_model(s: [Matrix; 4]) -> SiteM {
    SiteM { d0: s[0]@, d1: s[1]@, d2: s[2]@, d3: s[3]@ }
}

pub open spec fn site_dir(s: SiteM, d: int) -> CMat {
    if d == 0 {
        s.d0
    } else if d == 1 {
        s.d1
    } else if d == 2 {
        s.d2
    } else {
        s.d3
    }
}

/// The per-link update capability handed to a sweep: given the current
/// link and its six staples, produce the replacement link.  The updater
/// carries the accept-reject physics, which is outside this crate.
pub trait LinkUpdate {
    fn update(&mut self, link: &Matrix, staples: &[Matrix; 6]) -> Matrix;
}

/// The link configuration: `size^4` sites of four matrices each.
pub struct Lattice {
    size: usize,
    links: Vec<[Matrix; 4]>,
}

impl View for Lattice {
    type V = Seq<SiteM>;

    closed spec fn view(&self) -> Seq<SiteM> {
        Seq::new(self.links@.len(), |i: int| site_model(self.links@[i]))
    }
}

impl Lattice {
    /// The lattice extent in each of the four dimensions.
    pub closed spec fn spec_size(&self) -> int {
        self.size as int
    }

    /// Structural invariant: the flattened storage holds exactly
    /// `size^4` sites.
    pub closed spec fn wf(&self) -> bool {
        self.links@.len() == self.spec_size() * self.spec_size() * self.spec_size()
            * self.spec_size()
    }

    /// Cold start: every link of every site is the identity matrix, the
    /// ordered vacuum configuration.
    pub fn cold_with_size(size: usize) -> (l: Self)
        requires
            size * size * size * size <= usize::MAX,
        ensures
            l.wf(),
            l.spec_size() == size,
            l@.len() == size * size * size * size,
            forall|i: int| 0 <= i < l@.len() ==> l@[i] == site_cold(),
    {
        proof {
            if size >= 1 {
                assert(size * size <= size * size * size * size && size * size * size <= size
                    * size * size * size) by (nonlinear_arith)
                    requires
                        size >= 1,
                ;
            }
            assert(size == 0 ==> size * size == 0 && size * size * size == 0 && size * size * size
                * size == 0) by (nonlinear_arith);
        }
        let len = size * size * size * size;
        let mut links: Vec<[Matrix; 4]> = Vec::new();
        let id = Matrix::identity();
        let mut i: usize = 0;
        while i < len
            invariant
                i <= len,
                len == size * size * size * size,
                id@ == mident(),
                links@.len() == i,
                forall|j: int| 0 <= j < i as int ==> site_model(links@[j]) == site_cold(),
            decreases len - i,
        {
            let site = [id, id, id, id];
            proof {
                assert(site_model(site) == site_cold());
            }
            links.push(site);
            i = i + 1;
        }
        Self { size, links }
    }

    /// The number of sites, `size^4`.
    pub fn site_count(&self) -> (n: usize)
        ensures
            n == self@.len(),
    {
        self.links.len()
    }

    /// The lattice extent.
    pub fn size(&self) -> (s: usize)
        ensures
            s == self.spec_size(),
    {
        self.size
    }

    /// Read the link leaving `site` in direction `dir`.
    pub fn link(&self, site: usize, dir: usize) -> (m: Matrix)
        requires
            site < self@.len(),
            dir < 4,
        ensures
            m@ == site_dir(self@[site as int], dir as int),
    {
        self.links[site][dir]
    }

    /// Row-major flattening of a coordinate 4-tuple, consistent with the
    /// storage layout: (((x * size) + y) * size + z) * size + t.
    pub fn site_index(&self, x: usize, y: usize, z: usize, t: usize) -> (i: usize)
        requires
            self.wf(),
            x < self.spec_size(),
            y < self.spec_size(),
            z < self.spec_size(),
            t < self.spec_size(),
        ensures
            i == ((x * self.spec_size() + y) * self.spec_size() + z) * self.spec_size() + t,
            i < self@.len(),
    {
        let n = self.links.len();
        proof {
            let s = self.spec_size();
            assert((x * s + y) * s + z < s * s * s && ((x * s + y) * s + z) * s + t < s * s * s
                * s && x * s + y < s * s && s * s <= s * s * s * s && s * s * s <= s * s * s
                * s) by (nonlinear_arith)
                requires
                    0 <= x < s,
                    0 <= y < s,
                    0 <= z < s,
                    0 <= t < s,
            ;
        }
        ((x * self.size + y) * self.size + z) * self.size + t
    }

    /// The six staple matrices of the link at `site`.  The physical
    /// staple products of the Wilson action are an extension point; this
    /// neutral neighborhood returns six identity matrices.
    pub fn compute_staples(&self, site: usize) -> (r: [Matrix; 6])
        requires
            site < self@.len(),
        ensures
            forall|k: int| 0 <= k < 6 ==> #[trigger] r[k]@ == mident(),
    {
        let id = Matrix::identity();
        [id, id, id, id, id, id]
    }

    /// One full pass over the lattice in linear site order: for each
    /// site, hand the updater that site's first-direction link together
    /// with its staples and store the replacement before moving on.
    /// Later sites therefore see earlier updates within the same sweep.
    pub fn sweep<U: LinkUpdate>(&mut self, upd: &mut U)
        requires
            old(self).wf(),
        ensures
            final(self).wf(),
            final(self).spec_size() == old(self).spec_size(),
            final(self)@.len() == old(self)@.len(),
            forall|j: int|
                0 <= j < old(self)@.len() ==> (final(self)@[j].d1 == old(self)@[j].d1
                    && final(self)@[j].d2 == old(self)@[j].d2
                    && final(self)@[j].d3 == old(self)@[j].d3),
    {
        let n = self.links.len();
        let mut i: usize = 0;
        while i < n
            invariant
                i <= n,
                n == self.links@.len(),
                self.size == old(self).size,
                self.links@.len() == old(self).links@.len(),
                forall|j: int|
                    0 <= j < n as int ==> (self.links@[j][1]@ == old(self).links@[j][1]@
                        && self.links@[j][2]@ == old(self).links@[j][2]@ && self.links@[j][3]@
                        == old(self).links@[j][3]@),
            decreases n - i,
        {
            let staples = self.compute_staples(i);
            let site = self.links[i];
            let updated = upd.update(&site[0], &staples);
            self.links[i] = [updated, site[1], site[2], site[3]];
            i = i + 1;
        }
    }
}

} // verus!
