//! The geometry builder: one flat triangle-list blade mesh.

use vstd::prelude::*;

use crate::geometry::Point3;

verus! {

/// The fixed triangulation every blade mesh carries: the triangles
/// `(0, 3, 1)` and `(1, 3, 2)`, which split the four-vertex blade along the
/// diagonal from vertex 1 to vertex 3.  The diagonal choice is load-bearing
/// for the fan shape, so builders reproduce this exact index list.
pub open spec fn blade_indices() -> Seq<u32> {
    seq![0u32, 3u32, 1u32, 1u32, 3u32, 2u32]
}

/// The triangulation is six indices (two whole triangles), each naming one
/// of the first four vertices.
pub proof fn lemma_blade_indices_bounded()
    ensures
        blade_indices().len() == 6,
        blade_indices().len() % 3 == 0,
        forall|k: int| 0 <= k < blade_indices().len() ==> (#[trigger] blade_indices()[k]) < 4,
{
    assert forall|k: int|
        0 <= k < blade_indices().len() implies (#[trigger] blade_indices()[k]) < 4 by {
        assert(blade_indices()[0] == 0);
        assert(blade_indices()[1] == 3);
        assert(blade_indices()[2] == 1);
        assert(blade_indices()[3] == 1);
        assert(blade_indices()[4] == 3);
        assert(blade_indices()[5] == 2);
    }
}

/// One renderable triangle-list mesh: a vertex buffer of positions with
/// index-aligned unit normals, and a triangulation indexing into it.
pub struct Mesh {
    pub positions: Vec<Point3>,
    pub normals: Vec<Point3>,
    pub indices: Vec<u32>,
}

impl Mesh {
    /// The vertex-buffer invariant: positions and normals are index-aligned,
    /// the index count is a multiple of three, and every index names an
    /// existing vertex.
    pub open spec fn well_formed(self) -> bool {
        &&& self.positions@.len() == self.normals@.len()
        &&& self.indices@.len() % 3 == 0
        &&& forall|k: int|
            0 <= k < self.indices@.len() ==> (#[trigger] self.indices@[k]) < self.positions@.len()
    }

    /// Decides the vertex-buffer invariant at run time, for callers outside
    /// the library that must test it before relying on it.
    #[verifier::loop_isolation(false)]
    pub fn is_well_formed(&self) -> (r: bool)
        ensures
            r == self.well_formed(),
    {
        if self.positions.len() != self.normals.len() {
            return false;
        }
        if self.indices.len() % 3 != 0 {
            return false;
        }
        let mut k: usize = 0;
        while k < self.indices.len()
            invariant
                k <= self.indices@.len(),
                forall|j: int|
                    0 <= j < k ==> (#[trigger] self.indices@[j]) < self.positions@.len(),
            decreases self.indices@.len() - k,
        {
            if self.indices[k] as usize >= self.positions.len() {
                return false;
            }
            k = k + 1;
        }
        true
    }
}

/// Copies a vertex buffer value for value, so that each blade built from a
/// shared template owns its data independently.
pub fn copy_points(points: &Vec<Point3>) -> (r: Vec<Point3>)
    ensures
        r@ == points@,
{
    let mut r: Vec<Point3> = Vec::new();
    let mut i: usize = 0;
    while i < points.len()
        invariant
            i <= points@.len(),
            r@ == points@.subrange(0, i as int),
        decreases points@.len() - i,
    {
        r.push(points[i]);
        proof {
            assert(points@.subrange(0, i + 1) =~= points@.subrange(0, i as int).push(
                points@[i as int],
            ));
        }
        i = i + 1;
    }
    proof {
        assert(points@.subrange(0, points@.len() as int) =~= points@);
    }
    r
}

/// Builds one blade mesh from parametric vertex data.  The caller supplies
/// index-aligned positions and normals; the builder attaches the fixed
/// triangulation, which references the first four vertices, so at least four
/// are required.  This system's callers always pass exactly four.
pub fn build_blade(positions: Vec<Point3>, normals: Vec<Point3>) -> (m: Mesh)
    requires
        positions@.len() == normals@.len(),
        positions@.len() >= 4,
    ensures
        m.positions@ == positions@,
        m.normals@ == normals@,
        m.indices@ == blade_indices(),
        m.well_formed(),
{
    let mut indices: Vec<u32> = Vec::new();
    indices.push(0);
    indices.push(3);
    indices.push(1);
    indices.push(1);
    indices.push(3);
    indices.push(2);
    proof {
        assert(indices@ =~= blade_indices());
        lemma_blade_indices_bounded();
    }
    Mesh { positions, normals, indices }
}

} // verus!
