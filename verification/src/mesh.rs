//! Triangle index lists of the engine's meshes.
use vstd::prelude::*;

verus! {

/// Number of vertices of a quad mesh.
pub const QUAD_VERTEX_COUNT: u16 = 4;

/// Number of vertices of a cuboid mesh (four per face).
pub const CUBOID_VERTEX_COUNT: u16 = 24;

/// The quad's two triangles over its vertices (lower left, lower right, upper left,
/// upper right).
pub open spec fn quad_index_seq() -> Seq<u16> {
    seq![0u16, 1, 3, 0, 3, 2]
}

/// The cuboid's twelve triangles: two per face over that face's four vertices, faces
/// in the order front, back, top, bottom, right, left.
pub open spec fn cuboid_index_seq() -> Seq<u16> {
    seq![
        0u16, 1, 2, 2, 1, 3,
        4, 5, 6, 6, 5, 7,
        8, 9, 10, 10, 9, 11,
        12, 13, 14, 14, 13, 15,
        16, 17, 18, 18, 17, 19,
        20, 21, 22, 22, 21, 23,
    ]
}

/// Mesh law: face `f` of the cuboid is drawn as the triangles `(4f, 4f+1, 4f+2)` and
/// `(4f+2, 4f+1, 4f+3)`, which share one winding and together cover the face's four
/// vertices.
pub proof fn law_cuboid_faces()
    ensures
        cuboid_index_seq().len() == 36,
        forall|f: int|
            0 <= f < 6 ==> {
                &&& #[trigger] cuboid_index_seq()[6 * f] == 4 * f
                &&& cuboid_index_seq()[6 * f + 1] == 4 * f + 1
                &&& cuboid_index_seq()[6 * f + 2] == 4 * f + 2
                &&& cuboid_index_seq()[6 * f + 3] == 4 * f + 2
                &&& cuboid_index_seq()[6 * f + 4] == 4 * f + 1
                &&& cuboid_index_seq()[6 * f + 5] == 4 * f + 3
            },
{
    let s = cuboid_index_seq();
    assert forall|f: int| 0 <= f < 6 implies {
        &&& #[trigger] s[6 * f] == 4 * f
        &&& s[6 * f + 1] == 4 * f + 1
        &&& s[6 * f + 2] == 4 * f + 2
        &&& s[6 * f + 3] == 4 * f + 2
        &&& s[6 * f + 4] == 4 * f + 1
        &&& s[6 * f + 5] == 4 * f + 3
    } by {
        if f == 0 {
        } else if f == 1 {
        } else if f == 2 {
        } else if f == 3 {
        } else if f == 4 {
        } else {
            assert(f == 5);
        }
    }
}

/// The quad's triangle indices; every index names one of its vertices.
pub fn quad_indices() -> (r: Vec<u16>)
    ensures
        r@ == quad_index_seq(),
        r@.len() % 3 == 0,
        forall|i: int| 0 <= i < r@.len() ==> #[trigger] r@[i] < QUAD_VERTEX_COUNT,
{
    let r = vec![0u16, 1, 3, 0, 3, 2];
    assert(r@ =~= quad_index_seq());
    r
}

/// The cuboid's triangle indices; every index names one of its vertices, and each
/// face's triangles use only that face's vertices.
pub fn cuboid_indices() -> (r: Vec<u16>)
    ensures
        r@ == cuboid_index_seq(),
        r@.len() == 36,
        forall|i: int| 0 <= i < r@.len() ==> #[trigger] r@[i] < CUBOID_VERTEX_COUNT,
        forall|i: int| 0 <= i < r@.len() ==> (#[trigger] r@[i]) / 4 == i / 6,
        forall|f: int|
            0 <= f < 6 ==> {
                &&& #[trigger] r@[6 * f] == 4 * f
                &&& r@[6 * f + 1] == 4 * f + 1
                &&& r@[6 * f + 2] == 4 * f + 2
                &&& r@[6 * f + 3] == 4 * f + 2
                &&& r@[6 * f + 4] == 4 * f + 1
                &&& r@[6 * f + 5] == 4 * f + 3
            },
{
    proof { law_cuboid_faces(); }
    let r = vec![
        0u16, 1, 2, 2, 1, 3,
        4, 5, 6, 6, 5, 7,
        8, 9, 10, 10, 9, 11,
        12, 13, 14, 14, 13, 15,
        16, 17, 18, 18, 17, 19,
        20, 21, 22, 22, 21, 23,
    ];
    assert(r@ =~= cuboid_index_seq());
    r
}

} // verus!
