//! The triangles of a collision mesh built from a plain list of positions:
//! every three consecutive positions form one triangle.
use vstd::prelude::*;

verus! {

/// Why a position list does not make a triangle mesh.
#[derive(Clone, Copy, PartialEq, Eq, Structural, Debug)]
pub enum TriMeshFromPositionsError {
    EmptyVertexSet,
    VertexCountNotMultipleOf3,
}

impl TriMeshFromPositionsError {
    /// The variant's name, as its `Debug` form prints it.
    pub fn debug_name(&self) -> (s: &'static str)
        ensures
            s@ == trimesh_error_name(*self),
    {
        match self {
            TriMeshFromPositionsError::EmptyVertexSet => "EmptyVertexSet",
            TriMeshFromPositionsError::VertexCountNotMultipleOf3 => "VertexCountNotMultipleOf3",
        }
    }
}

/// The name of a `TriMeshFromPositionsError` variant.
pub open spec fn trimesh_error_name(e: TriMeshFromPositionsError) -> Seq<char> {
    match e {
        TriMeshFromPositionsError::EmptyVertexSet => "EmptyVertexSet"@,
        TriMeshFromPositionsError::VertexCountNotMultipleOf3 => "VertexCountNotMultipleOf3"@,
    }
}

/// The triangle of index `t`: the positions `3t`, `3t + 1` and `3t + 2`.
pub open spec fn triangle(t: int) -> [u32; 3] {
    [(3 * t) as u32, (3 * t + 1) as u32, (3 * t + 2) as u32]
}

/// The triangles use every position once, in order: position `p` is corner
/// `p % 3` of triangle `p / 3`, and the corners of a triangle are three
/// consecutive positions.
pub proof fn law_triangles_cover_positions(p: int, t: int, k: int)
    ensures
        0 <= p < 3 * 0x5555_5555 ==> triangle(p / 3)[p % 3] == p,
        0 <= t < 0x5555_5555 && 0 <= k < 3 ==> triangle(t)[k] == 3 * t + k,
{
    if 0 <= p < 3 * 0x5555_5555 {
        assert(p == 3 * (p / 3) + p % 3);
    }
}

/// The index triples of the triangle mesh over `vertex_count` positions:
/// refused when there are none or when their number is not a multiple of 3.
pub fn trimesh_indices(vertex_count: usize) -> (r: Result<Vec<[u32; 3]>, TriMeshFromPositionsError>)
    requires
        vertex_count % 3 == 0 ==> vertex_count <= u32::MAX,
    ensures
        r == Err::<Vec<[u32; 3]>, TriMeshFromPositionsError>(
            TriMeshFromPositionsError::EmptyVertexSet,
        ) <==> vertex_count == 0,
        r == Err::<Vec<[u32; 3]>, TriMeshFromPositionsError>(
            TriMeshFromPositionsError::VertexCountNotMultipleOf3,
        ) <==> vertex_count != 0 && vertex_count % 3 != 0,
        r matches Ok(v) ==> v@.len() == vertex_count / 3 && forall|t: int|
            0 <= t < v@.len() ==> #[trigger] v@[t] == triangle(t),
{
    if vertex_count == 0 {
        return Err(TriMeshFromPositionsError::EmptyVertexSet);
    }
    if vertex_count % 3 != 0 {
        return Err(TriMeshFromPositionsError::VertexCountNotMultipleOf3);
    }
    let tri_count = vertex_count / 3;
    let mut indices: Vec<[u32; 3]> = Vec::new();
    let mut tri: usize = 0;
    while tri < tri_count
        invariant
            tri_count == vertex_count / 3,
            vertex_count <= u32::MAX,
            tri <= tri_count,
            indices@.len() == tri,
            forall|t: int| 0 <= t < tri ==> #[trigger] indices@[t] == triangle(t),
        decreases tri_count - tri,
    {
        let base = (tri * 3) as u32;
        indices.push([base, base + 1, base + 2]);
        tri = tri + 1;
    }
    Ok(indices)
}

} // verus!
