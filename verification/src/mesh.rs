//! The mesh that a load returns.

use vstd::prelude::*;

use crate::vertex_data::Vertices;

verus! {

/// A model-space mesh in flat, non-indexed form: vertex `i` has its position
/// in `points[3i..3i+3]` and its normal in `normals[3i..3i+3]`. Scalars are
/// the bit patterns of single-precision numbers.
#[derive(Clone, Debug, PartialEq)]
pub struct ObjMesh {
    pub point_count: usize,
    pub points: Vec<u32>,
    pub tex_coords: Vec<u32>,
    pub normals: Vec<u32>,
}

impl View for ObjMesh {
    type V = Vertices;

    open spec fn view(&self) -> Vertices {
        Vertices { points: self.points@, tex_coords: self.tex_coords@, normals: self.normals@ }
    }
}

impl ObjMesh {
    /// The arrays describe the vertices of whole triangles: three scalars of
    /// position and three of normal for each of the `point_count` vertices,
    /// and two scalars of texture coordinate for each vertex of a triangle
    /// that has texture coordinates.
    pub open spec fn wf(&self) -> bool {
        &&& self.point_count % 3 == 0
        &&& self.points@.len() == 3 * self.point_count
        &&& self.normals@.len() == 3 * self.point_count
        &&& self.tex_coords@.len() % 6 == 0
        &&& self.tex_coords@.len() <= 2 * self.point_count
    }

    /// A mesh that counts its vertices by its positions is well formed when
    /// its arrays are.
    pub proof fn lemma_wf(&self)
        requires
            self.point_count == self@.point_count(),
            self@.wf(),
        ensures
            self.wf(),
    {
    }

    /// Wraps three attribute arrays into a mesh. The vertex count is derived
    /// from the positions.
    pub fn new(points: Vec<u32>, tex_coords: Vec<u32>, normals: Vec<u32>) -> (mesh: ObjMesh)
        ensures
            mesh.point_count == points@.len() / 3,
            mesh.points == points,
            mesh.tex_coords == tex_coords,
            mesh.normals == normals,
    {
        ObjMesh { point_count: points.len() / 3, points, tex_coords, normals }
    }

    /// The positions, three scalars for each vertex.
    pub fn points(&self) -> (points: &[u32])
        ensures
            points@ == self.points@,
    {
        self.points.as_slice()
    }

    /// The texture coordinates, two scalars each.
    pub fn tex_coords(&self) -> (tex_coords: &[u32])
        ensures
            tex_coords@ == self.tex_coords@,
    {
        self.tex_coords.as_slice()
    }

    /// The normals, three scalars for each vertex.
    pub fn normals(&self) -> (normals: &[u32])
        ensures
            normals@ == self.normals@,
    {
        self.normals.as_slice()
    }
}

} // verus!
