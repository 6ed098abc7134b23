//! Mesh assets: vertices, triangle indices and an optional texture.

use crate::color::Rgba8;
use crate::raster::PixelBuffer;
use crate::raster::PixelGrid;
use crate::vector::Vec3;
use vstd::prelude::*;

verus! {

/// A texture coordinate, each component in millionths.
#[derive(Clone, Copy, Debug, PartialEq, Eq, Structural)]
pub struct Uv {
    pub u: i64,
    pub v: i64,
}

/// One vertex of a mesh, in the mesh's own space.
#[derive(Clone, Copy, Debug, PartialEq, Eq, Structural)]
pub struct Vertex {
    pub position: Vec3,
    pub uv: Uv,
    pub tint: Rgba8,
}

/// Why vertices and indices do not make a mesh.
#[derive(Clone, Copy, Debug, PartialEq, Eq, Structural)]
pub enum MeshError {
    /// The number of indices is not a multiple of three.
    PartialTriangle,
    /// An index names a vertex that the mesh does not have.
    IndexOutOfRange,
}

/// The indices come in triples.
pub open spec fn whole_triangles(indices: Seq<u32>) -> bool {
    indices.len() % 3 == 0
}

/// Every index names one of `vertex_count` vertices.
pub open spec fn indices_in_range(vertex_count: nat, indices: Seq<u32>) -> bool {
    forall|i: int| 0 <= i < indices.len() ==> (indices[i] as nat) < vertex_count
}

/// What a mesh holds.
pub struct MeshView {
    pub vertices: Seq<Vertex>,
    pub indices: Seq<u32>,
    pub texture: Option<PixelGrid>,
}

impl MeshView {
    /// The indices describe whole triangles over the mesh's own vertices.
    pub open spec fn wf(self) -> bool {
        &&& whole_triangles(self.indices)
        &&& indices_in_range(self.vertices.len(), self.indices)
    }
}

/// What an optional texture holds.
pub open spec fn texture_view(texture: Option<PixelBuffer>) -> Option<PixelGrid> {
    match texture {
        Some(t) => Some(t@),
        None => None,
    }
}

/// A mesh asset. It does not change once it is made.
#[derive(Debug, PartialEq, Eq)]
pub struct Mesh {
    vertices: Vec<Vertex>,
    indices: Vec<u32>,
    texture: Option<PixelBuffer>,
}

impl View for Mesh {
    type V = MeshView;

    closed spec fn view(&self) -> MeshView {
        MeshView {
            vertices: self.vertices@,
            indices: self.indices@,
            texture: texture_view(self.texture),
        }
    }
}

/// Whether every index is below `vertex_count`.
fn all_in_range(vertex_count: usize, indices: &Vec<u32>) -> (r: bool)
    ensures
        r == indices_in_range(vertex_count as nat, indices@),
{
    let mut i: usize = 0;
    while i < indices.len()
        invariant
            i <= indices.len(),
            forall|j: int| 0 <= j < i ==> (indices[j] as nat) < vertex_count as nat,
        decreases indices.len() - i,
    {
        if indices[i] as u64 >= vertex_count as u64 {
            return false;
        }
        i = i + 1;
    }
    true
}

impl Mesh {
    #[verifier::type_invariant]
    spec fn inv(self) -> bool {
        &&& whole_triangles(self.indices@)
        &&& indices_in_range(self.vertices@.len(), self.indices@)
    }

    /// A mesh of the given vertices and triangles. The triangle count is
    /// looked at first, then the indices.
    pub fn new(vertices: Vec<Vertex>, indices: Vec<u32>, texture: Option<PixelBuffer>) -> (r:
        Result<Mesh, MeshError>)
        ensures
            r is Ok <==> whole_triangles(indices@) && indices_in_range(vertices@.len(), indices@),
            r matches Ok(m) ==> m@.wf() && m@ == (MeshView {
                vertices: vertices@,
                indices: indices@,
                texture: texture_view(texture),
            }),
            r matches Err(e) ==> (e == MeshError::PartialTriangle <==> !whole_triangles(indices@)),
    {
        if indices.len() % 3 != 0 {
            return Err(MeshError::PartialTriangle);
        }
        if !all_in_range(vertices.len(), &indices) {
            return Err(MeshError::IndexOutOfRange);
        }
        Ok(Mesh { vertices, indices, texture })
    }

    pub fn vertices(&self) -> (r: &Vec<Vertex>)
        ensures
            r@ == self@.vertices,
    {
        &self.vertices
    }

    pub fn indices(&self) -> (r: &Vec<u32>)
        ensures
            r@ == self@.indices,
            self@.wf(),
    {
        proof {
            use_type_invariant(self);
        }
        &self.indices
    }

    pub fn texture(&self) -> (r: &Option<PixelBuffer>)
        ensures
            texture_view(*r) == self@.texture,
    {
        &self.texture
    }
}

} // verus!
