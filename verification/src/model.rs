//! Models: meshes loaded from one asset, and their place in the world.

use crate::bounds::bounding_volume;
use crate::bounds::is_bounding_volume;
use crate::bounds::mesh_views;
use crate::bounds::Aabb;
use crate::mesh::Mesh;
use crate::mesh::MeshView;
use crate::mesh::Vertex;
use crate::mesh::texture_view;
use crate::raster::PixelBuffer;
use crate::transform::Transform;
use crate::vector::Vec3;
use vstd::prelude::*;

verus! {

/// One draw-primitive group of a decoded scene, as the decoder hands it
/// over: nothing about it has been checked.
#[derive(Debug, PartialEq, Eq)]
pub struct PrimitiveGroup {
    pub vertices: Vec<Vertex>,
    pub indices: Vec<u32>,
    /// The base-colour texture of the group's material, where it has one.
    pub texture: Option<PixelBuffer>,
}

impl View for PrimitiveGroup {
    type V = MeshView;

    open spec fn view(&self) -> MeshView {
        MeshView {
            vertices: self.vertices@,
            indices: self.indices@,
            texture: texture_view(self.texture),
        }
    }
}

/// What a list of groups holds.
pub open spec fn group_views(groups: Seq<PrimitiveGroup>) -> Seq<MeshView> {
    Seq::new(groups.len(), |i: int| groups[i]@)
}

/// The groups that carry a texture, in the order they came in.
pub open spec fn textured(groups: Seq<MeshView>) -> Seq<MeshView> {
    groups.filter(|g: MeshView| g.texture is Some)
}

/// A scene can be loaded where at least one of its groups carries a
/// texture and each group that does is a sound mesh. Groups without a
/// texture are not looked at.
pub open spec fn loadable(groups: Seq<MeshView>) -> bool {
    &&& exists|i: int| 0 <= i < groups.len() && (#[trigger] groups[i]).texture is Some
    &&& forall|i: int|
        0 <= i < groups.len() && (#[trigger] groups[i]).texture is Some ==> groups[i].wf()
}

/// The asset at `path` could not be made into a model.
#[derive(Debug, PartialEq, Eq)]
pub struct AssetLoadError {
    pub path: String,
}

/// What a model holds: its meshes and the volume that bounds them.
pub struct ModelView {
    pub meshes: Seq<MeshView>,
    pub bounds: Option<Aabb>,
}

/// The meshes of one asset, with their bounding volume. The volume is taken
/// once, when the model is made: meshes do not change after that.
#[derive(Debug, PartialEq, Eq)]
pub struct Model {
    meshes: Vec<Mesh>,
    aabb: Option<Aabb>,
}

impl View for Model {
    type V = ModelView;

    closed spec fn view(&self) -> ModelView {
        ModelView { meshes: mesh_views(self.meshes@), bounds: self.aabb }
    }
}

impl Model {
    #[verifier::type_invariant]
    spec fn inv(self) -> bool {
        is_bounding_volume(self.aabb, mesh_views(self.meshes@))
    }

    /// A model of the given meshes.
    pub fn from_meshes(meshes: Vec<Mesh>) -> (r: Model)
        ensures
            r@.meshes == mesh_views(meshes@),
            is_bounding_volume(r@.bounds, r@.meshes),
    {
        let aabb = bounding_volume(&meshes);
        Model { meshes, aabb }
    }

    /// The model of a decoded scene: one mesh for each group that carries a
    /// texture, its vertices, indices and texture as they came, and no mesh
    /// for a group without one. Fails, naming the asset's path, where no
    /// group carries a texture or a textured group is not a sound mesh.
    pub fn from_groups(path: String, groups: Vec<PrimitiveGroup>) -> (r: Result<
        Model,
        AssetLoadError,
    >)
        ensures
            r is Ok <==> loadable(group_views(groups@)),
            r matches Ok(m) ==> m@.meshes == textured(group_views(groups@)) && is_bounding_volume(
                m@.bounds,
                m@.meshes,
            ),
            r matches Err(e) ==> e.path@ == path@,
    {
        let ghost all = group_views(groups@);
        let mut meshes: Vec<Mesh> = Vec::new();
        proof {
            reveal(Seq::filter);
            assert(all.take(0) =~= Seq::<MeshView>::empty());
            assert(mesh_views(meshes@) =~= textured(all.take(0)));
        }
        for group in it: groups
            invariant
                all == group_views(groups@),
                it.seq() == groups@,
                mesh_views(meshes@) == textured(all.take(it.index() as int)),
                forall|i: int|
                    0 <= i < it.index() && (#[trigger] all[i]).texture is Some ==> all[i].wf(),
        {
            let ghost k = it.index() as int;
            assert(group@ == all[k]);
            proof {
                reveal(Seq::filter);
                assert(all.take(k + 1).drop_last() =~= all.take(k));
                assert(all.take(k + 1).last() == all[k]);
            }
            if group.texture.is_some() {
                match Mesh::new(group.vertices, group.indices, group.texture) {
                    Ok(mesh) => {
                        let ghost before = meshes@;
                        meshes.push(mesh);
                        assert(mesh_views(meshes@) =~= mesh_views(before).push(all[k]));
                    },
                    Err(_) => {
                        assert(!all[k].wf());
                        return Err(AssetLoadError { path });
                    },
                }
            }
        }
        assert(all.take(groups@.len() as int) =~= all);
        if meshes.len() == 0 {
            proof {
                assert forall|i: int| 0 <= i < all.len() implies !((#[trigger] all[i]).texture
                    is Some) by {
                    if all[i].texture is Some {
                        all.lemma_filter_contains(|g: MeshView| g.texture is Some, i);
                        assert(textured(all).contains(all[i]));
                    }
                }
            }
            return Err(AssetLoadError { path });
        }
        proof {
            let first = textured(all)[0];
            assert(textured(all).contains(first));
            lemma_filter_keeps_members(all, first);
        }
        Ok(Model::from_meshes(meshes))
    }

    pub fn meshes(&self) -> (r: &Vec<Mesh>)
        ensures
            mesh_views(r@) == self@.meshes,
    {
        &self.meshes
    }

    /// The bounding volume of the model's vertices.
    pub fn aabb(&self) -> (r: Option<Aabb>)
        ensures
            r == self@.bounds,
            is_bounding_volume(r, self@.meshes),
    {
        proof {
            use_type_invariant(self);
        }
        self.aabb
    }
}

/// The point a model turns about: the centre of its bounding volume, or the
/// origin of its own space where it has no vertex.
pub open spec fn pivot_of(bounds: Option<Aabb>) -> Vec3 {
    match bounds {
        Some(b) => b.center(),
        None => Vec3::zero(),
    }
}

/// What a placed model holds.
pub struct ModelPosView {
    pub transform: Transform,
    pub model: ModelView,
    pub pivot: Vec3,
}

/// A model placed in the world. The pivot is taken from the model's
/// bounding volume when the model is placed and kept: the volume is that of
/// the model's own space, and moving the model does not change it.
#[derive(Debug, PartialEq, Eq)]
pub struct ModelPos {
    transform: Transform,
    model: Model,
    pivot: Vec3,
}

impl View for ModelPos {
    type V = ModelPosView;

    closed spec fn view(&self) -> ModelPosView {
        ModelPosView { transform: self.transform, model: self.model@, pivot: self.pivot }
    }
}

impl ModelPos {
    #[verifier::type_invariant]
    spec fn inv(self) -> bool {
        self.pivot == pivot_of(self.model@.bounds)
    }

    pub fn new(model: Model, transform: Transform) -> (r: ModelPos)
        ensures
            r@ == (ModelPosView {
                transform,
                model: model@,
                pivot: pivot_of(model@.bounds),
            }),
    {
        let pivot = match model.aabb() {
            Some(b) => b.center(),
            None => Vec3::zero(),
        };
        ModelPos { transform, model, pivot }
    }

    pub fn transform(&self) -> (r: Transform)
        ensures
            r == self@.transform,
    {
        self.transform
    }

    pub fn model(&self) -> (r: &Model)
        ensures
            r@ == self@.model,
    {
        &self.model
    }

    pub fn pivot(&self) -> (r: Vec3)
        ensures
            r == self@.pivot,
            r == pivot_of(self@.model.bounds),
    {
        proof {
            use_type_invariant(self);
        }
        self.pivot
    }

    /// The transform the model is drawn with: its own, turning and scaling
    /// about the centre of the model's bounding volume.
    pub fn draw(&self) -> (r: Transform)
        ensures
            r == self@.transform.with_pivot(pivot_of(self@.model.bounds)),
    {
        proof {
            use_type_invariant(self);
        }
        self.transform.with_pivot(self.pivot)
    }

    /// Moves the model by `delta` in world space.
    pub fn translate(&mut self, delta: Vec3)
        ensures
            final(self)@ == (ModelPosView {
                transform: old(self)@.transform.translate(delta),
                model: old(self)@.model,
                pivot: old(self)@.pivot,
            }),
    {
        proof {
            use_type_invariant(&*self);
        }
        self.transform = self.transform.translate(delta);
    }
}

/// What passes the filter for textured groups came from the list.
proof fn lemma_filter_keeps_members(groups: Seq<MeshView>, g: MeshView)
    requires
        textured(groups).contains(g),
    ensures
        groups.contains(g),
        g.texture is Some,
    decreases groups.len(),
{
    reveal(Seq::filter);
    if groups.len() > 0 {
        let rest = groups.drop_last();
        if groups.last().texture is Some && g == groups.last() {
            assert(groups[groups.len() - 1] == g);
        } else {
            let i = choose|i: int| 0 <= i < textured(groups).len() && textured(groups)[i] == g;
            assert(textured(rest).contains(g)) by {
                if groups.last().texture is Some {
                    assert(textured(groups) == textured(rest).push(groups.last()));
                    assert(i < textured(rest).len());
                    assert(textured(rest)[i] == g);
                } else {
                    assert(textured(groups) == textured(rest));
                }
            }
            lemma_filter_keeps_members(rest, g);
            let j = choose|j: int| 0 <= j < rest.len() && rest[j] == g;
            assert(groups[j] == g);
        }
    }
}

} // verus!
