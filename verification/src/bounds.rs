//! Axis-aligned bounding volumes of mesh vertices.

use crate::mesh::Mesh;
use crate::mesh::MeshView;
use crate::mesh::Vertex;
use crate::vector::Vec3;
use vstd::prelude::*;

verus! {

/// An axis-aligned box, given by its least and its greatest corner.
#[derive(Clone, Copy, Debug, PartialEq, Eq, Structural)]
pub struct Aabb {
    pub min: Vec3,
    pub max: Vec3,
}

/// The midpoint of two coordinates, rounded down.
pub open spec fn midpoint(a: i64, b: i64) -> int {
    (a + b) / 2
}

fn midpoint_of(a: i64, b: i64) -> (r: i64)
    ensures
        r as int == midpoint(a, b),
{
    let sum: i128 = a as i128 + b as i128;
    if sum >= 0 {
        (sum / 2) as i64
    } else {
        let up: i128 = (1 - sum) / 2;
        (-up) as i64
    }
}

impl Aabb {
    /// The least corner is nowhere beyond the greatest.
    pub open spec fn wf(self) -> bool {
        &&& self.min.x <= self.max.x
        &&& self.min.y <= self.max.y
        &&& self.min.z <= self.max.z
    }

    /// The point lies in the box, its faces included.
    pub open spec fn contains(self, p: Vec3) -> bool {
        &&& self.min.x <= p.x <= self.max.x
        &&& self.min.y <= p.y <= self.max.y
        &&& self.min.z <= p.z <= self.max.z
    }

    /// The point halfway between the corners, each component rounded down.
    pub open spec fn spec_center(self) -> Vec3 {
        Vec3 {
            x: midpoint(self.min.x, self.max.x) as i64,
            y: midpoint(self.min.y, self.max.y) as i64,
            z: midpoint(self.min.z, self.max.z) as i64,
        }
    }

    /// The box that holds the single point `p`.
    pub open spec fn spec_around(p: Vec3) -> Aabb {
        Aabb { min: p, max: p }
    }

    /// The least box that holds this box and `p`.
    pub open spec fn spec_grown(self, p: Vec3) -> Aabb {
        Aabb {
            min: Vec3 {
                x: if p.x < self.min.x { p.x } else { self.min.x },
                y: if p.y < self.min.y { p.y } else { self.min.y },
                z: if p.z < self.min.z { p.z } else { self.min.z },
            },
            max: Vec3 {
                x: if p.x > self.max.x { p.x } else { self.max.x },
                y: if p.y > self.max.y { p.y } else { self.max.y },
                z: if p.z > self.max.z { p.z } else { self.max.z },
            },
        }
    }

    /// A box from two corners, or nothing where `min` is beyond `max` on
    /// some axis.
    pub fn new(min: Vec3, max: Vec3) -> (r: Option<Aabb>)
        ensures
            r is Some <==> (Aabb { min, max }).wf(),
            r matches Some(b) ==> b == (Aabb { min, max }),
    {
        if min.x <= max.x && min.y <= max.y && min.z <= max.z {
            Some(Aabb { min, max })
        } else {
            None
        }
    }

    #[verifier::when_used_as_spec(spec_around)]
    pub fn around(p: Vec3) -> (r: Aabb)
        ensures
            r == Aabb::spec_around(p),
            r.wf(),
    {
        Aabb { min: p, max: p }
    }

    #[verifier::when_used_as_spec(spec_grown)]
    pub fn grown(self, p: Vec3) -> (r: Aabb)
        ensures
            r == self.spec_grown(p),
    {
        Aabb {
            min: Vec3 {
                x: if p.x < self.min.x { p.x } else { self.min.x },
                y: if p.y < self.min.y { p.y } else { self.min.y },
                z: if p.z < self.min.z { p.z } else { self.min.z },
            },
            max: Vec3 {
                x: if p.x > self.max.x { p.x } else { self.max.x },
                y: if p.y > self.max.y { p.y } else { self.max.y },
                z: if p.z > self.max.z { p.z } else { self.max.z },
            },
        }
    }

    /// The centre of the box, which a model takes as its pivot.
    #[verifier::when_used_as_spec(spec_center)]
    pub fn center(self) -> (r: Vec3)
        ensures
            r == self.spec_center(),
            self.wf() ==> self.contains(r),
    {
        Vec3 {
            x: midpoint_of(self.min.x, self.max.x),
            y: midpoint_of(self.min.y, self.max.y),
            z: midpoint_of(self.min.z, self.max.z),
        }
    }
}

/// No mesh has a vertex.
pub open spec fn no_vertices(meshes: Seq<MeshView>) -> bool {
    forall|m: int| 0 <= m < meshes.len() ==> (#[trigger] meshes[m]).vertices.len() == 0
}

/// `(m, v)` names vertex `v` of mesh `m`.
pub open spec fn is_vertex(meshes: Seq<MeshView>, m: int, v: int) -> bool {
    0 <= m < meshes.len() && 0 <= v < meshes[m].vertices.len()
}

/// The position of vertex `v` of mesh `m`.
pub open spec fn position_of(meshes: Seq<MeshView>, m: int, v: int) -> Vec3 {
    meshes[m].vertices[v].position
}

/// The box holds every vertex of every mesh.
pub open spec fn encloses(b: Aabb, meshes: Seq<MeshView>) -> bool {
    forall|m: int, v: int|
        is_vertex(meshes, m, v) ==> b.contains(#[trigger] position_of(meshes, m, v))
}

/// Each face of the box passes through some vertex, so that no smaller box
/// holds them all.
pub open spec fn touches(b: Aabb, meshes: Seq<MeshView>) -> bool {
    &&& exists|m: int, v: int|
        is_vertex(meshes, m, v) && (#[trigger] position_of(meshes, m, v)).x == b.min.x
    &&& exists|m: int, v: int|
        is_vertex(meshes, m, v) && (#[trigger] position_of(meshes, m, v)).y == b.min.y
    &&& exists|m: int, v: int|
        is_vertex(meshes, m, v) && (#[trigger] position_of(meshes, m, v)).z == b.min.z
    &&& exists|m: int, v: int|
        is_vertex(meshes, m, v) && (#[trigger] position_of(meshes, m, v)).x == b.max.x
    &&& exists|m: int, v: int|
        is_vertex(meshes, m, v) && (#[trigger] position_of(meshes, m, v)).y == b.max.y
    &&& exists|m: int, v: int|
        is_vertex(meshes, m, v) && (#[trigger] position_of(meshes, m, v)).z == b.max.z
}

/// `volume` is the bounding volume of the meshes: absent where there is no
/// vertex at all, and else the least box that holds every vertex.
pub open spec fn is_bounding_volume(volume: Option<Aabb>, meshes: Seq<MeshView>) -> bool {
    match volume {
        None => no_vertices(meshes),
        Some(b) => !no_vertices(meshes) && b.wf() && encloses(b, meshes) && touches(b, meshes),
    }
}

/// Meshes have one bounding volume and no other.
pub proof fn lemma_bounding_volume_unique(a: Option<Aabb>, b: Option<Aabb>, meshes: Seq<MeshView>)
    requires
        is_bounding_volume(a, meshes),
        is_bounding_volume(b, meshes),
    ensures
        a == b,
{
    if a is Some && b is Some {
        lemma_touched_faces_agree(a->0, b->0, meshes);
        lemma_touched_faces_agree(b->0, a->0, meshes);
    }
}

/// A box that touches the vertices lies inside every box that holds them.
proof fn lemma_touched_faces_agree(inner: Aabb, outer: Aabb, meshes: Seq<MeshView>)
    requires
        touches(inner, meshes),
        encloses(outer, meshes),
    ensures
        outer.min.x <= inner.min.x,
        outer.min.y <= inner.min.y,
        outer.min.z <= inner.min.z,
        inner.max.x <= outer.max.x,
        inner.max.y <= outer.max.y,
        inner.max.z <= outer.max.z,
{
    let (m0, v0) = choose|m: int, v: int|
        is_vertex(meshes, m, v) && (#[trigger] position_of(meshes, m, v)).x == inner.min.x;
    let (m1, v1) = choose|m: int, v: int|
        is_vertex(meshes, m, v) && (#[trigger] position_of(meshes, m, v)).y == inner.min.y;
    let (m2, v2) = choose|m: int, v: int|
        is_vertex(meshes, m, v) && (#[trigger] position_of(meshes, m, v)).z == inner.min.z;
    let (m3, v3) = choose|m: int, v: int|
        is_vertex(meshes, m, v) && (#[trigger] position_of(meshes, m, v)).x == inner.max.x;
    let (m4, v4) = choose|m: int, v: int|
        is_vertex(meshes, m, v) && (#[trigger] position_of(meshes, m, v)).y == inner.max.y;
    let (m5, v5) = choose|m: int, v: int|
        is_vertex(meshes, m, v) && (#[trigger] position_of(meshes, m, v)).z == inner.max.z;
    assert(outer.contains(position_of(meshes, m0, v0)));
    assert(outer.contains(position_of(meshes, m1, v1)));
    assert(outer.contains(position_of(meshes, m2, v2)));
    assert(outer.contains(position_of(meshes, m3, v3)));
    assert(outer.contains(position_of(meshes, m4, v4)));
    assert(outer.contains(position_of(meshes, m5, v5)));
}

/// What a list of meshes holds.
pub open spec fn mesh_views(meshes: Seq<Mesh>) -> Seq<MeshView> {
    Seq::new(meshes.len(), |i: int| meshes[i]@)
}

/// The meshes before `mi`, and of mesh `mi` the vertices before `vi`: what
/// a scan has seen when it stands at vertex `vi` of mesh `mi`.
spec fn scanned(meshes: Seq<MeshView>, mi: int, vi: int) -> Seq<MeshView> {
    Seq::new(
        meshes.len(),
        |i: int|
            if i < mi {
                meshes[i]
            } else if i == mi {
                MeshView {
                    vertices: meshes[i].vertices.take(vi),
                    indices: meshes[i].indices,
                    texture: meshes[i].texture,
                }
            } else {
                MeshView {
                    vertices: Seq::empty(),
                    indices: meshes[i].indices,
                    texture: meshes[i].texture,
                }
            },
    )
}

/// Nothing has been scanned before the first vertex of the first mesh.
proof fn lemma_scan_start(meshes: Seq<MeshView>)
    ensures
        is_bounding_volume(None, scanned(meshes, 0, 0)),
{
    let s = scanned(meshes, 0, 0);
    assert forall|m: int| 0 <= m < s.len() implies (#[trigger] s[m]).vertices.len() == 0 by {
        if m == 0 {
            assert(meshes[0].vertices.take(0).len() == 0);
        }
    }
}

/// Scanning one more vertex grows the volume to hold it.
proof fn lemma_scan_step(meshes: Seq<MeshView>, mi: int, vi: int, volume: Option<Aabb>)
    requires
        is_vertex(meshes, mi, vi),
        is_bounding_volume(volume, scanned(meshes, mi, vi)),
    ensures
        is_bounding_volume(
            Some(
                match volume {
                    None => Aabb::around(position_of(meshes, mi, vi)),
                    Some(b) => b.grown(position_of(meshes, mi, vi)),
                },
            ),
            scanned(meshes, mi, vi + 1),
        ),
{
    let before = scanned(meshes, mi, vi);
    let after = scanned(meshes, mi, vi + 1);
    let p = position_of(meshes, mi, vi);
    let grown = match volume {
        None => Aabb::around(p),
        Some(b) => b.grown(p),
    };
    assert(after[mi].vertices.len() == vi + 1);
    assert(position_of(after, mi, vi) == p);
    assert(is_vertex(after, mi, vi));
    assert forall|m: int, v: int| is_vertex(before, m, v) implies is_vertex(after, m, v)
        && position_of(after, m, v) == position_of(before, m, v) by {}
    assert forall|m: int, v: int| is_vertex(after, m, v) implies is_vertex(before, m, v) || (m
        == mi && v == vi) by {}
    assert forall|m: int, v: int| is_vertex(after, m, v) implies grown.contains(
        #[trigger] position_of(after, m, v),
    ) by {
        if is_vertex(before, m, v) {
            assert(position_of(after, m, v) == position_of(before, m, v));
            assert(volume is Some) by {
                assert(before[m].vertices.len() > 0);
            }
            assert(volume->0.contains(position_of(before, m, v)));
        }
    }
    match volume {
        None => {
            assert(before[mi].vertices.len() == 0);
            assert(touches(grown, after));
        },
        Some(b) => {
            lemma_touch_grown(before, after, b, p, mi, vi);
        },
    }
}

/// A grown box still touches a vertex on every face: the new vertex where
/// the face moved, the old one where it stayed.
proof fn lemma_touch_grown(
    before: Seq<MeshView>,
    after: Seq<MeshView>,
    b: Aabb,
    p: Vec3,
    mi: int,
    vi: int,
)
    requires
        touches(b, before),
        is_vertex(after, mi, vi),
        position_of(after, mi, vi) == p,
        forall|m: int, v: int|
            is_vertex(before, m, v) ==> is_vertex(after, m, v) && position_of(after, m, v)
                == position_of(before, m, v),
    ensures
        touches(b.grown(p), after),
{
    let g = b.grown(p);
    let (m0, v0) = choose|m: int, v: int|
        is_vertex(before, m, v) && (#[trigger] position_of(before, m, v)).x == b.min.x;
    let (m1, v1) = choose|m: int, v: int|
        is_vertex(before, m, v) && (#[trigger] position_of(before, m, v)).y == b.min.y;
    let (m2, v2) = choose|m: int, v: int|
        is_vertex(before, m, v) && (#[trigger] position_of(before, m, v)).z == b.min.z;
    let (m3, v3) = choose|m: int, v: int|
        is_vertex(before, m, v) && (#[trigger] position_of(before, m, v)).x == b.max.x;
    let (m4, v4) = choose|m: int, v: int|
        is_vertex(before, m, v) && (#[trigger] position_of(before, m, v)).y == b.max.y;
    let (m5, v5) = choose|m: int, v: int|
        is_vertex(before, m, v) && (#[trigger] position_of(before, m, v)).z == b.max.z;
    assert(position_of(after, m0, v0).x == b.min.x);
    assert(position_of(after, m1, v1).y == b.min.y);
    assert(position_of(after, m2, v2).z == b.min.z);
    assert(position_of(after, m3, v3).x == b.max.x);
    assert(position_of(after, m4, v4).y == b.max.y);
    assert(position_of(after, m5, v5).z == b.max.z);
    assert(position_of(after, mi, vi) == p);
}

/// Past the last vertex of a mesh the scan stands before the next mesh.
proof fn lemma_scan_next_mesh(meshes: Seq<MeshView>, mi: int)
    requires
        0 <= mi < meshes.len(),
    ensures
        scanned(meshes, mi, meshes[mi].vertices.len() as int) == scanned(meshes, mi + 1, 0),
{
    let a = scanned(meshes, mi, meshes[mi].vertices.len() as int);
    let b = scanned(meshes, mi + 1, 0);
    assert forall|i: int| 0 <= i < a.len() implies a[i] == b[i] by {
        if i == mi {
            assert(meshes[i].vertices.take(meshes[i].vertices.len() as int) =~= meshes[i].vertices);
        } else if i == mi + 1 {
            assert(meshes[i].vertices.take(0) =~= Seq::<Vertex>::empty());
        }
    }
    assert(a =~= b);
}

/// A volume of everything before the end of the list is a volume of the list.
proof fn lemma_scan_end(meshes: Seq<MeshView>)
    ensures
        scanned(meshes, meshes.len() as int, 0) == meshes,
{
    assert(scanned(meshes, meshes.len() as int, 0) =~= meshes);
}

/// The bounding volume of all vertices of all the meshes: absent where
/// there is no vertex, which differs from the box of a single point.
pub fn bounding_volume(meshes: &Vec<Mesh>) -> (r: Option<Aabb>)
    ensures
        is_bounding_volume(r, mesh_views(meshes@)),
        r is None <==> no_vertices(mesh_views(meshes@)),
        r matches Some(b) ==> b.wf() && encloses(b, mesh_views(meshes@)),
{
    let ghost views = mesh_views(meshes@);
    let mut volume: Option<Aabb> = None;
    let mut mi: usize = 0;
    proof {
        lemma_scan_start(views);
    }
    while mi < meshes.len()
        invariant
            mi <= meshes.len(),
            views == mesh_views(meshes@),
            is_bounding_volume(volume, scanned(views, mi as int, 0)),
        decreases meshes.len() - mi,
    {
        let vertices = meshes[mi].vertices();
        assert(vertices@ == views[mi as int].vertices);
        let mut vi: usize = 0;
        while vi < vertices.len()
            invariant
                mi < meshes.len(),
                vi <= vertices.len(),
                views == mesh_views(meshes@),
                vertices@ == views[mi as int].vertices,
                is_bounding_volume(volume, scanned(views, mi as int, vi as int)),
            decreases vertices.len() - vi,
        {
            let p = vertices[vi].position;
            proof {
                lemma_scan_step(views, mi as int, vi as int, volume);
            }
            volume =
            Some(
                match volume {
                    None => Aabb::around(p),
                    Some(b) => b.grown(p),
                },
            );
            vi = vi + 1;
        }
        proof {
            lemma_scan_next_mesh(views, mi as int);
        }
        mi = mi + 1;
    }
    proof {
        lemma_scan_end(views);
    }
    volume
}

} // verus!
