use vstd::prelude::*;
use crate::gameplay_attributes::CollisionAttributesId;
use crate::integer::{Planar64Affine3, Planar64Vec3};

verus! {

/// `glam::Vec2`, which serves as a texture coordinate: two floating-point numbers that this
/// library carries and never reads. Nothing is claimed of what a value holds.
#[verifier::external_type_specification]
#[verifier::external_body]
pub struct ExVec2(glam::Vec2);

/// `glam::Vec4`, which serves as a color with transparency: four floating-point numbers that
/// this library carries and never reads. Nothing is claimed of what a value holds.
#[verifier::external_type_specification]
#[verifier::external_body]
pub struct ExVec4(glam::Vec4);

pub type TextureCoordinate = glam::Vec2;

pub type Color4 = glam::Vec4;

/// The number of a position in a mesh's pool of positions.
#[derive(Clone, Copy, Debug, Hash, PartialEq, Eq, Structural)]
pub struct PositionId(pub u32);

impl PositionId {
    pub fn new(value: u32) -> (r: Self)
        ensures
            r == PositionId(value),
    {
        PositionId(value)
    }

    pub fn get(self) -> (r: u32)
        ensures
            r == self.0,
    {
        self.0
    }
}

/// The number of a texture coordinate in a mesh's pool of texture coordinates.
#[derive(Clone, Copy, Debug, Hash, PartialEq, Eq, Structural)]
pub struct TextureCoordinateId(pub u32);

impl TextureCoordinateId {
    pub fn new(value: u32) -> (r: Self)
        ensures
            r == TextureCoordinateId(value),
    {
        TextureCoordinateId(value)
    }

    pub fn get(self) -> (r: u32)
        ensures
            r == self.0,
    {
        self.0
    }
}

/// The number of a normal in a mesh's pool of normals.
#[derive(Clone, Copy, Debug, Hash, PartialEq, Eq, Structural)]
pub struct NormalId(pub u32);

impl NormalId {
    pub fn new(value: u32) -> (r: Self)
        ensures
            r == NormalId(value),
    {
        NormalId(value)
    }

    pub fn get(self) -> (r: u32)
        ensures
            r == self.0,
    {
        self.0
    }
}

/// The number of a color in a mesh's pool of colors.
#[derive(Clone, Copy, Debug, Hash, PartialEq, Eq, Structural)]
pub struct ColorId(pub u32);

impl ColorId {
    pub fn new(value: u32) -> (r: Self)
        ensures
            r == ColorId(value),
    {
        ColorId(value)
    }

    pub fn get(self) -> (r: u32)
        ensures
            r == self.0,
    {
        self.0
    }
}

/// The number of a vertex in a mesh's list of unique vertices.
#[derive(Clone, Copy, Debug, Hash, PartialEq, Eq, Structural)]
pub struct VertexId(pub u32);

impl VertexId {
    pub fn new(value: u32) -> (r: Self)
        ensures
            r == VertexId(value),
    {
        VertexId(value)
    }

    pub fn get(self) -> (r: u32)
        ensures
            r == self.0,
    {
        self.0
    }
}

/// The number of a polygon group in a mesh's list of polygon groups.
#[derive(Clone, Copy, Debug, Hash, PartialEq, Eq, Structural)]
pub struct GroupId(pub u32);

impl GroupId {
    pub fn new(value: u32) -> (r: Self)
        ensures
            r == GroupId(value),
    {
        GroupId(value)
    }

    pub fn get(self) -> (r: u32)
        ensures
            r == self.0,
    {
        self.0
    }
}

/// The number of a render configuration.
#[derive(Clone, Copy, Debug, Hash, PartialEq, Eq, Structural)]
pub struct RenderId(pub u32);

impl RenderId {
    pub fn new(value: u32) -> (r: Self)
        ensures
            r == RenderId(value),
    {
        RenderId(value)
    }

    pub fn get(self) -> (r: u32)
        ensures
            r == self.0,
    {
        self.0
    }
}

/// The number of a texture.
#[derive(Clone, Copy, Debug, Hash, PartialEq, Eq, Structural)]
pub struct TextureId(pub u32);

impl TextureId {
    pub fn new(value: u32) -> (r: Self)
        ensures
            r == TextureId(value),
    {
        TextureId(value)
    }

    pub fn get(self) -> (r: u32)
        ensures
            r == self.0,
    {
        self.0
    }
}

/// The number of a mesh.
#[derive(Clone, Copy, Debug, Hash, PartialEq, Eq, Structural)]
pub struct MeshId(pub u32);

impl MeshId {
    pub fn new(value: u32) -> (r: Self)
        ensures
            r == MeshId(value),
    {
        MeshId(value)
    }

    pub fn get(self) -> (r: u32)
        ensures
            r == self.0,
    {
        self.0
    }
}

/// The number of a model.
#[derive(Clone, Copy, Debug, Hash, PartialEq, Eq, Structural)]
pub struct ModelId(pub u32);

impl ModelId {
    pub fn new(value: u32) -> (r: Self)
        ensures
            r == ModelId(value),
    {
        ModelId(value)
    }

    pub fn get(self) -> (r: u32)
        ensures
            r == self.0,
    {
        self.0
    }
}

/// One unique vertex: a combination of a position, a texture coordinate, a normal and a color.
#[derive(Clone, Copy, Debug, Hash, PartialEq, Eq, Structural)]
pub struct IndexedVertex {
    pub pos: PositionId,
    pub tex: TextureCoordinateId,
    pub normal: NormalId,
    pub color: ColorId,
}

/// One polygon: its vertices in order.
#[derive(Clone, Debug, Hash, PartialEq, Eq)]
pub struct IndexedVertexList {
    pub vertices: Vec<VertexId>,
}

/// A group of polygons that share a material and belong to one convex part.
#[derive(Clone, Debug, Hash, PartialEq, Eq)]
pub enum IndexedGroup {
    PolygonList(Vec<IndexedVertexList>),
}

impl IndexedGroup {
    /// The polygons of the group in order, each as the sequence of its vertices.
    pub open spec fn spec_polys(&self) -> Seq<Seq<VertexId>> {
        Seq::new(
            self->PolygonList_0.len() as nat,
            |i: int| self->PolygonList_0[i].vertices@,
        )
    }

    /// The polygons of the group in order, each as the slice of its vertices.
    pub fn polys(&self) -> (r: Vec<&[VertexId]>)
        ensures
            r.len() == self.spec_polys().len(),
            forall|i: int| 0 <= i < r.len() ==> (#[trigger] r[i])@ == self.spec_polys()[i],
    {
        let IndexedGroup::PolygonList(list) = self;
        let mut r: Vec<&[VertexId]> = Vec::new();
        let mut i: usize = 0;
        while i < list.len()
            invariant
                i <= list.len(),
                *self == IndexedGroup::PolygonList(*list),
                r.len() == i,
                forall|j: int| 0 <= j < i ==> (#[trigger] r[j])@ == list[j].vertices@,
            decreases list.len() - i,
        {
            r.push(list[i].vertices.as_slice());
            i += 1;
        }
        r
    }

    /// The group with each vertex id replaced by what `f` gives for it. The number of
    /// polygons, their order, and the number and order of the vertices of each stay as they
    /// are.
    pub fn map_vertex_id<F: Fn(VertexId) -> VertexId>(self, f: F) -> (r: Self)
        requires
            forall|i: int, j: int|
                0 <= i < self.spec_polys().len() && 0 <= j < self.spec_polys()[i].len()
                    ==> f.requires((#[trigger] self.spec_polys()[i][j],)),
        ensures
            r.spec_polys().len() == self.spec_polys().len(),
            forall|i: int|
                0 <= i < self.spec_polys().len() ==> (#[trigger] r.spec_polys()[i]).len()
                    == self.spec_polys()[i].len(),
            forall|i: int, j: int|
                0 <= i < self.spec_polys().len() && 0 <= j < self.spec_polys()[i].len()
                    ==> f.ensures((self.spec_polys()[i][j],), #[trigger] r.spec_polys()[i][j]),
    {
        let IndexedGroup::PolygonList(list) = &self;
        let mut polygons: Vec<IndexedVertexList> = Vec::new();
        let mut i: usize = 0;
        assert forall|k: int, j: int|
            0 <= k < list.len() && 0 <= j < list[k].vertices.len() implies f.requires(
            (#[trigger] list[k].vertices[j],),
        ) by {
            assert(self.spec_polys()[k][j] == list[k].vertices[j]);
        }
        while i < list.len()
            invariant
                i <= list.len(),
                self == IndexedGroup::PolygonList(*list),
                forall|k: int, j: int|
                    0 <= k < list.len() && 0 <= j < list[k].vertices.len() ==> f.requires(
                        (#[trigger] list[k].vertices[j],),
                    ),
                polygons.len() == i,
                forall|k: int|
                    0 <= k < i ==> (#[trigger] polygons[k]).vertices.len()
                        == list[k].vertices.len(),
                forall|k: int, j: int|
                    0 <= k < i && 0 <= j < list[k].vertices.len() ==> f.ensures(
                        (list[k].vertices[j],),
                        #[trigger] polygons[k].vertices[j],
                    ),
            decreases list.len() - i,
        {
            let polygon = &list[i].vertices;
            assert forall|m: int| 0 <= m < polygon.len() implies f.requires(
                (#[trigger] polygon[m],),
            ) by {
                assert(polygon[m] == list[i as int].vertices[m]);
            }
            let mut vertices: Vec<VertexId> = Vec::new();
            let mut j: usize = 0;
            while j < polygon.len()
                invariant
                    j <= polygon.len(),
                    forall|m: int| 0 <= m < polygon.len() ==> f.requires((#[trigger] polygon[m],)),
                    vertices.len() == j,
                    forall|m: int|
                        0 <= m < j ==> f.ensures((polygon[m],), #[trigger] vertices[m]),
                decreases polygon.len() - j,
            {
                vertices.push(f(polygon[j]));
                j += 1;
            }
            polygons.push(IndexedVertexList { vertices });
            i += 1;
        }
        IndexedGroup::PolygonList(polygons)
    }
}

/// The polygon groups that are drawn with one render configuration.
#[derive(Clone, Debug, Hash, PartialEq, Eq)]
pub struct IndexedGraphicsGroup {
    pub render: RenderId,
    pub groups: Vec<GroupId>,
}

/// Polygon groups that together bound one closed convex shape.
#[derive(Clone, Debug, Hash, PartialEq, Eq)]
pub struct IndexedPhysicsGroup {
    pub groups: Vec<GroupId>,
}

/// A mesh: pools of vertex attributes without repetition, the unique vertices made of them,
/// and the polygon groups, ordered once for drawing and once for collision.
pub struct IndexedModel {
    pub unique_pos: Vec<Planar64Vec3>,
    pub unique_normal: Vec<Planar64Vec3>,
    pub unique_tex: Vec<TextureCoordinate>,
    pub unique_color: Vec<Color4>,
    pub unique_vertices: Vec<IndexedVertex>,
    pub groups: Vec<IndexedGroup>,
    pub graphics_sets: Vec<IndexedGraphicsGroup>,
    pub physics_sets: Vec<IndexedPhysicsGroup>,
}

pub type Mesh = IndexedModel;

/// The polygons of the polygon groups `ids` of a mesh with the polygon groups `groups`, in the
/// order of `ids` and, within a group, in the order of the group; none where the mesh lacks
/// one of the groups.
pub open spec fn polys_of_groups(groups: Seq<IndexedGroup>, ids: Seq<GroupId>) -> Option<
    Seq<Seq<VertexId>>,
>
    decreases ids.len(),
{
    if ids.len() == 0 {
        Some(Seq::empty())
    } else {
        match polys_of_groups(groups, ids.drop_last()) {
            Some(before) => if ids.last().0 < groups.len() {
                Some(before + groups[ids.last().0 as int].spec_polys())
            } else {
                None
            },
            None => None,
        }
    }
}

/// Where the mesh lacks one of the first `k` groups of `ids`, it lacks one of `ids`.
proof fn lemma_missing_group(groups: Seq<IndexedGroup>, ids: Seq<GroupId>, k: int)
    requires
        0 <= k <= ids.len(),
        polys_of_groups(groups, ids.take(k)) is None,
    ensures
        polys_of_groups(groups, ids) is None,
    decreases ids.len(),
{
    if k == ids.len() {
        assert(ids.take(k) =~= ids);
    } else {
        assert(ids.drop_last().take(k) =~= ids.take(k));
        lemma_missing_group(groups, ids.drop_last(), k);
    }
}

impl IndexedModel {
    /// The polygons of the polygon groups `ids`, in the order of `ids` and, within a group, in
    /// the order of the group, each as the slice of its vertices; none where the mesh lacks one
    /// of the groups.
    pub fn polys_of(&self, ids: &[GroupId]) -> (r: Option<Vec<&[VertexId]>>)
        ensures
            r is Some == polys_of_groups(self.groups@, ids@) is Some,
            r matches Some(v) ==> {
                &&& v.len() == polys_of_groups(self.groups@, ids@)->0.len()
                &&& forall|i: int|
                    0 <= i < v.len() ==> (#[trigger] v[i])@ == polys_of_groups(
                        self.groups@,
                        ids@,
                    )->0[i]
            },
    {
        let mut out: Vec<&[VertexId]> = Vec::new();
        let mut k: usize = 0;
        assert(ids@.take(0) =~= Seq::empty());
        while k < ids.len()
            invariant
                k <= ids.len(),
                polys_of_groups(self.groups@, ids@.take(k as int)) is Some,
                out.len() == polys_of_groups(self.groups@, ids@.take(k as int))->0.len(),
                forall|i: int|
                    0 <= i < out.len() ==> (#[trigger] out[i])@ == polys_of_groups(
                        self.groups@,
                        ids@.take(k as int),
                    )->0[i],
            decreases ids.len() - k,
        {
            let ghost before = polys_of_groups(self.groups@, ids@.take(k as int))->0;
            proof {
                assert(ids@.take(k + 1).drop_last() =~= ids@.take(k as int));
                assert(ids@.take(k + 1).last() == ids@[k as int]);
            }
            let index = ids[k].0 as usize;
            if index >= self.groups.len() {
                proof {
                    lemma_missing_group(self.groups@, ids@, k + 1);
                }
                return None;
            }
            let polys = self.groups[index].polys();
            let ghost added = self.groups@[index as int].spec_polys();
            let mut j: usize = 0;
            while j < polys.len()
                invariant
                    j <= polys.len(),
                    polys.len() == added.len(),
                    forall|i: int| 0 <= i < polys.len() ==> (#[trigger] polys[i])@ == added[i],
                    out.len() == before.len() + j,
                    forall|i: int| 0 <= i < out.len() ==> (#[trigger] out[i])@ == (before + added)[i],
                decreases polys.len() - j,
            {
                out.push(polys[j]);
                j += 1;
            }
            k += 1;
        }
        assert(ids@.take(ids.len() as int) =~= ids@);
        Some(out)
    }

    /// The polygons that are drawn with the graphics group at the place `index`; none where the
    /// mesh has no such graphics group or lacks one of its polygon groups.
    pub fn graphics_polys(&self, index: usize) -> (r: Option<Vec<&[VertexId]>>)
        ensures
            index >= self.graphics_sets.len() ==> r is None,
            index < self.graphics_sets.len() ==> {
                let polys = polys_of_groups(self.groups@, self.graphics_sets[index as int].groups@);
                &&& r is Some == polys is Some
                &&& r matches Some(v) ==> {
                    &&& v.len() == polys->0.len()
                    &&& forall|i: int| 0 <= i < v.len() ==> (#[trigger] v[i])@ == polys->0[i]
                }
            },
    {
        if index < self.graphics_sets.len() {
            self.polys_of(self.graphics_sets[index].groups.as_slice())
        } else {
            None
        }
    }

    /// The polygons of the convex part at the place `index`; none where the mesh has no such
    /// physics group or lacks one of its polygon groups.
    pub fn physics_polys(&self, index: usize) -> (r: Option<Vec<&[VertexId]>>)
        ensures
            index >= self.physics_sets.len() ==> r is None,
            index < self.physics_sets.len() ==> {
                let polys = polys_of_groups(self.groups@, self.physics_sets[index as int].groups@);
                &&& r is Some == polys is Some
                &&& r matches Some(v) ==> {
                    &&& v.len() == polys->0.len()
                    &&& forall|i: int| 0 <= i < v.len() ==> (#[trigger] v[i])@ == polys->0[i]
                }
            },
    {
        if index < self.physics_sets.len() {
            self.polys_of(self.physics_sets[index].groups.as_slice())
        } else {
            None
        }
    }

    /// The unique vertex `id`; none where the mesh has no such vertex.
    pub fn get_vertex(&self, id: VertexId) -> (r: Option<IndexedVertex>)
        ensures
            r == (if id.0 < self.unique_vertices.len() {
                Some(self.unique_vertices[id.0 as int])
            } else {
                None
            }),
    {
        let index = id.0 as usize;
        if index < self.unique_vertices.len() {
            Some(self.unique_vertices[index])
        } else {
            None
        }
    }

    /// The position `id`; none where the mesh has no such position.
    pub fn get_position(&self, id: PositionId) -> (r: Option<Planar64Vec3>)
        ensures
            r == (if id.0 < self.unique_pos.len() {
                Some(self.unique_pos[id.0 as int])
            } else {
                None
            }),
    {
        let index = id.0 as usize;
        if index < self.unique_pos.len() {
            Some(self.unique_pos[index])
        } else {
            None
        }
    }

    /// The normal `id`; none where the mesh has no such normal.
    pub fn get_normal(&self, id: NormalId) -> (r: Option<Planar64Vec3>)
        ensures
            r == (if id.0 < self.unique_normal.len() {
                Some(self.unique_normal[id.0 as int])
            } else {
                None
            }),
    {
        let index = id.0 as usize;
        if index < self.unique_normal.len() {
            Some(self.unique_normal[index])
        } else {
            None
        }
    }

    /// The texture coordinate `id`; none where the mesh has no such texture coordinate.
    pub fn get_texture_coordinate(&self, id: TextureCoordinateId) -> (r: Option<
        &TextureCoordinate,
    >)
        ensures
            id.0 < self.unique_tex.len() ==> r == Some(&self.unique_tex[id.0 as int]),
            id.0 >= self.unique_tex.len() ==> r is None,
    {
        let index = id.0 as usize;
        if index < self.unique_tex.len() {
            Some(&self.unique_tex[index])
        } else {
            None
        }
    }

    /// The color `id`; none where the mesh has no such color.
    pub fn get_color(&self, id: ColorId) -> (r: Option<&Color4>)
        ensures
            id.0 < self.unique_color.len() ==> r == Some(&self.unique_color[id.0 as int]),
            id.0 >= self.unique_color.len() ==> r is None,
    {
        let index = id.0 as usize;
        if index < self.unique_color.len() {
            Some(&self.unique_color[index])
        } else {
            None
        }
    }
}

/// How a polygon group is drawn: with a texture, or without one.
#[derive(Clone, Copy, Debug, Hash, PartialEq, Eq)]
pub struct RenderConfig {
    pub texture: Option<TextureId>,
}

/// A mesh placed in the world. Many models may share one mesh.
pub struct Model {
    pub mesh: MeshId,
    pub attributes: CollisionAttributesId,
    pub color: Color4,
    pub transform: Planar64Affine3,
}

} // verus!
