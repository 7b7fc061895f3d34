//! The geometry buffer: the vertices and triangle indices of one frame, in
//! the form a host renderer uploads.
//!
//! A frame arrives as a list of primitives. Each mesh among them brings its
//! own vertices and its own indices into them. The buffer keeps the vertices
//! that pass the filter, renumbers them, and keeps a triangle only where all
//! three of its corners were kept.

use vstd::prelude::*;
use crate::vertex::{
    export_vertex,
    exported,
    keeps,
    keeps_vertex,
    Limits,
    SourceVertex,
    UIVertex,
};

verus! {

/// Triangles over vertices of their own: every three indices name the
/// corners of one triangle by their place in `vertices`.
#[derive(Clone, Debug, PartialEq, Eq)]
pub struct SourceMesh {
    pub vertices: Vec<SourceVertex>,
    pub indices: Vec<u32>,
}

/// One item of a tessellated frame. Only meshes reach the buffer.
#[derive(Clone, Debug, PartialEq, Eq)]
pub enum Primitive {
    Mesh(SourceMesh),
    Callback,
}

/// The vertex as the buffer holds it, if it is kept.
pub open spec fn export_if_kept(limits: Limits) -> spec_fn(SourceVertex) -> Option<UIVertex> {
    |v: SourceVertex|
        if keeps(v, limits) {
            Some(exported(v))
        } else {
            None
        }
}

/// The kept vertices of a mesh, exported, in the order in which the mesh
/// holds them.
pub open spec fn kept_vertices(vs: Seq<SourceVertex>, limits: Limits) -> Seq<UIVertex> {
    vs.filter_map(export_if_kept(limits))
}

/// How many of the first `i` vertices of a mesh are kept: the place that
/// vertex `i`, if kept, takes among the kept ones.
pub open spec fn rank(vs: Seq<SourceVertex>, limits: Limits, i: int) -> nat {
    kept_vertices(vs.take(i), limits).len()
}

/// The mesh has a vertex that it calls `index`, and that vertex is kept.
pub open spec fn corner_kept(vs: Seq<SourceVertex>, index: u32, limits: Limits) -> bool {
    index < vs.len() && keeps(vs[index as int], limits)
}

/// The new number of the vertex that a mesh calls `index`, where `base`
/// vertices are in the buffer before the mesh: none if the mesh has no such
/// vertex or it is not kept.
pub open spec fn remapped(vs: Seq<SourceVertex>, limits: Limits, base: nat, index: u32) -> Option<
    nat,
> {
    if corner_kept(vs, index, limits) {
        Some(base + rank(vs, limits, index as int))
    } else {
        None
    }
}

/// What triangle `t` of a mesh adds to the index buffer: its three corners
/// renumbered, or nothing if one of them has no new number.
pub open spec fn triangle(
    vs: Seq<SourceVertex>,
    indices: Seq<u32>,
    limits: Limits,
    base: nat,
    t: int,
) -> Seq<u32> {
    let a = remapped(vs, limits, base, indices[3 * t]);
    let b = remapped(vs, limits, base, indices[3 * t + 1]);
    let c = remapped(vs, limits, base, indices[3 * t + 2]);
    if a.is_some() && b.is_some() && c.is_some() {
        seq![a.unwrap() as u32, b.unwrap() as u32, c.unwrap() as u32]
    } else {
        Seq::empty()
    }
}

/// What the first `n` triangles of a mesh add to the index buffer.
pub open spec fn triangles(
    vs: Seq<SourceVertex>,
    indices: Seq<u32>,
    limits: Limits,
    base: nat,
    n: nat,
) -> Seq<u32>
    decreases n,
{
    if n == 0 {
        Seq::empty()
    } else {
        triangles(vs, indices, limits, base, (n - 1) as nat) + triangle(
            vs,
            indices,
            limits,
            base,
            n - 1,
        )
    }
}

/// What a mesh adds to the index buffer. Indices beyond the last full triple
/// are ignored.
pub open spec fn mesh_indices(
    vs: Seq<SourceVertex>,
    indices: Seq<u32>,
    limits: Limits,
    base: nat,
) -> Seq<u32> {
    triangles(vs, indices, limits, base, indices.len() / 3)
}

/// What a geometry buffer holds.
pub struct GeometryModel {
    pub vertices: Seq<UIVertex>,
    pub indices: Seq<u32>,
}

impl GeometryModel {
    /// The buffer that holds nothing.
    pub open spec fn empty() -> GeometryModel {
        GeometryModel { vertices: Seq::empty(), indices: Seq::empty() }
    }

    /// The buffer can be drawn: the indices come in triples, each names a
    /// vertex of the buffer, and a 32-bit index can name every vertex.
    pub open spec fn drawable(self) -> bool {
        &&& self.vertices.len() <= u32::MAX
        &&& self.indices.len() % 3 == 0
        &&& forall|k: int| 0 <= k < self.indices.len() ==> #[trigger] self.indices[k] < self.vertices.len()
    }

    /// The buffer after one more primitive. A mesh adds its kept vertices and
    /// its surviving triangles, numbered from the vertices already there;
    /// anything else adds nothing.
    pub open spec fn with_primitive(self, primitive: Primitive, limits: Limits) -> GeometryModel {
        match primitive {
            Primitive::Mesh(mesh) => GeometryModel {
                vertices: self.vertices + kept_vertices(mesh.vertices@, limits),
                indices: self.indices + mesh_indices(
                    mesh.vertices@,
                    mesh.indices@,
                    limits,
                    self.vertices.len(),
                ),
            },
            Primitive::Callback => self,
        }
    }

    /// The geometry of a frame: the buffer after all of its primitives,
    /// starting empty.
    pub open spec fn of_frame(primitives: Seq<Primitive>, limits: Limits) -> GeometryModel {
        GeometryModel::of_first(primitives, limits, primitives.len())
    }

    /// The buffer after the first `n` of the primitives, starting empty.
    pub open spec fn of_first(primitives: Seq<Primitive>, limits: Limits, n: nat) -> GeometryModel
        decreases n,
    {
        if n == 0 {
            GeometryModel::empty()
        } else {
            GeometryModel::of_first(primitives, limits, (n - 1) as nat).with_primitive(
                primitives[n - 1],
                limits,
            )
        }
    }
}

/// How many vertices the first `n` primitives bring, kept or not.
pub open spec fn vertices_brought(primitives: Seq<Primitive>, n: nat) -> nat
    decreases n,
{
    if n == 0 {
        0
    } else {
        vertices_brought(primitives, (n - 1) as nat) + match primitives[n - 1] {
            Primitive::Mesh(mesh) => mesh.vertices@.len(),
            Primitive::Callback => 0,
        }
    }
}

/// How many vertices the primitives of a frame bring, kept or not.
pub open spec fn source_vertex_count(primitives: Seq<Primitive>) -> nat {
    vertices_brought(primitives, primitives.len())
}

/// A kept vertex takes the place after the kept ones before it, and every
/// place stays below the number of kept vertices.
pub proof fn lemma_rank_step(vs: Seq<SourceVertex>, limits: Limits, i: int)
    requires
        0 <= i < vs.len(),
    ensures
        kept_vertices(vs.take(i + 1), limits) == if keeps(vs[i], limits) {
            kept_vertices(vs.take(i), limits).push(exported(vs[i]))
        } else {
            kept_vertices(vs.take(i), limits)
        },
        rank(vs, limits, i) <= i,
    decreases i,
{
    vs.lemma_filter_map_take_succ(export_if_kept(limits), i);
    if keeps(vs[i], limits) {
        let before = kept_vertices(vs.take(i), limits);
        assert(before + seq![exported(vs[i])] =~= before.push(exported(vs[i])));
    }
    if i > 0 {
        lemma_rank_step(vs, limits, i - 1);
    }
}

/// The place of a kept vertex is below the number of all kept vertices, and
/// the kept vertex at that place is the exported form of that vertex.
pub proof fn lemma_rank_addresses_vertex(vs: Seq<SourceVertex>, limits: Limits, i: int, n: int)
    requires
        0 <= i < n <= vs.len(),
        keeps(vs[i], limits),
    ensures
        rank(vs, limits, i) < rank(vs, limits, n),
        kept_vertices(vs.take(n), limits)[rank(vs, limits, i) as int] == exported(vs[i]),
    decreases n,
{
    lemma_rank_step(vs, limits, n - 1);
    if i < n - 1 {
        lemma_rank_addresses_vertex(vs, limits, i, n - 1);
    }
}

/// No more vertices are kept than a mesh has.
pub proof fn lemma_kept_at_most_all(vs: Seq<SourceVertex>, limits: Limits)
    ensures
        kept_vertices(vs, limits).len() <= vs.len(),
{
    if vs.len() > 0 {
        lemma_rank_step(vs, limits, vs.len() - 1);
    }
}

/// The first primitives bring no more vertices than all of them.
pub proof fn lemma_vertices_brought_grows(primitives: Seq<Primitive>, n: nat, m: nat)
    requires
        n <= m <= primitives.len(),
    ensures
        vertices_brought(primitives, n) <= vertices_brought(primitives, m),
    decreases m,
{
    if n < m {
        lemma_vertices_brought_grows(primitives, n, (m - 1) as nat);
    }
}

/// The buffer holds no more vertices than the primitives brought.
pub proof fn lemma_frame_within_source(primitives: Seq<Primitive>, limits: Limits, n: nat)
    requires
        n <= primitives.len(),
    ensures
        GeometryModel::of_first(primitives, limits, n).vertices.len() <= vertices_brought(
            primitives,
            n,
        ),
    decreases n,
{
    if n > 0 {
        lemma_frame_within_source(primitives, limits, (n - 1) as nat);
        match primitives[n - 1] {
            Primitive::Mesh(mesh) => {
                lemma_kept_at_most_all(mesh.vertices@, limits);
            },
            Primitive::Callback => {},
        }
    }
}

/// The indices that the first `n` triangles of a mesh add come in triples and
/// name vertices that the mesh added, not earlier ones and not later ones.
pub proof fn lemma_triangles_name_kept(
    vs: Seq<SourceVertex>,
    indices: Seq<u32>,
    limits: Limits,
    base: nat,
    n: nat,
)
    requires
        base + vs.len() <= u32::MAX,
        3 * n <= indices.len(),
    ensures
        triangles(vs, indices, limits, base, n).len() % 3 == 0,
        forall|k: int|
            0 <= k < triangles(vs, indices, limits, base, n).len() ==> base <= (
            #[trigger] triangles(vs, indices, limits, base, n)[k]) < base + kept_vertices(
                vs,
                limits,
            ).len(),
    decreases n,
{
    if n > 0 {
        let t = n - 1;
        lemma_triangles_name_kept(vs, indices, limits, base, t as nat);
        lemma_kept_at_most_all(vs, limits);
        assert(vs.take(vs.len() as int) =~= vs);
        let corner = triangle(vs, indices, limits, base, t);
        assert forall|k: int| 0 <= k < corner.len() implies base <= (#[trigger] corner[k]) < base
            + kept_vertices(vs, limits).len() by {
            let index = indices[3 * t + k];
            lemma_rank_addresses_vertex(vs, limits, index as int, vs.len() as int);
        }
    }
}

/// A buffer that can be drawn can still be drawn after one more primitive.
pub proof fn lemma_with_primitive_drawable(
    buffer: GeometryModel,
    primitive: Primitive,
    limits: Limits,
)
    requires
        buffer.drawable(),
        primitive matches Primitive::Mesh(mesh) ==> buffer.vertices.len() + mesh.vertices@.len()
            <= u32::MAX,
    ensures
        buffer.with_primitive(primitive, limits).drawable(),
{
    match primitive {
        Primitive::Mesh(mesh) => {
            let vs = mesh.vertices@;
            let is = mesh.indices@;
            lemma_kept_at_most_all(vs, limits);
            lemma_triangles_name_kept(vs, is, limits, buffer.vertices.len(), is.len() / 3);
        },
        Primitive::Callback => {},
    }
}

/// The geometry of a frame can be drawn: the indices come in triples and each
/// names a vertex of the buffer.
pub proof fn lemma_frame_drawable(primitives: Seq<Primitive>, limits: Limits, n: nat)
    requires
        n <= primitives.len(),
        vertices_brought(primitives, n) <= u32::MAX,
    ensures
        GeometryModel::of_first(primitives, limits, n).drawable(),
    decreases n,
{
    if n > 0 {
        lemma_vertices_brought_grows(primitives, (n - 1) as nat, n);
        lemma_frame_drawable(primitives, limits, (n - 1) as nat);
        lemma_frame_within_source(primitives, limits, (n - 1) as nat);
        lemma_with_primitive_drawable(
            GeometryModel::of_first(primitives, limits, (n - 1) as nat),
            primitives[n - 1],
            limits,
        );
    }
}

/// A triangle is kept whole or dropped whole: it adds its three corners where
/// each of them is a kept vertex of the mesh, and nothing otherwise.
pub proof fn lemma_triangle_whole_or_dropped(
    vs: Seq<SourceVertex>,
    indices: Seq<u32>,
    limits: Limits,
    base: nat,
    t: int,
)
    ensures
        triangle(vs, indices, limits, base, t).len() == if corner_kept(vs, indices[3 * t], limits)
            && corner_kept(vs, indices[3 * t + 1], limits) && corner_kept(
            vs,
            indices[3 * t + 2],
            limits,
        ) {
            3nat
        } else {
            0nat
        },
{
}

/// The new number of a vertex names that vertex: after a mesh is added, the
/// buffer holds at the new number of each kept vertex of the mesh the
/// exported form of that vertex, behind the vertices that were there before.
pub proof fn lemma_new_index_names_same_vertex(
    buffer: GeometryModel,
    mesh: SourceMesh,
    limits: Limits,
    index: u32,
)
    requires
        remapped(mesh.vertices@, limits, buffer.vertices.len(), index).is_some(),
    ensures
        ({
            let number = remapped(mesh.vertices@, limits, buffer.vertices.len(), index).unwrap();
            let after = buffer.with_primitive(Primitive::Mesh(mesh), limits);
            &&& buffer.vertices.len() <= number < after.vertices.len()
            &&& after.vertices[number as int] == exported(mesh.vertices@[index as int])
        }),
{
    let vs = mesh.vertices@;
    lemma_rank_addresses_vertex(vs, limits, index as int, vs.len() as int);
    assert(vs.take(vs.len() as int) =~= vs);
}

/// What the first primitives of a frame put into the buffer stays where it
/// is while the later ones are added.
pub proof fn lemma_frame_extends(primitives: Seq<Primitive>, limits: Limits, n: nat, m: nat)
    requires
        n <= m <= primitives.len(),
    ensures
        ({
            let early = GeometryModel::of_first(primitives, limits, n);
            let late = GeometryModel::of_first(primitives, limits, m);
            &&& early.vertices.is_prefix_of(late.vertices)
            &&& early.indices.is_prefix_of(late.indices)
        }),
    decreases m,
{
    if n < m {
        lemma_frame_extends(primitives, limits, n, (m - 1) as nat);
    }
}

/// In the geometry of a whole frame, the new number of a kept vertex of any
/// of its meshes names the exported form of that vertex.
pub proof fn lemma_frame_index_names_same_vertex(
    primitives: Seq<Primitive>,
    limits: Limits,
    place: nat,
    index: u32,
)
    requires
        place < primitives.len(),
        primitives[place as int] is Mesh,
        remapped(
            primitives[place as int]->Mesh_0.vertices@,
            limits,
            GeometryModel::of_first(primitives, limits, place).vertices.len(),
            index,
        ).is_some(),
    ensures
        ({
            let mesh = primitives[place as int]->Mesh_0;
            let before = GeometryModel::of_first(primitives, limits, place);
            let frame = GeometryModel::of_frame(primitives, limits);
            let number = remapped(mesh.vertices@, limits, before.vertices.len(), index).unwrap();
            &&& number < frame.vertices.len()
            &&& frame.vertices[number as int] == exported(mesh.vertices@[index as int])
        }),
{
    let mesh = primitives[place as int]->Mesh_0;
    let before = GeometryModel::of_first(primitives, limits, place);
    lemma_new_index_names_same_vertex(before, mesh, limits, index);
    lemma_frame_extends(primitives, limits, place + 1, primitives.len());
}

/// The table of new numbers that belongs to a mesh: for each of its
/// vertices, in their order, the new number or none.
spec fn table_of(
    table: Seq<Option<u32>>,
    vs: Seq<SourceVertex>,
    limits: Limits,
    base: nat,
) -> bool {
    &&& table.len() == vs.len()
    &&& base + vs.len() <= u32::MAX
    &&& forall|j: int|
        0 <= j < vs.len() ==> #[trigger] table[j] == match remapped(vs, limits, base, j as u32) {
            Some(number) => Some(number as u32),
            None => None,
        }
}

/// Copies the kept vertices of a mesh behind those in `vertices` and returns
/// the table of their new numbers.
fn copy_kept(vertices: &mut Vec<UIVertex>, mesh: &SourceMesh, limits: &Limits) -> (table: Vec<
    Option<u32>,
>)
    requires
        old(vertices)@.len() + mesh.vertices@.len() <= u32::MAX,
    ensures
        final(vertices)@ == old(vertices)@ + kept_vertices(mesh.vertices@, *limits),
        table_of(table@, mesh.vertices@, *limits, old(vertices)@.len()),
{
    let ghost vs = mesh.vertices@;
    let ghost before = vertices@;
    let base: u32 = vertices.len() as u32;
    let count: usize = mesh.vertices.len();
    let mut table: Vec<Option<u32>> = Vec::new();
    let mut kept: u32 = 0;
    let mut i: usize = 0;
    while i < count
        invariant
            vs == mesh.vertices@,
            i <= count == vs.len(),
            base == before.len(),
            base + count <= u32::MAX,
            kept == rank(vs, *limits, i as int),
            kept <= i,
            vertices@ == before + kept_vertices(vs.take(i as int), *limits),
            table@.len() == i,
            forall|j: int|
                0 <= j < i ==> #[trigger] table@[j] == match remapped(
                    vs,
                    *limits,
                    base as nat,
                    j as u32,
                ) {
                    Some(number) => Some(number as u32),
                    None => None,
                },
        decreases count - i,
    {
        let v = &mesh.vertices[i];
        proof {
            lemma_rank_step(vs, *limits, i as int);
        }
        if keeps_vertex(v, limits) {
            let out = export_vertex(v);
            vertices.push(out);
            table.push(Some(base + kept));
            kept = kept + 1;
        } else {
            table.push(None);
        }
        i = i + 1;
    }
    proof {
        assert(vs.take(count as int) =~= vs);
    }
    table
}

/// Looks a vertex up in the table of a mesh.
fn new_index(
    table: &Vec<Option<u32>>,
    index: u32,
    Ghost(vs): Ghost<Seq<SourceVertex>>,
    Ghost(limits): Ghost<Limits>,
    Ghost(base): Ghost<nat>,
) -> (number: Option<u32>)
    requires
        table_of(table@, vs, limits, base),
    ensures
        number == match remapped(vs, limits, base, index) {
            Some(number) => Some(number as u32),
            None => None,
        },
{
    if (index as usize) < table.len() {
        table[index as usize]
    } else {
        None
    }
}

/// The vertices and indices of the current frame.
pub struct GeometryBuffer {
    vertices: Vec<UIVertex>,
    indices: Vec<u32>,
}

impl View for GeometryBuffer {
    type V = GeometryModel;

    closed spec fn view(&self) -> GeometryModel {
        GeometryModel { vertices: self.vertices@, indices: self.indices@ }
    }
}

impl GeometryBuffer {
    #[verifier::type_invariant]
    spec fn is_drawable(self) -> bool {
        self@.drawable()
    }

    /// A buffer that holds nothing.
    pub fn new() -> (buffer: GeometryBuffer)
        ensures
            buffer@ == GeometryModel::empty(),
    {
        GeometryBuffer { vertices: Vec::new(), indices: Vec::new() }
    }

    /// Empties the buffer. The storage is kept for the next frame.
    pub fn clear(&mut self)
        ensures
            final(self)@ == GeometryModel::empty(),
    {
        proof {
            use_type_invariant(&*self);
        }
        let mut vertices: Vec<UIVertex> = Vec::new();
        let mut indices: Vec<u32> = Vec::new();
        core::mem::swap(&mut self.indices, &mut indices);
        core::mem::swap(&mut self.vertices, &mut vertices);
        vertices.clear();
        indices.clear();
        self.vertices = vertices;
        self.indices = indices;
    }

    /// Whether the buffer holds no vertex.
    pub fn is_empty(&self) -> (empty: bool)
        ensures
            empty == (self@.vertices.len() == 0),
    {
        self.vertices.len() == 0
    }

    /// The vertices, in the order in which they were added.
    pub fn vertices(&self) -> (vertices: &Vec<UIVertex>)
        ensures
            vertices@ == self@.vertices,
            self@.drawable(),
    {
        proof {
            use_type_invariant(self);
        }
        &self.vertices
    }

    /// The indices, three to a triangle, each below the number of vertices.
    pub fn indices(&self) -> (indices: &Vec<u32>)
        ensures
            indices@ == self@.indices,
            self@.drawable(),
    {
        proof {
            use_type_invariant(self);
        }
        &self.indices
    }

    /// Adds a mesh: its kept vertices behind those already there, and its
    /// surviving triangles, renumbered, behind the indices already there.
    pub fn append_mesh(&mut self, mesh: &SourceMesh, limits: &Limits)
        requires
            old(self)@.vertices.len() + mesh.vertices@.len() <= u32::MAX,
        ensures
            final(self)@ == old(self)@.with_primitive(Primitive::Mesh(*mesh), *limits),
    {
        proof {
            use_type_invariant(&*self);
        }
        let ghost vs = mesh.vertices@;
        let ghost is = mesh.indices@;
        let ghost before = self@;
        let mut vertices: Vec<UIVertex> = Vec::new();
        let mut indices: Vec<u32> = Vec::new();
        core::mem::swap(&mut self.indices, &mut indices);
        core::mem::swap(&mut self.vertices, &mut vertices);
        let base: u32 = vertices.len() as u32;
        let table = copy_kept(&mut vertices, mesh, limits);
        let length: usize = mesh.indices.len();
        let triples: usize = length / 3;
        let mut t: usize = 0;
        while t < triples
            invariant
                is == mesh.indices@,
                t <= triples == is.len() / 3,
                3 * triples <= length == is.len(),
                table_of(table@, vs, *limits, base as nat),
                indices@ == before.indices + triangles(vs, is, *limits, base as nat, t as nat),
            decreases triples - t,
        {
            let a = new_index(&table, mesh.indices[3 * t], Ghost(vs), Ghost(*limits), Ghost(base as nat));
            let b = new_index(
                &table,
                mesh.indices[3 * t + 1],
                Ghost(vs),
                Ghost(*limits),
                Ghost(base as nat),
            );
            let c = new_index(
                &table,
                mesh.indices[3 * t + 2],
                Ghost(vs),
                Ghost(*limits),
                Ghost(base as nat),
            );
            if a.is_some() && b.is_some() && c.is_some() {
                indices.push(a.unwrap());
                indices.push(b.unwrap());
                indices.push(c.unwrap());
            }
            t = t + 1;
        }
        proof {
            lemma_with_primitive_drawable(before, Primitive::Mesh(*mesh), *limits);
        }
        self.vertices = vertices;
        self.indices = indices;
    }

    /// Replaces what the buffer holds by the geometry of one frame: the
    /// meshes among the primitives, added in their order to an empty buffer.
    pub fn fill(&mut self, primitives: &Vec<Primitive>, limits: &Limits)
        requires
            source_vertex_count(primitives@) <= u32::MAX,
        ensures
            final(self)@ == GeometryModel::of_frame(primitives@, *limits),
    {
        self.clear();
        let total: usize = primitives.len();
        let mut n: usize = 0;
        while n < total
            invariant
                n <= total == primitives@.len(),
                vertices_brought(primitives@, primitives@.len()) <= u32::MAX,
                self@ == GeometryModel::of_first(primitives@, *limits, n as nat),
            decreases total - n,
        {
            proof {
                lemma_frame_within_source(primitives@, *limits, n as nat);
                lemma_vertices_brought_grows(primitives@, (n + 1) as nat, total as nat);
            }
            match &primitives[n] {
                Primitive::Mesh(mesh) => {
                    self.append_mesh(mesh, limits);
                },
                Primitive::Callback => {},
            }
            n = n + 1;
        }
    }
}

/// Whether 32-bit indices can number the vertices that the primitives bring.
pub fn within_index_range(primitives: &Vec<Primitive>) -> (fits: bool)
    ensures
        fits == (source_vertex_count(primitives@) <= u32::MAX),
{
    let total: usize = primitives.len();
    let mut sum: u64 = 0;
    let mut n: usize = 0;
    while n < total
        invariant
            n <= total == primitives@.len(),
            sum == vertices_brought(primitives@, n as nat),
            sum <= u32::MAX,
        decreases total - n,
    {
        let more: usize = match &primitives[n] {
            Primitive::Mesh(mesh) => mesh.vertices.len(),
            Primitive::Callback => 0,
        };
        if more > 0xffff_ffff || sum + more as u64 > 0xffff_ffff {
            proof {
                lemma_vertices_brought_grows(primitives@, (n + 1) as nat, total as nat);
            }
            return false;
        }
        sum = sum + more as u64;
        n = n + 1;
    }
    true
}

} // verus!
