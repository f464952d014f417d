use std::sync::Arc;

use glam::Vec3;
use itertools::Itertools;
use vstd::prelude::*;

verus! {

/// A 3-D vector of the `glam` crate, carried through as an opaque value.
#[verifier::external_type_specification]
#[verifier::external_body]
pub struct ExVec3(glam::Vec3);

/// Relies on `Arc::clone`: the new handle points to the same buffer.
#[verifier::external_body]
fn share(buf: &Arc<Vec<Vec3>>) -> (r: Arc<Vec<Vec3>>)
    ensures
        r == *buf,
{
    Arc::clone(buf)
}

/// A triangle of a mesh: three indices into vertex and normal buffers shared by every
/// triangle of that mesh.
pub struct RefTri {
    pub verts: Arc<Vec<Vec3>>,
    pub norms: Arc<Vec<Vec3>>,
    pub a: u16,
    pub b: u16,
    pub c: u16,
    pub smooth: bool,
}

impl RefTri {
    /// The three indices lie within the buffers, which have one entry per vertex each.
    pub open spec fn wf(&self) -> bool {
        &&& self.norms@.len() == self.verts@.len()
        &&& (self.a as int) < self.verts@.len()
        &&& (self.b as int) < self.verts@.len()
        &&& (self.c as int) < self.verts@.len()
    }

    pub fn a_pos(&self) -> (r: Vec3)
        requires
            self.wf(),
        ensures
            r == self.verts@[self.a as int],
    {
        self.verts[self.a as usize]
    }

    pub fn b_pos(&self) -> (r: Vec3)
        requires
            self.wf(),
        ensures
            r == self.verts@[self.b as int],
    {
        self.verts[self.b as usize]
    }

    pub fn c_pos(&self) -> (r: Vec3)
        requires
            self.wf(),
        ensures
            r == self.verts@[self.c as int],
    {
        self.verts[self.c as usize]
    }

    pub fn a_norm(&self) -> (r: Vec3)
        requires
            self.wf(),
        ensures
            r == self.norms@[self.a as int],
    {
        self.norms[self.a as usize]
    }

    pub fn b_norm(&self) -> (r: Vec3)
        requires
            self.wf(),
        ensures
            r == self.norms@[self.b as int],
    {
        self.norms[self.b as usize]
    }

    pub fn c_norm(&self) -> (r: Vec3)
        requires
            self.wf(),
        ensures
            r == self.norms@[self.c as int],
    {
        self.norms[self.c as usize]
    }
}


/// An object together with the slot in which a bounding hierarchy records the node
/// that holds it.
pub struct Indexed<T> {
    pub obj: T,
    pub shape_idx: usize,
}

impl<T> Indexed<T> {
    pub fn new(obj: T) -> (r: Self)
        ensures
            r.obj == obj,
            r.shape_idx == 0,
    {
        Indexed { obj, shape_idx: 0 }
    }

    pub fn set_bh_node_index(&mut self, idx: usize)
        ensures
            final(self).obj == old(self).obj,
            final(self).shape_idx == idx,
    {
        self.shape_idx = idx;
    }

    pub fn bh_node_index(&self) -> (r: usize)
        ensures
            r == self.shape_idx,
    {
        self.shape_idx
    }
}

/// Records in each item the node that a bounding hierarchy built over the items placed
/// it in: `nodes[k]` for item `k`.
pub fn record_node_indices<T>(items: &mut Vec<Indexed<T>>, nodes: &Vec<usize>)
    requires
        nodes@.len() == old(items)@.len(),
    ensures
        final(items)@.len() == old(items)@.len(),
        forall|k: int|
            0 <= k < final(items)@.len() ==> {
                &&& (#[trigger] final(items)@[k]).obj == old(items)@[k].obj
                &&& final(items)@[k].shape_idx == nodes@[k]
            },
{
    let mut k: usize = 0;
    while k < items.len()
        invariant
            nodes@.len() == old(items)@.len(),
            items@.len() == old(items)@.len(),
            k <= items@.len(),
            forall|j: int|
                0 <= j < items@.len() ==> (#[trigger] items@[j]).obj == old(items)@[j].obj,
            forall|j: int| 0 <= j < k ==> (#[trigger] items@[j]).shape_idx == nodes@[j],
        decreases items@.len() - k,
    {
        items[k].set_bh_node_index(nodes[k]);
        k = k + 1;
    }
}

/// The `k`-th face of an index buffer: the `k`-th group of three consecutive indices.
pub open spec fn face_at(indices: Seq<u16>, k: int) -> (u16, u16, u16) {
    (indices[3 * k], indices[3 * k + 1], indices[3 * k + 2])
}

/// The faces of an index buffer, one per whole group of three indices; indices left
/// over after the last whole group belong to no face.
pub open spec fn faces_of(indices: Seq<u16>) -> Seq<(u16, u16, u16)> {
    Seq::new((indices.len() / 3) as nat, |k: int| face_at(indices, k))
}

/// How many corners of the faces are vertex `v`.
pub open spec fn corners_at(faces: Seq<(u16, u16, u16)>, v: int) -> nat
    decreases faces.len(),
{
    if faces.len() == 0 {
        0
    } else {
        let f = faces.last();
        corners_at(faces.drop_last(), v) + (if f.0 as int == v { 1nat } else { 0nat }) + (if f.1
            as int == v { 1nat } else { 0nat }) + (if f.2 as int == v { 1nat } else { 0nat })
    }
}

pub open spec fn all_below(indices: Seq<u16>, n: int) -> bool {
    forall|k: int| 0 <= k < indices.len() ==> (indices[k] as int) < n
}

/// Relies on `Itertools::tuples` of itertools: it yields the items in consecutive groups
/// of three and drops a trailing group of fewer than three.
#[verifier::external_body]
fn index_triples(indices: &Vec<u16>) -> (r: Vec<(u16, u16, u16)>)
    ensures
        r@ == faces_of(indices@),
{
    indices.iter().copied().tuples().collect()
}

/// Whether every index of the buffer names one of `n_vertices` vertices.
pub fn indices_in_range(indices: &Vec<u16>, n_vertices: usize) -> (r: bool)
    ensures
        r == all_below(indices@, n_vertices as int),
{
    let mut k: usize = 0;
    while k < indices.len()
        invariant
            k <= indices@.len(),
            all_below(indices@.take(k as int), n_vertices as int),
        decreases indices@.len() - k,
    {
        if indices[k] as usize >= n_vertices {
            assert(indices@.take(k as int + 1)[k as int] == indices@[k as int]);
            return false;
        }
        assert(indices@.take(k as int + 1) =~= indices@.take(k as int).push(indices@[k as int]));
        k = k + 1;
    }
    assert(indices@.take(k as int) =~= indices@);
    true
}

/// The faces of a mesh and, for each vertex, the number of face corners that it takes.
pub struct MeshFaces {
    pub faces: Vec<(u16, u16, u16)>,
    pub counts: Vec<usize>,
}

/// Groups an index buffer into faces and counts, for each of `n_vertices` vertices, the
/// corners of faces that it takes.
pub fn mesh_faces(indices: &Vec<u16>, n_vertices: usize) -> (r: MeshFaces)
    requires
        all_below(indices@, n_vertices as int),
    ensures
        r.faces@ == faces_of(indices@),
        r.counts@.len() == n_vertices,
        forall|v: int| 0 <= v < n_vertices ==> r.counts@[v] == corners_at(r.faces@, v),
{
    let faces = index_triples(indices);
    let n_indices = indices.len();
    assert(faces@.len() == n_indices / 3);
    let mut counts: Vec<usize> = Vec::new();
    let mut v: usize = 0;
    while v < n_vertices
        invariant
            v <= n_vertices,
            counts@.len() == v,
            forall|w: int| 0 <= w < v ==> counts@[w] == 0,
        decreases n_vertices - v,
    {
        counts.push(0);
        v = v + 1;
    }
    let mut k: usize = 0;
    while k < faces.len()
        invariant
            faces@ == faces_of(indices@),
            faces@.len() == n_indices / 3,
            all_below(indices@, n_vertices as int),
            k <= faces@.len(),
            counts@.len() == n_vertices,
            forall|w: int| 0 <= w < n_vertices ==> counts@[w] == corners_at(faces@.take(k as int), w),
            forall|w: int| 0 <= w < n_vertices ==> counts@[w] <= 3 * k,
        decreases faces@.len() - k,
    {
        let (a, b, c) = faces[k];
        proof {
            assert(faces@[k as int] == face_at(indices@, k as int));
            assert(3 * k + 2 < indices@.len());
            assert(faces@.take(k as int + 1).drop_last() =~= faces@.take(k as int));
            assert(faces@.take(k as int + 1).last() == faces@[k as int]);
            assert(3 * (k + 1) <= n_indices) by (nonlinear_arith)
                requires
                    k < n_indices / 3,
            ;
        }
        counts.set(a as usize, counts[a as usize] + 1);
        counts.set(b as usize, counts[b as usize] + 1);
        counts.set(c as usize, counts[c as usize] + 1);
        k = k + 1;
    }
    assert(faces@.take(k as int) =~= faces@);
    MeshFaces { faces, counts }
}


/// Every corner of every face names one of `n` vertices.
pub open spec fn faces_below(faces: Seq<(u16, u16, u16)>, n: int) -> bool {
    forall|k: int|
        0 <= k < faces.len() ==> {
            &&& (faces[k].0 as int) < n
            &&& (faces[k].1 as int) < n
            &&& (faces[k].2 as int) < n
        }
}

/// The triangle of face `f` over the given buffers, before any hierarchy has placed it.
pub open spec fn tri_of(
    f: (u16, u16, u16),
    verts: Vec<Vec3>,
    norms: Vec<Vec3>,
    smooth: bool,
    t: Indexed<RefTri>,
) -> bool {
    &&& t.obj.a == f.0
    &&& t.obj.b == f.1
    &&& t.obj.c == f.2
    &&& *t.obj.verts == verts
    &&& *t.obj.norms == norms
    &&& t.obj.smooth == smooth
    &&& t.shape_idx == 0
}

/// One triangle per face, each sharing the mesh's vertex and normal buffers.
pub fn mesh_triangles(
    faces: &Vec<(u16, u16, u16)>,
    verts: &Arc<Vec<Vec3>>,
    norms: &Arc<Vec<Vec3>>,
    smooth: bool,
) -> (r: Vec<Indexed<RefTri>>)
    requires
        norms@.len() == verts@.len(),
        faces_below(faces@, verts@.len() as int),
    ensures
        r@.len() == faces@.len(),
        forall|k: int|
            0 <= k < r@.len() ==> {
                &&& tri_of(faces@[k], **verts, **norms, smooth, #[trigger] r@[k])
                &&& r@[k].obj.wf()
            },
{
    let mut tris: Vec<Indexed<RefTri>> = Vec::new();
    let mut k: usize = 0;
    while k < faces.len()
        invariant
            k <= faces@.len(),
            tris@.len() == k,
            norms@.len() == verts@.len(),
            faces_below(faces@, verts@.len() as int),
            forall|j: int|
                0 <= j < k ==> {
                    &&& tri_of(faces@[j], **verts, **norms, smooth, #[trigger] tris@[j])
                    &&& tris@[j].obj.wf()
                },
        decreases faces@.len() - k,
    {
        let (a, b, c) = faces[k];
        let tri = RefTri { verts: share(verts), norms: share(norms), a, b, c, smooth };
        tris.push(Indexed::new(tri));
        k = k + 1;
    }
    tris
}

} // verus!
