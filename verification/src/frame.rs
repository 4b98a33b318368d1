//! Assembly of one frame's vertex stream and border index list.
//!
//! The vertex stream holds three vertices for the front face of every vane,
//! in scene order, and then three vertices for the back face of every vane,
//! again in scene order. Drawn as a plain triangle list it fills both sides of
//! every vane. The first half, the front block, doubles as the vertex source
//! for the outlines: the border index list names, for every vane, the two ends
//! of each of the three edges of its front triangle.

use vstd::prelude::*;
use vstd::slice::slice_subrange;
use crate::face::Face;
use crate::texture::{spec_texture_corners, TexturePoint};
use crate::vane::Vane;

verus! {

/// The largest number of vanes whose front block can be indexed with `u16`.
pub const MAX_VANES: usize = 21845;

/// One vertex of the stream.
#[derive(Debug, PartialEq)]
pub struct Vertex<V> {
    /// Where the vertex lies.
    pub position: V,
    /// Outward normal of the face that the vertex belongs to.
    pub normal: V,
    /// Where the vertex lies in the vane's texture image.
    pub texture: TexturePoint,
}

impl<V: Copy> Clone for Vertex<V> {
    fn clone(&self) -> (r: Self)
        ensures
            r == *self,
    {
        *self
    }
}

impl<V: Copy> Copy for Vertex<V> {

}

/// The vertex in place `k` of the given face of a vane.
pub open spec fn spec_face_vertex<V>(vane: Vane<V>, face: Face, k: int) -> Vertex<V> {
    Vertex {
        position: vane.spec_corners(face)[k],
        normal: vane.spec_normal(face),
        texture: spec_texture_corners(face)[k],
    }
}

/// The three vertices of the given face of a vane.
pub open spec fn spec_face_vertices<V>(vane: Vane<V>, face: Face) -> Seq<Vertex<V>> {
    Seq::new(3, |k: int| spec_face_vertex(vane, face, k))
}

/// The block of vertices that holds the given face of every vane: three
/// vertices per vane, the vanes in scene order.
pub open spec fn spec_block<V>(vanes: Seq<Vane<V>>, face: Face) -> Seq<Vertex<V>> {
    Seq::new(3 * vanes.len(), |p: int| spec_face_vertex(vanes[p / 3], face, p % 3))
}

/// The whole vertex stream: the front block, then the back block.
pub open spec fn spec_vertices<V>(vanes: Seq<Vane<V>>) -> Seq<Vertex<V>> {
    spec_block(vanes, Face::Front) + spec_block(vanes, Face::Back)
}

/// Which corner of a triangle stands in place `slot` of its outline. The
/// outline lists the edges (0, 1), (1, 2), (2, 0), each by its two ends, so
/// edge `e` runs from corner `e` to corner `e + 1`, counted round the triangle.
pub open spec fn spec_outline_corner(slot: int) -> int
    recommends
        0 <= slot < 6,
{
    (slot / 2 + slot % 2) % 3
}

/// Entry `p` of the border index list: six entries per vane, which name the
/// vertices of that vane's front triangle within the front block.
pub open spec fn spec_border_index(p: int) -> int
    recommends
        0 <= p,
{
    3 * (p / 6) + spec_outline_corner(p % 6)
}

/// The border index list of a scene of `vane_count` vanes.
pub open spec fn spec_border_indices(vane_count: nat) -> Seq<int> {
    Seq::new(6 * vane_count, |p: int| spec_border_index(p))
}

/// The numbers that a list of indices holds.
pub open spec fn index_values(indices: Seq<u16>) -> Seq<int> {
    Seq::new(indices.len(), |p: int| indices[p] as int)
}

/// The three vertices of one face of a vane, in the order in which the face
/// lists its corners. All three carry the face's outward normal.
pub fn face_vertices<V: Copy>(vane: &Vane<V>, face: Face) -> (r: [Vertex<V>; 3])
    ensures
        r@ == spec_face_vertices(*vane, face),
{
    let positions = vane.corners(face);
    let normal = vane.normal(face);
    let textures = vane.texture_corners(face);
    [
        Vertex { position: positions[0], normal, texture: textures[0] },
        Vertex { position: positions[1], normal, texture: textures[1] },
        Vertex { position: positions[2], normal, texture: textures[2] },
    ]
}

/// Appends to `vertices` the block that holds the given face of every vane.
fn append_block<V: Copy>(vertices: &mut Vec<Vertex<V>>, vanes: &Vec<Vane<V>>, face: Face)
    requires
        old(vertices)@.len() + 3 * vanes@.len() <= usize::MAX,
    ensures
        final(vertices)@ == old(vertices)@ + spec_block(vanes@, face),
{
    let ghost before = vertices@;
    let mut i: usize = 0;
    while i < vanes.len()
        invariant
            i <= vanes@.len(),
            before == old(vertices)@,
            before.len() + 3 * vanes@.len() <= usize::MAX,
            vertices@.len() == before.len() + 3 * i,
            forall|p: int| 0 <= p < before.len() ==> vertices@[p] == before[p],
            forall|q: int|
                before.len() <= q < before.len() + 3 * i ==> vertices@[q] == spec_face_vertex(
                    vanes@[(q - before.len()) / 3],
                    face,
                    (q - before.len()) % 3,
                ),
        decreases vanes@.len() - i,
    {
        let triangle = face_vertices(&vanes[i], face);
        vertices.push(triangle[0]);
        vertices.push(triangle[1]);
        vertices.push(triangle[2]);
        i += 1;
    }
    assert(vertices@ =~= before + spec_block(vanes@, face));
}

/// The border index list for a scene of `vane_count` vanes: for each vane in
/// scene order the six indices `b, b+1, b+1, b+2, b+2, b`, where `b` is three
/// times the vane's place in the scene. Read in pairs they are the three edges
/// of the vane's front triangle, as a line list over the front block.
pub fn border_indices(vane_count: usize) -> (r: Vec<u16>)
    requires
        vane_count <= MAX_VANES,
    ensures
        index_values(r@) == spec_border_indices(vane_count as nat),
        r@.len() == 6 * vane_count,
        forall|p: int| 0 <= p < r@.len() ==> r@[p] < 3 * vane_count,
{
    let mut indices: Vec<u16> = Vec::new();
    let mut i: usize = 0;
    let mut base: u16 = 0;
    while i < vane_count
        invariant
            i <= vane_count <= MAX_VANES,
            base == 3 * i,
            indices@.len() == 6 * i,
            forall|p: int| 0 <= p < 6 * i ==> indices@[p] == spec_border_index(p),
        decreases vane_count - i,
    {
        indices.push(base);
        indices.push(base + 1);
        indices.push(base + 1);
        indices.push(base + 2);
        indices.push(base + 2);
        indices.push(base);
        i += 1;
        base += 3;
    }
    proof {
        assert(index_values(indices@) =~= spec_border_indices(vane_count as nat));
        lemma_border_indices_in_front_block(vane_count as nat);
        assert forall|p: int| 0 <= p < indices@.len() implies indices@[p] < 3 * vane_count by {
            assert(indices@[p] == spec_border_indices(vane_count as nat)[p]);
        }
    }
    indices
}

/// The vertices and border indices of one frame.
#[derive(Debug)]
pub struct Frame<V> {
    vertices: Vec<Vertex<V>>,
    border_indices: Vec<u16>,
}

/// What a frame holds, as plain sequences.
pub struct FrameView<V> {
    /// The vertex stream: front block, then back block.
    pub vertices: Seq<Vertex<V>>,
    /// The numbers in the border index list.
    pub border_indices: Seq<int>,
}

impl<V> View for Frame<V> {
    type V = FrameView<V>;

    closed spec fn view(&self) -> FrameView<V> {
        FrameView {
            vertices: self.vertices@,
            border_indices: index_values(self.border_indices@),
        }
    }
}

impl<V> Frame<V> {
    /// A frame holds six vertices for every vane, and the border index list
    /// that belongs to that number of vanes.
    #[verifier::type_invariant]
    spec fn well_formed(self) -> bool {
        &&& self.vertices@.len() % 6 == 0
        &&& self.vertices@.len() / 6 <= MAX_VANES
        &&& index_values(self.border_indices@) == spec_border_indices(
            (self.vertices@.len() / 6) as nat,
        )
    }

    /// Number of vanes that the frame was assembled from.
    pub open spec fn spec_vane_count(self) -> nat {
        (self@.vertices.len() / 6) as nat
    }

    /// Number of vanes that the frame was assembled from.
    pub fn vane_count(&self) -> (n: usize)
        ensures
            n == self.spec_vane_count(),
            n <= MAX_VANES,
            self@.vertices.len() == 6 * n,
            self@.border_indices == spec_border_indices(n as nat),
    {
        proof {
            use_type_invariant(self);
        }
        self.vertices.len() / 6
    }

    /// The whole vertex stream, to be drawn as a triangle list without
    /// indices: every three consecutive vertices are one face of one vane.
    pub fn vertices(&self) -> (r: &[Vertex<V>])
        ensures
            r@ == self@.vertices,
            r@.len() == 6 * self.spec_vane_count(),
    {
        proof {
            use_type_invariant(self);
        }
        self.vertices.as_slice()
    }

    /// The front block: the first half of the vertex stream, which holds the
    /// front face of every vane. It is the vertex source for the border
    /// index list.
    pub fn front_block(&self) -> (r: &[Vertex<V>])
        ensures
            r@ == self@.vertices.subrange(0, 3 * self.spec_vane_count() as int),
            r@.len() == 3 * self.spec_vane_count(),
    {
        proof {
            use_type_invariant(self);
        }
        let n: usize = self.vertices.len() / 2;
        slice_subrange(self.vertices.as_slice(), 0, n)
    }

    /// The border index list, to be drawn as a line list over the front
    /// block. Every index lies within the front block.
    pub fn border_indices(&self) -> (r: &[u16])
        ensures
            index_values(r@) == self@.border_indices,
            self@.border_indices == spec_border_indices(self.spec_vane_count()),
            r@.len() == 6 * self.spec_vane_count(),
            forall|p: int| 0 <= p < r@.len() ==> r@[p] < 3 * self.spec_vane_count(),
    {
        proof {
            use_type_invariant(self);
            lemma_border_indices_in_front_block(self.spec_vane_count());
            let n = self.spec_vane_count();
            assert(index_values(self.border_indices@).len() == 6 * n);
            assert forall|p: int| 0 <= p < self.border_indices@.len() implies self.border_indices@[p]
                < 3 * n by {
                assert(index_values(self.border_indices@)[p] == self.border_indices@[p]);
                assert(self.border_indices@[p] == spec_border_indices(n)[p]);
            }
        }
        self.border_indices.as_slice()
    }
}

/// Assembles the frame for the given vanes, taken in scene order: the vertex
/// stream with the front face of every vane and then the back face of every
/// vane, and the border index list over the front faces.
pub fn assemble<V: Copy>(vanes: &Vec<Vane<V>>) -> (frame: Frame<V>)
    requires
        vanes@.len() <= MAX_VANES,
    ensures
        frame@.vertices == spec_vertices(vanes@),
        frame@.border_indices == spec_border_indices(vanes@.len()),
        frame.spec_vane_count() == vanes@.len(),
{
    let mut vertices: Vec<Vertex<V>> = Vec::new();
    append_block(&mut vertices, vanes, Face::Front);
    append_block(&mut vertices, vanes, Face::Back);
    let border_indices = border_indices(vanes.len());
    assert(vertices@ =~= spec_vertices(vanes@));
    Frame { vertices, border_indices }
}

/// The vertex stream of `n` vanes has `6 n` vertices and its border index
/// list has `6 n` entries.
pub proof fn lemma_frame_sizes<V>(vanes: Seq<Vane<V>>)
    ensures
        spec_block(vanes, Face::Front).len() == 3 * vanes.len(),
        spec_block(vanes, Face::Back).len() == 3 * vanes.len(),
        spec_vertices(vanes).len() == 6 * vanes.len(),
        spec_border_indices(vanes.len()).len() == 6 * vanes.len(),
{
}

/// The first half of the vertex stream is the front block and the second
/// half is the back block.
pub proof fn lemma_stream_is_front_then_back<V>(vanes: Seq<Vane<V>>)
    ensures
        spec_vertices(vanes).subrange(0, 3 * vanes.len() as int) == spec_block(
            vanes,
            Face::Front,
        ),
        spec_vertices(vanes).subrange(3 * vanes.len() as int, 6 * vanes.len() as int) == spec_block(
            vanes,
            Face::Back,
        ),
{
    let n = vanes.len() as int;
    let all = spec_vertices(vanes);
    assert(all.subrange(0, 3 * n) =~= spec_block(vanes, Face::Front));
    assert(all.subrange(3 * n, 6 * n) =~= spec_block(vanes, Face::Back));
}

/// Read as a triangle list, the stream holds one triangle per vane and face:
/// triangle `i` is the front face of vane `i`, and triangle `n + i` is the
/// back face of vane `i`, where `n` is the number of vanes.
pub proof fn lemma_stream_triangles<V>(vanes: Seq<Vane<V>>, i: int)
    requires
        0 <= i < vanes.len(),
    ensures
        spec_vertices(vanes).subrange(3 * i, 3 * i + 3) == spec_face_vertices(
            vanes[i],
            Face::Front,
        ),
        spec_vertices(vanes).subrange(3 * (vanes.len() + i), 3 * (vanes.len() + i) + 3)
            == spec_face_vertices(vanes[i], Face::Back),
{
    let n = vanes.len() as int;
    let all = spec_vertices(vanes);
    let front = all.subrange(3 * i, 3 * i + 3);
    let back = all.subrange(3 * (n + i), 3 * (n + i) + 3);
    assert forall|k: int| 0 <= k < 3 implies front[k] == spec_face_vertex(
        vanes[i],
        Face::Front,
        k,
    ) by {
        assert(front[k] == spec_block(vanes, Face::Front)[3 * i + k]);
    }
    assert forall|k: int| 0 <= k < 3 implies back[k] == spec_face_vertex(vanes[i], Face::Back, k) by {
        assert(back[k] == spec_block(vanes, Face::Back)[3 * i + k]);
    }
    assert(front =~= spec_face_vertices(vanes[i], Face::Front));
    assert(back =~= spec_face_vertices(vanes[i], Face::Back));
}

/// Every entry of the border index list of `vane_count` vanes names a vertex
/// of the front block: it is at least 0 and less than three times the number
/// of vanes.
pub proof fn lemma_border_indices_in_front_block(vane_count: nat)
    ensures
        forall|p: int|
            0 <= p < 6 * vane_count ==> 0 <= #[trigger] spec_border_indices(vane_count)[p] < 3
                * vane_count,
{
}

/// Every entry of the border index list addresses, within the front block, a
/// vertex of the front face of the vane it belongs to: entry `p` belongs to
/// vane `p / 6` and addresses the corner of that vane's front triangle which
/// the outline lists in place `p % 6`. Each pair of entries is therefore one
/// edge of one front triangle, drawn over the very vertices that fill it.
pub proof fn lemma_border_indices_address_front_faces<V>(vanes: Seq<Vane<V>>, p: int)
    requires
        0 <= p < 6 * vanes.len(),
    ensures
        0 <= spec_border_indices(vanes.len())[p] < spec_block(vanes, Face::Front).len(),
        0 <= spec_outline_corner(p % 6) < 3,
        spec_block(vanes, Face::Front)[spec_border_indices(vanes.len())[p]] == spec_face_vertex(
            vanes[p / 6],
            Face::Front,
            spec_outline_corner(p % 6),
        ),
{
    let x = spec_border_indices(vanes.len())[p];
    assert(x == 3 * (p / 6) + spec_outline_corner(p % 6));
    assert(x / 3 == p / 6);
    assert(x % 3 == spec_outline_corner(p % 6));
}

/// The six border indices of vane `i` are `b, b+1, b+1, b+2, b+2, b` with
/// `b = 3 i`: the edges from the first to the second, from the second to the
/// third, and from the third back to the first vertex of its front triangle.
pub proof fn lemma_border_indices_of_vane(vane_count: nat, i: int)
    requires
        0 <= i < vane_count,
    ensures
        spec_border_indices(vane_count).subrange(6 * i, 6 * i + 6) == seq![
            3 * i,
            3 * i + 1,
            3 * i + 1,
            3 * i + 2,
            3 * i + 2,
            3 * i,
        ],
{
    let part = spec_border_indices(vane_count).subrange(6 * i, 6 * i + 6);
    let expected = seq![3 * i, 3 * i + 1, 3 * i + 1, 3 * i + 2, 3 * i + 2, 3 * i];
    assert forall|k: int| 0 <= k < 6 implies part[k] == expected[k] by {
        assert(part[k] == spec_border_index(6 * i + k));
    }
    assert(part =~= expected);
}

} // verus!
