//! One vane as it stands in a single frame.
//!
//! A `Vane` holds the positions of the three corners and the two outward
//! normals that belong to the vane's current spin. The type `V` of a position
//! or direction is left to the caller: this module moves such values into the
//! places that a face assigns to them and never looks inside one.

use vstd::prelude::*;
use crate::face::{Corner, Face};
use crate::texture::{spec_texture_corners, TexturePoint};

verus! {

/// The corners and normals of one vane at its current spin.
///
/// The values are taken as given: whoever fills the fields in computes the
/// base corners from the vane's shape and spin, and the reverse normal as the
/// normal times the back face's normal sign.
#[derive(Debug, PartialEq)]
pub struct Vane<V> {
    /// The corner on the axis of rotation.
    pub tip: V,
    /// The base corner that follows the tip clockwise, seen from the front.
    pub corner1: V,
    /// The other base corner, opposite `corner1` across the base midpoint.
    pub corner2: V,
    /// Unit normal pointing outwards from the front face.
    pub normal: V,
    /// Unit normal pointing outwards from the back face: `normal` reversed.
    pub reverse_normal: V,
}

impl<V: Copy> Clone for Vane<V> {
    fn clone(&self) -> (r: Self)
        ensures
            r == *self,
    {
        *self
    }
}

impl<V: Copy> Copy for Vane<V> {

}

impl<V> Vane<V> {
    /// The position of the given corner.
    pub open spec fn spec_at(self, corner: Corner) -> V {
        match corner {
            Corner::Tip => self.tip,
            Corner::First => self.corner1,
            Corner::Second => self.corner2,
        }
    }

    /// The positions of the three corners as the given face lists them: the
    /// tip first on either face, then the base corners, which the back face
    /// lists the other way round than the front face.
    pub open spec fn spec_corners(self, face: Face) -> Seq<V> {
        match face {
            Face::Front => seq![self.tip, self.corner1, self.corner2],
            Face::Back => seq![self.tip, self.corner2, self.corner1],
        }
    }

    /// The outward normal of the given face.
    pub open spec fn spec_normal(self, face: Face) -> V {
        match face {
            Face::Front => self.normal,
            Face::Back => self.reverse_normal,
        }
    }
}

impl<V: Copy> Vane<V> {
    /// The position of the given corner.
    pub fn at(&self, corner: Corner) -> (r: V)
        ensures
            r == self.spec_at(corner),
    {
        match corner {
            Corner::Tip => self.tip,
            Corner::First => self.corner1,
            Corner::Second => self.corner2,
        }
    }

    /// The positions of the three corners of the given face, in the order in
    /// which the face lists them: clockwise when seen from outside that face.
    pub fn corners(&self, face: Face) -> (r: [V; 3])
        ensures
            r@ == self.spec_corners(face),
    {
        let order = face.corner_order();
        [self.at(order[0]), self.at(order[1]), self.at(order[2])]
    }

    /// The unit normal pointing outwards from the given face.
    pub fn normal(&self, face: Face) -> (r: V)
        ensures
            r == self.spec_normal(face),
    {
        match face {
            Face::Front => self.normal,
            Face::Back => self.reverse_normal,
        }
    }

    /// The places of the three corners of the given face in the vane's
    /// texture image, in the order in which the face lists the corners. They
    /// are the same for every vane and every spin.
    pub fn texture_corners(&self, face: Face) -> (r: [TexturePoint; 3])
        ensures
            r@ == spec_texture_corners(face),
            forall|k: int| 0 <= k < 3 ==> (#[trigger] r@[k]).in_image(),
    {
        let order = face.corner_order();
        [order[0].texture(), order[1].texture(), order[2].texture()]
    }
}

/// In each place of a face's listing stands the position of the corner that
/// the face lists there.
pub proof fn lemma_corners_follow_order<V>(vane: Vane<V>, face: Face, k: int)
    requires
        0 <= k < 3,
    ensures
        vane.spec_corners(face).len() == 3,
        vane.spec_corners(face)[k] == vane.spec_at(face.spec_corner_order()[k]),
{
}

/// The two faces of a vane share the tip as their first corner, and the back
/// face lists the two base corners in the reverse of the front face's order.
pub proof fn lemma_faces_share_tip_and_swap_base<V>(vane: Vane<V>)
    ensures
        vane.spec_corners(Face::Front)[0] == vane.spec_corners(Face::Back)[0],
        vane.spec_corners(Face::Front)[0] == vane.tip,
        vane.spec_corners(Face::Front).subrange(1, 3)
            == vane.spec_corners(Face::Back).subrange(1, 3).reverse(),
{
    let front = vane.spec_corners(Face::Front).subrange(1, 3);
    let back = vane.spec_corners(Face::Back).subrange(1, 3).reverse();
    assert(front =~= back);
}

/// The outward normal of a face is the vane's normal where the face's normal
/// sign is +1 and the reversed normal where it is -1; the two faces of a vane
/// therefore carry the two normals the other way round.
pub proof fn lemma_normal_follows_sign<V>(vane: Vane<V>, face: Face)
    ensures
        face.spec_normal_sign() == 1 ==> vane.spec_normal(face) == vane.normal,
        face.spec_normal_sign() == -1 ==> vane.spec_normal(face) == vane.reverse_normal,
        vane.spec_normal(face.spec_opposite()) == (if face.spec_normal_sign() == 1 {
            vane.reverse_normal
        } else {
            vane.normal
        }),
{
}

} // verus!
