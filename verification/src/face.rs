//! The two sides of a vane, the three corners of its triangle, and the
//! conventions that tie them together: in which order a side lists the
//! corners, and whether its normal keeps or reverses the front normal.
//!
//! Everything here is combinatorial. Coordinates are computed elsewhere; this
//! module only says which corner goes where and with which sign.

use vstd::prelude::*;

verus! {

/// One side of a vane's triangular surface.
#[derive(Clone, Copy, Debug, PartialEq, Eq, Structural)]
pub enum Face {
    /// The side whose outward normal is the vane's own normal.
    Front,
    /// The side whose outward normal is the reverse of the vane's normal.
    Back,
}

/// A corner of a vane's triangle, named by where it lies on the vane and not
/// by the place in which a face lists it.
#[derive(Clone, Copy, Debug, PartialEq, Eq, Structural)]
pub enum Corner {
    /// The corner on the axis of rotation.
    Tip,
    /// The base corner that follows the tip clockwise, seen from the front.
    First,
    /// The remaining base corner, opposite `First` across the base midpoint.
    Second,
}

impl Corner {
    /// Position of the corner in the front face's listing: 0, 1 or 2.
    pub open spec fn rank(self) -> int {
        match self {
            Corner::Tip => 0,
            Corner::First => 1,
            Corner::Second => 2,
        }
    }
}

/// +1 where `a` comes before `b` in the front listing, -1 where it comes
/// after, 0 where they are the same corner.
pub open spec fn pair_sign(a: Corner, b: Corner) -> int {
    if a.rank() < b.rank() {
        1
    } else if a.rank() > b.rank() {
        -1
    } else {
        0
    }
}

/// Sign of a listing of three corners as a permutation of the front listing:
/// +1 for an even permutation, -1 for an odd one, 0 if a corner repeats.
pub open spec fn winding_sign(order: Seq<Corner>) -> int
    recommends
        order.len() == 3,
{
    pair_sign(order[0], order[1]) * pair_sign(order[0], order[2]) * pair_sign(order[1], order[2])
}

impl Face {
    /// The other side of the same vane.
    pub open spec fn spec_opposite(self) -> Face {
        match self {
            Face::Front => Face::Back,
            Face::Back => Face::Front,
        }
    }

    /// The order in which this face lists the corners. Seen from outside the
    /// face, the listing runs clockwise: the back face therefore lists the two
    /// base corners the other way round.
    pub open spec fn spec_corner_order(self) -> Seq<Corner> {
        match self {
            Face::Front => seq![Corner::Tip, Corner::First, Corner::Second],
            Face::Back => seq![Corner::Tip, Corner::Second, Corner::First],
        }
    }

    /// Factor by which the vane's normal is multiplied to give this face's
    /// outward normal.
    pub open spec fn spec_normal_sign(self) -> int {
        match self {
            Face::Front => 1,
            Face::Back => -1,
        }
    }

    /// The order in which this face lists the corners of the triangle.
    pub fn corner_order(self) -> (r: [Corner; 3])
        ensures
            r@ == self.spec_corner_order(),
    {
        match self {
            Face::Front => [Corner::Tip, Corner::First, Corner::Second],
            Face::Back => [Corner::Tip, Corner::Second, Corner::First],
        }
    }

    /// +1 for the front face, -1 for the back face: the factor that turns the
    /// vane's normal into this face's outward normal.
    pub fn normal_sign(self) -> (r: i8)
        ensures
            r == self.spec_normal_sign(),
    {
        match self {
            Face::Front => 1,
            Face::Back => -1,
        }
    }
}

/// The normal signs of the two sides of a vane are exact negations of each
/// other, and each is +1 or -1.
pub proof fn lemma_normal_signs_are_opposite(face: Face)
    ensures
        face.spec_opposite().spec_normal_sign() == -face.spec_normal_sign(),
        face.spec_normal_sign() == 1 || face.spec_normal_sign() == -1,
{
}

/// Every face lists each corner of the triangle exactly once.
pub proof fn lemma_corner_order_is_permutation(face: Face, corner: Corner)
    ensures
        face.spec_corner_order().len() == 3,
        exists|k: int| 0 <= k < 3 && face.spec_corner_order()[k] == corner,
        forall|j: int, k: int|
            0 <= j < 3 && 0 <= k < 3 && face.spec_corner_order()[j] == face.spec_corner_order()[k]
                ==> j == k,
{
    let order = face.spec_corner_order();
    match face {
        Face::Front => {
            assert(order[corner.rank()] == corner);
        },
        Face::Back => {
            let k = if corner.rank() == 0 { 0int } else { 3 - corner.rank() };
            assert(order[k] == corner);
        },
    }
}

/// A face lists the corners in an even permutation of the front listing
/// where its normal sign is +1 and in an odd one where it is -1: on either
/// face the sign of the listing times the normal sign is +1.
pub proof fn lemma_winding_follows_normal(face: Face)
    ensures
        winding_sign(face.spec_corner_order()) == face.spec_normal_sign(),
        winding_sign(face.spec_corner_order()) * face.spec_normal_sign() == 1,
{
    let order = face.spec_corner_order();
    assert(pair_sign(order[0], order[1]) == 1);
    assert(pair_sign(order[0], order[2]) == 1);
    assert(pair_sign(order[1], order[2]) == face.spec_normal_sign());
}

} // verus!
