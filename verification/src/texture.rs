//! Where each corner of a vane lies in the vane's texture image.
//!
//! Texture coordinates are kept as whole hundredths of the image's width and
//! height, which is exact for every value the vane texture uses.

use vstd::prelude::*;
use crate::face::{Corner, Face};

verus! {

/// Number of texture units that span the whole image in either direction.
pub const TEXTURE_UNITS: u8 = 100;

/// A point of the texture image: `u` hundredths of the way along the image's
/// first axis and `v` hundredths of the way along its second axis.
#[derive(Clone, Copy, Debug, PartialEq, Eq, Structural)]
pub struct TexturePoint {
    pub u: u8,
    pub v: u8,
}

impl TexturePoint {
    /// The point lies within the image, edges included.
    pub open spec fn in_image(self) -> bool {
        self.u <= TEXTURE_UNITS && self.v <= TEXTURE_UNITS
    }
}

impl Corner {
    /// The texture point pinned to this corner of the vane: the tip halfway
    /// along the first axis and close to the start of the second, the two base
    /// corners close to the end of the second axis and to either end of the
    /// first. A margin of five hundredths keeps all three off the image's edge.
    pub open spec fn spec_texture(self) -> TexturePoint {
        match self {
            Corner::Tip => (TexturePoint { u: 50, v: 5 }),
            Corner::First => (TexturePoint { u: 95, v: 95 }),
            Corner::Second => (TexturePoint { u: 5, v: 95 }),
        }
    }

    /// The texture point pinned to this corner of the vane.
    pub fn texture(self) -> (r: TexturePoint)
        ensures
            r == self.spec_texture(),
            r.in_image(),
    {
        match self {
            Corner::Tip => TexturePoint { u: 50, v: 5 },
            Corner::First => TexturePoint { u: 95, v: 95 },
            Corner::Second => TexturePoint { u: 5, v: 95 },
        }
    }
}

/// The three texture points of a face, in the order in which the face lists
/// its corners. They depend on the face alone, not on the vane's shape or
/// spin.
pub open spec fn spec_texture_corners(face: Face) -> Seq<TexturePoint> {
    match face {
        Face::Front => seq![
            (TexturePoint { u: 50, v: 5 }),
            (TexturePoint { u: 95, v: 95 }),
            (TexturePoint { u: 5, v: 95 }),
        ],
        Face::Back => seq![
            (TexturePoint { u: 50, v: 5 }),
            (TexturePoint { u: 5, v: 95 }),
            (TexturePoint { u: 95, v: 95 }),
        ],
    }
}

/// On either face, the texture point in each place is the one pinned to the
/// corner that the face lists in that place. The image is therefore attached
/// to the vane itself: a corner carries the same texture point whichever side
/// it is seen from.
pub proof fn lemma_texture_follows_corners(face: Face, k: int)
    requires
        0 <= k < 3,
    ensures
        spec_texture_corners(face).len() == 3,
        spec_texture_corners(face)[k] == face.spec_corner_order()[k].spec_texture(),
        spec_texture_corners(face)[k].in_image(),
{
}

} // verus!
