//! How the spin of each vane follows the global spin of the scene.
//!
//! The spin of the vane at place `i` of the scene is the global spin times
//! the vane's rate, plus the vane's phase. Which rate and which phase belong
//! to a place is decided here; the arithmetic on angles is the caller's.

use vstd::prelude::*;

verus! {

/// Number of vanes in the primary group, which spins at the full rate: the
/// vanes of the first windmill.
pub const PRIMARY_VANES: usize = 3;

/// The factor by which a vane scales the global spin.
#[derive(Clone, Copy, Debug, PartialEq, Eq, Structural)]
pub enum Rate {
    /// The vane turns with the global spin.
    Full,
    /// The vane turns at half the global spin.
    Half,
}

/// Rate and phase of one vane.
#[derive(Clone, Copy, Debug, PartialEq, Eq, Structural)]
pub struct SpinTerms {
    /// Factor applied to the global spin.
    pub rate: Rate,
    /// Angle added after scaling, in whole radians.
    pub phase: usize,
}

/// Rate and phase of the vane at place `index` of the scene. The vanes of the
/// primary group spin at the full rate and all later ones at half of it; each
/// vane is offset by as many radians as its place says, so that no two vanes
/// move in step.
pub open spec fn spec_spin_terms(index: usize) -> SpinTerms {
    SpinTerms { rate: if index >= PRIMARY_VANES { Rate::Half } else { Rate::Full }, phase: index }
}

/// Rate and phase of the vane at place `index` of the scene.
pub fn spin_terms(index: usize) -> (r: SpinTerms)
    ensures
        r == spec_spin_terms(index),
{
    let rate = if index >= PRIMARY_VANES {
        Rate::Half
    } else {
        Rate::Full
    };
    SpinTerms { rate, phase: index }
}

/// The phase of a vane is its place in the scene, so the vanes of a scene
/// have pairwise different phases; and the rate never rises along the scene.
pub proof fn lemma_spin_terms_by_place(i: usize, j: usize)
    ensures
        spec_spin_terms(i).phase == i,
        i != j ==> spec_spin_terms(i).phase != spec_spin_terms(j).phase,
        i <= j && spec_spin_terms(i).rate == Rate::Half ==> spec_spin_terms(j).rate == Rate::Half,
        spec_spin_terms(i).rate == Rate::Full <==> i < PRIMARY_VANES,
{
}

} // verus!
