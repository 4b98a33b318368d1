//! The combinatorial half of a windmill renderer.
//!
//! A windmill is a set of triangular vanes that spin about their own axes.
//! Each vane is drawn from both sides, textured, and outlined. This crate
//! decides everything about a frame that does not need arithmetic on
//! coordinates: in which order each side lists the corners of its triangle,
//! which normal and which texture points go with them, how the vertices of
//! all vanes are laid out in one stream, which indices draw the outlines, and
//! which rate and phase drive the spin of each vane.
//!
//! Positions and directions pass through as values of a type that the
//! caller chooses; nothing here computes with them.

pub mod face;
pub mod frame;
pub mod spin;
pub mod texture;
pub mod vane;

pub use face::{Corner, Face};
pub use frame::{assemble, border_indices, face_vertices, Frame, Vertex, MAX_VANES};
pub use spin::{spin_terms, Rate, SpinTerms, PRIMARY_VANES};
pub use texture::{TexturePoint, TEXTURE_UNITS};
pub use vane::Vane;
