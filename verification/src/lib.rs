//! Portal geometry and teleportation kernel.
//!
//! This library models the spatial core of a first-person game's portal
//! mechanic: composing the rigid map that carries poses from one portal's
//! frame into its linked partner's frame, deriving the oblique near-clipping
//! plane a portal camera renders with, placing a freshly fired portal against
//! level geometry, detecting plane crossings and applying the teleport to
//! props and to the player, and gating collision filters while an entity
//! overlaps a portal volume.
//!
//! All geometry is exact integer arithmetic in fixed-point units of one
//! thousandth of a world unit ("millis"). A rigid placement is a homogeneous
//! triple `(r, t, s)` acting as `x |-> (r x + t) / s`, where `r` is an
//! integer matrix satisfying `r * transpose(r) == s^2 * identity`. Composing
//! such triples never divides, so every transform the library produces is
//! exact and the round-trip and clip-plane laws hold with equality rather
//! than up to floating-point tolerance. The surrounding engine owns the
//! irrational steps (normalising axes into a rotation, trigonometry for the
//! camera) and hands their results in as plain integer data.

pub mod gating;
pub mod geometry;
pub mod lifecycle;
pub mod mat;
pub mod orientation;
pub mod params;
pub mod projection;
pub mod rounding;
pub mod sync;
pub mod teleport;
pub mod timing;
pub mod vec;
pub mod xform;
