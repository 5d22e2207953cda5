//! A bounded 2D movement utility: one tick's worth of translation and
//! rotation for a square entity, clamped so that the entity's rotated
//! bounding box never leaves a rectangular arena centred at the origin.
//!
//! All geometry is carried in fixed-point scalars (see [`fixed`]): a scalar
//! `v` stands for the real quantity `v / 1_000_000`. The caller supplies the
//! cosine and sine of the post-tick orientation in the same fixed-point
//! form; everything else — direction composition, normalization, velocity
//! integration, the rotated bounding extent and the clamp — is computed and
//! verified here.

pub mod fixed;
pub mod laws;
pub mod mover;
