//! Declarations of the outside graphics-math value types that a `Draw` carries
//! through the compositing pass. Both are opaque here: the compositor only
//! stores and forwards them, it never reads their contents.

use vstd::prelude::*;

verus! {

/// Relies on notan_graphics's `Color` (four channel values); carried through
/// as the clear color of a render pass, never inspected.
#[verifier::external_type_specification]
#[verifier::external_body]
pub struct ExColor(notan_graphics::color::Color);

/// Relies on notan_math's `Mat4` (a 4x4 transform); carried through as the
/// per-draw projection handed to the geometry painters, never inspected.
#[verifier::external_type_specification]
#[verifier::external_body]
pub struct ExMat4(notan_math::Mat4);

} // verus!
