//! Batch compositor and pipeline-state resolver for an ordered stream of 2D
//! draw batches, together with the window configuration builder.
//!
//! The compositor walks a `Draw`'s batch sequence, toggles a stencil-based
//! masking region between batches, resolves per-batch pipeline variants for
//! masking and blend-mode overrides, and routes each batch to the painter of
//! its kind. The pass is modeled as the ordered trace of outward actions
//! (render-pass framing, pipeline and buffer binds, paints, buffer uploads)
//! that a GPU command recorder then performs.

pub mod batch;
pub mod config;
pub mod events;
pub mod externals;
pub mod glyphs;
pub mod laws;
pub mod manager;
pub mod painter;
pub mod pipeline;
