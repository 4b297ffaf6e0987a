//! Batches and the per-frame `Draw` container.

use vstd::prelude::*;
use crate::pipeline::{BlendMode, PipelineDescriptor};
use notan_graphics::color::Color;
use notan_math::Mat4;

verus! {

/// The payload kind tag of a batch, used to route it to the painter of its
/// kind and to label that painter's actions in the trace.
#[derive(Clone, Copy, Debug, PartialEq, Eq, Structural)]
pub enum PainterKind {
    Image,
    Shape,
    Pattern,
    Text,
}

/// A batch's payload: one of the four closed kinds, each carrying handles to
/// its kind-specific data (textures, queued glyph sections).
#[derive(Clone, Debug)]
pub enum BatchType {
    Image { texture: u64 },
    Shape,
    Pattern { texture: u64 },
    Text { sections: Vec<u64> },
}

impl BatchType {
    /// The kind tag of this payload.
    pub open spec fn spec_kind(self) -> PainterKind {
        match self {
            BatchType::Image { .. } => PainterKind::Image,
            BatchType::Shape => PainterKind::Shape,
            BatchType::Pattern { .. } => PainterKind::Pattern,
            BatchType::Text { .. } => PainterKind::Text,
        }
    }

    /// The kind tag of this payload.
    pub fn kind(&self) -> (r: PainterKind)
        ensures
            r == self.spec_kind(),
    {
        match self {
            BatchType::Image { .. } => PainterKind::Image,
            BatchType::Shape => PainterKind::Shape,
            BatchType::Pattern { .. } => PainterKind::Pattern,
            BatchType::Text { .. } => PainterKind::Text,
        }
    }
}

/// One contiguous, immutable group of same-kind draw operations sharing
/// render-state requirements. `is_mask` and `masking` are mutually exclusive
/// phases: a batch authors a stencil mask, or is clipped against one, or
/// neither.
#[derive(Clone, Debug)]
pub struct Batch {
    /// The payload and its kind.
    pub typ: BatchType,
    /// This batch stamps a stencil mask region rather than visible output.
    pub is_mask: bool,
    /// This batch is clipped against a previously established mask.
    pub masking: bool,
    /// The blend function this batch requests.
    pub blend_mode: BlendMode,
    /// Caller-supplied pipeline replacing the kind's default for this batch.
    pub pipeline: Option<PipelineDescriptor>,
    /// Extra per-batch uniform buffers bound right before the draw calls,
    /// identified by buffer handle.
    pub uniform_buffers: Option<Vec<u64>>,
}

/// The producer-owned container for one frame: completed batches in
/// rendering order, an optional in-progress batch treated as logically
/// last, and the per-pass parameters read once at the start of compositing.
pub struct Draw {
    /// Logical width of the target.
    pub width: i32,
    /// Logical height of the target.
    pub height: i32,
    /// Color the render pass clears to, if any.
    pub clear_color: Option<Color>,
    /// Projection applied to all geometry, if one was set.
    pub projection: Option<Mat4>,
    /// Completed batches, in rendering order.
    pub batches: Vec<Batch>,
    /// An in-progress batch, always treated as logically last.
    pub current_batch: Option<Batch>,
    /// For each queued text, the index of the batch that carries it; an
    /// index at or past `batches.len()` refers to `current_batch`.
    pub text_batch_indices: Option<Vec<usize>>,
}

/// The sequence a compositing pass walks: the completed batches followed by
/// the in-progress batch when one is present.
pub open spec fn logical_batches(draw: Draw) -> Seq<Batch> {
    match draw.current_batch {
        Some(b) => draw.batches@.push(b),
        None => draw.batches@,
    }
}

impl Draw {
    /// An empty frame of the given size: no batches, no clear color, no
    /// projection, no queued text.
    pub fn new(width: i32, height: i32) -> (r: Draw)
        ensures
            r.width == width,
            r.height == height,
            r.clear_color is None,
            r.projection is None,
            r.batches@ =~= Seq::<Batch>::empty(),
            r.current_batch is None,
            r.text_batch_indices is None,
    {
        Draw {
            width,
            height,
            clear_color: None,
            projection: None,
            batches: Vec::new(),
            current_batch: None,
            text_batch_indices: None,
        }
    }
}

} // verus!
