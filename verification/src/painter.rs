//! The per-kind painter model: each painter owns its kind's default
//! pipeline and the buffer state it accumulates over one frame.

use vstd::prelude::*;
use crate::batch::{Batch, PainterKind};
use crate::events::{DrawEvent, pipeline_bind_events};
use crate::pipeline::{PipelineDescriptor, resolve_pipeline};

verus! {

/// Binds the pipeline a batch must draw with — the batch's own override
/// when it carries one, else the given default, run through mask and blend
/// derivation — then any uniform buffers the batch carries, in order.
pub fn process_pipeline(
    events: &mut Vec<DrawEvent>,
    batch: &Batch,
    default_pipeline: &PipelineDescriptor,
) ensures
        final(events)@ == old(events)@ + pipeline_bind_events(*batch, *default_pipeline),
{
    let base = match &batch.pipeline {
        Some(pip) => pip,
        None => default_pipeline,
    };
    let final_pip = resolve_pipeline(base, batch.is_mask, batch.masking, batch.blend_mode);
    events.push(DrawEvent::BindPipeline { pipeline: final_pip });
    if let Some(buffers) = &batch.uniform_buffers {
        let ghost bound = events@;
        let mut i: usize = 0;
        while i < buffers.len()
            invariant
                i <= buffers.len(),
                events@ =~= bound + Seq::new(
                    i as nat,
                    |j: int| DrawEvent::BindBuffer { buffer: buffers@[j] },
                ),
            decreases buffers.len() - i,
        {
            events.push(DrawEvent::BindBuffer { buffer: buffers[i] });
            i += 1;
        }
    }
    assert(final(events)@ =~= old(events)@ + pipeline_bind_events(*batch, *default_pipeline));
}

/// One payload kind's accumulator: it owns that kind's default pipeline and
/// gathers geometry over a frame, to be flushed to the device in a single
/// upload.
pub struct Painter {
    /// Which payload kind this painter accepts.
    pub kind: PainterKind,
    /// The default pipeline for this kind.
    pub pipeline: PipelineDescriptor,
    /// Batches accumulated in the buffers since the last clear.
    pub pending: usize,
    /// Buffer uploads performed over this painter's lifetime.
    pub uploads: u64,
}

impl Painter {
    /// A fresh painter of the given kind with its default pipeline and
    /// empty buffers.
    pub fn new(kind: PainterKind, pipeline: PipelineDescriptor) -> (r: Painter)
        ensures
            r.kind == kind,
            r.pipeline == pipeline,
            r.pending == 0,
            r.uploads == 0,
    {
        Painter { kind, pipeline, pending: 0, uploads: 0 }
    }

    /// Discards the prior frame's accumulated geometry.
    pub fn clear(&mut self)
        ensures
            *final(self) == (Painter { pending: 0, ..*old(self) }),
    {
        self.pending = 0;
    }

    /// Accepts one batch of this painter's kind: binds its resolved
    /// pipeline (and uniform buffers), appends the batch to the
    /// accumulated geometry and emits its paint against the bound state.
    pub fn push(&mut self, events: &mut Vec<DrawEvent>, batch: &Batch)
        requires
            old(self).pending < usize::MAX,
            batch.typ.spec_kind() == old(self).kind,
        ensures
            *final(self) == (Painter { pending: (old(self).pending + 1) as usize, ..*old(self) }),
            final(events)@ == old(events)@ + pipeline_bind_events(*batch, old(self).pipeline)
                + seq![DrawEvent::Paint { kind: old(self).kind }],
    {
        process_pipeline(events, batch, &self.pipeline);
        events.push(DrawEvent::Paint { kind: self.kind });
        self.pending = self.pending + 1;
        assert(final(events)@ =~= old(events)@ + pipeline_bind_events(*batch, old(self).pipeline)
            + seq![DrawEvent::Paint { kind: old(self).kind }]);
    }

    /// Flushes the accumulated buffers to the device, exactly once per
    /// frame: the upload carries however many batches were gathered, zero
    /// included.
    pub fn upload_buffers(&mut self, events: &mut Vec<DrawEvent>)
        requires
            old(self).uploads < u64::MAX,
        ensures
            *final(self) == (Painter { uploads: (old(self).uploads + 1) as u64, ..*old(self) }),
            final(events)@ == old(events)@.push(
                DrawEvent::Upload { kind: old(self).kind, batches: old(self).pending },
            ),
    {
        events.push(DrawEvent::Upload { kind: self.kind, batches: self.pending });
        self.uploads = self.uploads + 1;
    }
}

} // verus!
