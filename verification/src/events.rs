//! The compositing trace: the ordered outward actions one pass performs.
//!
//! Compositing a `Draw` is modeled as the exact sequence of actions the
//! compositor asks of the GPU command recorder and the device: render-pass
//! framing, pipeline binds, uniform-buffer binds, per-kind paints and the
//! per-kind buffer uploads. The specification functions here define that
//! trace; the compositor is proved to emit it.

use vstd::prelude::*;
use crate::batch::{Batch, Draw, PainterKind, logical_batches};
use crate::pipeline::{PipelineDescriptor, spec_resolved};
use notan_graphics::color::Color;

verus! {

/// One outward action of a compositing pass.
#[derive(Debug, PartialEq)]
pub enum DrawEvent {
    /// Open a render pass, clearing to the given color when one is present.
    Begin { clear_color: Option<Color> },
    /// Close the current render pass.
    End,
    /// Bind the pipeline this descriptor denotes.
    BindPipeline { pipeline: PipelineDescriptor },
    /// Bind one extra uniform buffer, by handle.
    BindBuffer { buffer: u64 },
    /// The painter of this kind appends one batch's geometry as draw calls
    /// against the currently bound pipeline.
    Paint { kind: PainterKind },
    /// The painter of this kind flushes its accumulated buffers (holding
    /// this many batches) to the device.
    Upload { kind: PainterKind, batches: usize },
}

/// The default pipeline of each batch kind.
#[derive(Clone, Copy, Debug, PartialEq, Eq)]
pub struct DefaultPipelines {
    pub image: PipelineDescriptor,
    pub shape: PipelineDescriptor,
    pub pattern: PipelineDescriptor,
    pub text: PipelineDescriptor,
}

/// The default pipeline for a batch kind.
pub open spec fn default_for(d: DefaultPipelines, k: PainterKind) -> PipelineDescriptor {
    match k {
        PainterKind::Image => d.image,
        PainterKind::Shape => d.shape,
        PainterKind::Pattern => d.pattern,
        PainterKind::Text => d.text,
    }
}

/// The render-pass boundary actions between the previous phase and a
/// batch's phase: entering mask authoring closes the current pass; leaving
/// it closes the mask pass and reopens a normal pass without re-clearing.
pub open spec fn transition_events(was_masking: bool, is_mask: bool) -> Seq<DrawEvent> {
    if is_mask && !was_masking {
        seq![DrawEvent::End]
    } else if !is_mask && was_masking {
        seq![DrawEvent::End, DrawEvent::Begin { clear_color: None }]
    } else {
        Seq::empty()
    }
}

/// The uniform-buffer binds a batch carries, in order.
pub open spec fn buffer_bind_events(buffers: Option<Vec<u64>>) -> Seq<DrawEvent> {
    match buffers {
        Some(v) => Seq::new(v@.len(), |i: int| DrawEvent::BindBuffer { buffer: v@[i] }),
        None => Seq::empty(),
    }
}

/// The bind actions for one batch: the resolved pipeline — derived from the
/// batch's own override when it has one, else from the kind's default —
/// then one bind per uniform buffer the batch carries, in order, right
/// before the batch's draw calls.
pub open spec fn pipeline_bind_events(b: Batch, default_pip: PipelineDescriptor) -> Seq<
    DrawEvent,
> {
    let base = match b.pipeline {
        Some(p) => p,
        None => default_pip,
    };
    seq![
        DrawEvent::BindPipeline { pipeline: spec_resolved(base, b.is_mask, b.masking, b.blend_mode) },
    ] + buffer_bind_events(b.uniform_buffers)
}

/// Everything one batch contributes to the trace: its masking transition,
/// its binds, and its paint.
pub open spec fn batch_events(b: Batch, was_masking: bool, default_pip: PipelineDescriptor) -> Seq<
    DrawEvent,
> {
    transition_events(was_masking, b.is_mask) + pipeline_bind_events(b, default_pip) + seq![
        DrawEvent::Paint { kind: b.typ.spec_kind() },
    ]
}

/// The trace of a batch sequence walked in order, starting from the given
/// masking phase.
pub open spec fn seq_batch_events(
    batches: Seq<Batch>,
    was_masking: bool,
    d: DefaultPipelines,
) -> Seq<DrawEvent>
    decreases batches.len(),
{
    if batches.len() == 0 {
        Seq::empty()
    } else {
        batch_events(batches[0], was_masking, default_for(d, batches[0].typ.spec_kind()))
            + seq_batch_events(batches.drop_first(), batches[0].is_mask, d)
    }
}

/// The masking phase after a batch sequence has been walked: each batch
/// leaves the machine in its own phase, so the last batch decides.
pub open spec fn mask_state_after(batches: Seq<Batch>, was_masking: bool) -> bool {
    if batches.len() == 0 {
        was_masking
    } else {
        batches.last().is_mask
    }
}

/// How many batches of a sequence have the given kind.
pub open spec fn count_kind(batches: Seq<Batch>, k: PainterKind) -> nat
    decreases batches.len(),
{
    if batches.len() == 0 {
        0
    } else {
        (if batches[0].typ.spec_kind() == k {
            1nat
        } else {
            0nat
        }) + count_kind(batches.drop_first(), k)
    }
}

/// The buffer uploads ending a pass: one per painter kind, in a fixed
/// order, each carrying that kind's accumulated batches.
pub open spec fn upload_events(batches: Seq<Batch>) -> Seq<DrawEvent> {
    seq![
        DrawEvent::Upload { kind: PainterKind::Image, batches: count_kind(batches, PainterKind::Image) as usize },
        DrawEvent::Upload { kind: PainterKind::Shape, batches: count_kind(batches, PainterKind::Shape) as usize },
        DrawEvent::Upload { kind: PainterKind::Pattern, batches: count_kind(batches, PainterKind::Pattern) as usize },
        DrawEvent::Upload { kind: PainterKind::Text, batches: count_kind(batches, PainterKind::Text) as usize },
    ]
}

/// The whole trace of compositing one `Draw`: open the pass clearing to the
/// draw's color, walk the batches (the in-progress batch last) starting in
/// the normal phase, close the pass, then upload every painter's buffers
/// exactly once.
pub open spec fn draw_events(draw: Draw, d: DefaultPipelines) -> Seq<DrawEvent> {
    seq![DrawEvent::Begin { clear_color: draw.clear_color }] + seq_batch_events(
        logical_batches(draw),
        false,
        d,
    ) + seq![DrawEvent::End] + upload_events(logical_batches(draw))
}

/// Walking one more batch appends exactly that batch's events, taken from
/// the phase the sequence before it left behind.
pub proof fn lemma_seq_batch_events_snoc(
    batches: Seq<Batch>,
    b: Batch,
    was_masking: bool,
    d: DefaultPipelines,
)
    ensures
        seq_batch_events(batches.push(b), was_masking, d) == seq_batch_events(
            batches,
            was_masking,
            d,
        ) + batch_events(
            b,
            mask_state_after(batches, was_masking),
            default_for(d, b.typ.spec_kind()),
        ),
    decreases batches.len(),
{
    let def_b = default_for(d, b.typ.spec_kind());
    if batches.len() == 0 {
        let be = batch_events(b, was_masking, def_b);
        assert(batches.push(b)[0] == b);
        assert(batches.push(b).drop_first() =~= Seq::<Batch>::empty());
        assert(seq_batch_events(batches.push(b), was_masking, d) == be + seq_batch_events(
            Seq::<Batch>::empty(),
            b.is_mask,
            d,
        ));
        assert(be + Seq::<DrawEvent>::empty() =~= be);
        assert(Seq::<DrawEvent>::empty() + be =~= be);
    } else {
        let a0 = batch_events(batches[0], was_masking, default_for(d, batches[0].typ.spec_kind()));
        let sp = seq_batch_events(batches.drop_first(), batches[0].is_mask, d);
        let st = mask_state_after(batches.drop_first(), batches[0].is_mask);
        let bb = batch_events(b, st, def_b);
        assert(batches.push(b)[0] == batches[0]);
        assert(batches.push(b).drop_first() =~= batches.drop_first().push(b));
        lemma_seq_batch_events_snoc(batches.drop_first(), b, batches[0].is_mask, d);
        assert(seq_batch_events(batches.push(b), was_masking, d) == a0 + seq_batch_events(
            batches.drop_first().push(b),
            batches[0].is_mask,
            d,
        ));
        assert(seq_batch_events(batches.drop_first().push(b), batches[0].is_mask, d) == sp + bb);
        assert(a0 + (sp + bb) =~= (a0 + sp) + bb);
        if batches.len() > 1 {
            assert(batches.drop_first().last() == batches.last());
        }
        assert(st == mask_state_after(batches, was_masking));
        assert(seq_batch_events(batches, was_masking, d) == a0 + sp);
    }
}

/// Appending one batch adds one to its kind's count and leaves the others.
pub proof fn lemma_count_kind_snoc(batches: Seq<Batch>, b: Batch, k: PainterKind)
    ensures
        count_kind(batches.push(b), k) == count_kind(batches, k) + (if b.typ.spec_kind() == k {
            1nat
        } else {
            0nat
        }),
    decreases batches.len(),
{
    if batches.len() == 0 {
        assert(batches.push(b)[0] == b);
        assert(batches.push(b).drop_first() =~= Seq::<Batch>::empty());
        assert(count_kind(batches.push(b).drop_first(), k) == 0);
    } else {
        assert(batches.push(b)[0] == batches[0]);
        assert(batches.push(b).drop_first() =~= batches.drop_first().push(b));
        lemma_count_kind_snoc(batches.drop_first(), b, k);
        assert(count_kind(batches.push(b), k) == (if batches[0].typ.spec_kind() == k {
            1nat
        } else {
            0nat
        }) + count_kind(batches.drop_first().push(b), k));
    }
}

/// A kind's count never exceeds the sequence's length.
pub proof fn lemma_count_kind_le_len(batches: Seq<Batch>, k: PainterKind)
    ensures
        count_kind(batches, k) <= batches.len(),
    decreases batches.len(),
{
    if batches.len() > 0 {
        lemma_count_kind_le_len(batches.drop_first(), k);
    }
}

} // verus!
