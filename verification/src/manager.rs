//! The draw compositor: walks a `Draw`'s batch sequence, drives the masking
//! state machine, resolves per-batch pipelines, routes each batch to the
//! painter of its kind and ends the pass with one buffer upload per painter.
//! The whole pass is proved to emit exactly the trace `draw_events` defines.

use vstd::prelude::*;
use crate::batch::{Batch, BatchType, Draw, PainterKind, logical_batches};
use crate::events::{
    DefaultPipelines, DrawEvent, batch_events, count_kind, default_for, draw_events,
    lemma_count_kind_le_len, lemma_count_kind_snoc, lemma_seq_batch_events_snoc, mask_state_after,
    seq_batch_events, transition_events, upload_events,
};
use crate::painter::Painter;
use crate::pipeline::PipelineDescriptor;

verus! {

/// Owns the four painters, the masking phase and the recorded trace of the
/// current frame: the single compositing context passed by exclusive
/// reference through one `Draw`'s pass.
pub struct DrawManager {
    pub shape_painter: Painter,
    pub image_painter: Painter,
    pub pattern_painter: Painter,
    pub text_painter: Painter,
    /// Whether the machine is in the mask-authoring phase.
    pub drawing_mask: bool,
    /// The outward actions recorded for the current frame.
    pub events: Vec<DrawEvent>,
}

impl DrawManager {
    /// Each painter carries the kind it was created for.
    pub open spec fn wf(self) -> bool {
        &&& self.image_painter.kind == PainterKind::Image
        &&& self.shape_painter.kind == PainterKind::Shape
        &&& self.pattern_painter.kind == PainterKind::Pattern
        &&& self.text_painter.kind == PainterKind::Text
    }

    /// The per-kind default pipelines the painters hold.
    pub open spec fn defaults(self) -> DefaultPipelines {
        DefaultPipelines {
            image: self.image_painter.pipeline,
            shape: self.shape_painter.pipeline,
            pattern: self.pattern_painter.pipeline,
            text: self.text_painter.pipeline,
        }
    }

    /// A compositor in the normal phase with an empty trace, its painters
    /// holding the given default pipelines with empty buffers.
    pub fn new(
        shape_pipeline: PipelineDescriptor,
        image_pipeline: PipelineDescriptor,
        pattern_pipeline: PipelineDescriptor,
        text_pipeline: PipelineDescriptor,
    ) -> (r: DrawManager)
        ensures
            r.wf(),
            !r.drawing_mask,
            r.events@ == Seq::<DrawEvent>::empty(),
            r.defaults() == (DefaultPipelines {
                image: image_pipeline,
                shape: shape_pipeline,
                pattern: pattern_pipeline,
                text: text_pipeline,
            }),
            r.image_painter.pending == 0 && r.image_painter.uploads == 0,
            r.shape_painter.pending == 0 && r.shape_painter.uploads == 0,
            r.pattern_painter.pending == 0 && r.pattern_painter.uploads == 0,
            r.text_painter.pending == 0 && r.text_painter.uploads == 0,
    {
        DrawManager {
            shape_painter: Painter::new(PainterKind::Shape, shape_pipeline),
            image_painter: Painter::new(PainterKind::Image, image_pipeline),
            pattern_painter: Painter::new(PainterKind::Pattern, pattern_pipeline),
            text_painter: Painter::new(PainterKind::Text, text_pipeline),
            drawing_mask: false,
            events: Vec::new(),
        }
    }

    /// An empty frame of the given size, ready for the producer to fill.
    pub fn create_draw(&self, width: i32, height: i32) -> (r: Draw)
        ensures
            r.width == width,
            r.height == height,
            r.clear_color is None,
            r.projection is None,
            r.batches@ =~= Seq::<Batch>::empty(),
            r.current_batch is None,
            r.text_batch_indices is None,
    {
        Draw::new(width, height)
    }

    /// The trace recorded for the last composited frame.
    pub fn commands(&self) -> (r: &Vec<DrawEvent>)
        ensures
            r@ == self.events@,
    {
        &self.events
    }

    /// Composites one frame: discards the previous frame's trace and
    /// records exactly the trace of this `Draw`, leaving the default
    /// pipelines untouched and uploading every painter's buffers exactly
    /// once.
    pub fn process_draw(&mut self, draw: &Draw)
        requires
            old(self).wf(),
            logical_batches(*draw).len() < usize::MAX,
            old(self).image_painter.uploads < u64::MAX,
            old(self).shape_painter.uploads < u64::MAX,
            old(self).pattern_painter.uploads < u64::MAX,
            old(self).text_painter.uploads < u64::MAX,
        ensures
            final(self).wf(),
            final(self).events@ == draw_events(*draw, old(self).defaults()),
            final(self).defaults() == old(self).defaults(),
            final(self).drawing_mask == mask_state_after(logical_batches(*draw), false),
            final(self).image_painter.uploads == old(self).image_painter.uploads + 1,
            final(self).shape_painter.uploads == old(self).shape_painter.uploads + 1,
            final(self).pattern_painter.uploads == old(self).pattern_painter.uploads + 1,
            final(self).text_painter.uploads == old(self).text_painter.uploads + 1,
            final(self).image_painter.pending == count_kind(
                logical_batches(*draw),
                PainterKind::Image,
            ),
            final(self).shape_painter.pending == count_kind(
                logical_batches(*draw),
                PainterKind::Shape,
            ),
            final(self).pattern_painter.pending == count_kind(
                logical_batches(*draw),
                PainterKind::Pattern,
            ),
            final(self).text_painter.pending == count_kind(
                logical_batches(*draw),
                PainterKind::Text,
            ),
    {
        self.events = Vec::new();
        process_draw(self, draw);
    }
}

/// Applies one batch's masking transition, then routes the batch to the
/// painter of its kind, which binds the resolved pipeline and paints.
pub fn paint_batch(manager: &mut DrawManager, b: &Batch)
    requires
        old(manager).wf(),
        old(manager).image_painter.pending < usize::MAX,
        old(manager).shape_painter.pending < usize::MAX,
        old(manager).pattern_painter.pending < usize::MAX,
        old(manager).text_painter.pending < usize::MAX,
    ensures
        final(manager).wf(),
        final(manager).events@ == old(manager).events@ + batch_events(
            *b,
            old(manager).drawing_mask,
            default_for(old(manager).defaults(), b.typ.spec_kind()),
        ),
        final(manager).drawing_mask == b.is_mask,
        final(manager).defaults() == old(manager).defaults(),
        final(manager).image_painter.pending == old(manager).image_painter.pending + (
        if b.typ.spec_kind() == PainterKind::Image {
            1int
        } else {
            0int
        }),
        final(manager).shape_painter.pending == old(manager).shape_painter.pending + (
        if b.typ.spec_kind() == PainterKind::Shape {
            1int
        } else {
            0int
        }),
        final(manager).pattern_painter.pending == old(manager).pattern_painter.pending + (
        if b.typ.spec_kind() == PainterKind::Pattern {
            1int
        } else {
            0int
        }),
        final(manager).text_painter.pending == old(manager).text_painter.pending + (
        if b.typ.spec_kind() == PainterKind::Text {
            1int
        } else {
            0int
        }),
        final(manager).image_painter.uploads == old(manager).image_painter.uploads,
        final(manager).shape_painter.uploads == old(manager).shape_painter.uploads,
        final(manager).pattern_painter.uploads == old(manager).pattern_painter.uploads,
        final(manager).text_painter.uploads == old(manager).text_painter.uploads,
{
    let ghost pre = *manager;
    if b.is_mask && !manager.drawing_mask {
        manager.events.push(DrawEvent::End);
        manager.drawing_mask = true;
    } else if !b.is_mask && manager.drawing_mask {
        manager.drawing_mask = false;
        manager.events.push(DrawEvent::End);
        manager.events.push(DrawEvent::Begin { clear_color: None });
    }
    assert(manager.events@ =~= pre.events@ + transition_events(pre.drawing_mask, b.is_mask));
    match &b.typ {
        BatchType::Image { .. } => manager.image_painter.push(&mut manager.events, b),
        BatchType::Shape => manager.shape_painter.push(&mut manager.events, b),
        BatchType::Pattern { .. } => manager.pattern_painter.push(&mut manager.events, b),
        BatchType::Text { .. } => manager.text_painter.push(&mut manager.events, b),
    }
    assert(manager.events@ =~= pre.events@ + batch_events(
        *b,
        pre.drawing_mask,
        default_for(pre.defaults(), b.typ.spec_kind()),
    ));
}

/// Composites one frame into the manager's trace: clears the painters,
/// opens the pass with the draw's clear color from the normal phase, walks
/// the batches in order with the in-progress batch last, closes the pass
/// and uploads each painter's buffers exactly once.
#[verifier::rlimit(100)]
pub fn process_draw(manager: &mut DrawManager, draw: &Draw)
    requires
        old(manager).wf(),
        logical_batches(*draw).len() < usize::MAX,
        old(manager).image_painter.uploads < u64::MAX,
        old(manager).shape_painter.uploads < u64::MAX,
        old(manager).pattern_painter.uploads < u64::MAX,
        old(manager).text_painter.uploads < u64::MAX,
    ensures
        final(manager).wf(),
        final(manager).events@ == old(manager).events@ + draw_events(
            *draw,
            old(manager).defaults(),
        ),
        final(manager).defaults() == old(manager).defaults(),
        final(manager).drawing_mask == mask_state_after(logical_batches(*draw), false),
        final(manager).image_painter.uploads == old(manager).image_painter.uploads + 1,
        final(manager).shape_painter.uploads == old(manager).shape_painter.uploads + 1,
        final(manager).pattern_painter.uploads == old(manager).pattern_painter.uploads + 1,
        final(manager).text_painter.uploads == old(manager).text_painter.uploads + 1,
        final(manager).image_painter.pending == count_kind(
            logical_batches(*draw),
            PainterKind::Image,
        ),
        final(manager).shape_painter.pending == count_kind(
            logical_batches(*draw),
            PainterKind::Shape,
        ),
        final(manager).pattern_painter.pending == count_kind(
            logical_batches(*draw),
            PainterKind::Pattern,
        ),
        final(manager).text_painter.pending == count_kind(
            logical_batches(*draw),
            PainterKind::Text,
        ),
{
    let ghost pre = *manager;
    let ghost d = pre.defaults();
    let ghost logical = logical_batches(*draw);
    manager.image_painter.clear();
    manager.shape_painter.clear();
    manager.pattern_painter.clear();
    manager.text_painter.clear();
    manager.drawing_mask = false;
    manager.events.push(DrawEvent::Begin { clear_color: draw.clear_color });
    let ghost base = manager.events@;
    let mut i: usize = 0;
    while i < draw.batches.len()
        invariant
            manager.wf(),
            i <= draw.batches.len(),
            logical_batches(*draw).len() < usize::MAX,
            logical_batches(*draw) == logical,
            draw.batches@.len() <= logical.len(),
            manager.defaults() == d,
            base == pre.events@.push(DrawEvent::Begin { clear_color: draw.clear_color }),
            manager.events@ == base + seq_batch_events(draw.batches@.take(i as int), false, d),
            manager.drawing_mask == mask_state_after(draw.batches@.take(i as int), false),
            manager.image_painter.pending == count_kind(
                draw.batches@.take(i as int),
                PainterKind::Image,
            ),
            manager.shape_painter.pending == count_kind(
                draw.batches@.take(i as int),
                PainterKind::Shape,
            ),
            manager.pattern_painter.pending == count_kind(
                draw.batches@.take(i as int),
                PainterKind::Pattern,
            ),
            manager.text_painter.pending == count_kind(
                draw.batches@.take(i as int),
                PainterKind::Text,
            ),
            manager.image_painter.uploads == pre.image_painter.uploads,
            manager.shape_painter.uploads == pre.shape_painter.uploads,
            manager.pattern_painter.uploads == pre.pattern_painter.uploads,
            manager.text_painter.uploads == pre.text_painter.uploads,
        decreases draw.batches.len() - i,
    {
        let ghost taken = draw.batches@.take(i as int);
        proof {
            lemma_count_kind_le_len(taken, PainterKind::Image);
            lemma_count_kind_le_len(taken, PainterKind::Shape);
            lemma_count_kind_le_len(taken, PainterKind::Pattern);
            lemma_count_kind_le_len(taken, PainterKind::Text);
        }
        paint_batch(manager, &draw.batches[i]);
        proof {
            let b = draw.batches@[i as int];
            assert(draw.batches@.take(i as int + 1) =~= taken.push(b));
            lemma_seq_batch_events_snoc(taken, b, false, d);
            lemma_count_kind_snoc(taken, b, PainterKind::Image);
            lemma_count_kind_snoc(taken, b, PainterKind::Shape);
            lemma_count_kind_snoc(taken, b, PainterKind::Pattern);
            lemma_count_kind_snoc(taken, b, PainterKind::Text);
            assert(manager.events@ == base + seq_batch_events(
                draw.batches@.take(i as int + 1),
                false,
                d,
            ));
        }
        i += 1;
    }
    proof {
        assert(draw.batches@.take(draw.batches@.len() as int) =~= draw.batches@);
    }
    match &draw.current_batch {
        Some(current) => {
            proof {
                lemma_count_kind_le_len(draw.batches@, PainterKind::Image);
                lemma_count_kind_le_len(draw.batches@, PainterKind::Shape);
                lemma_count_kind_le_len(draw.batches@, PainterKind::Pattern);
                lemma_count_kind_le_len(draw.batches@, PainterKind::Text);
            }
            paint_batch(manager, current);
            proof {
                let b = draw.current_batch.unwrap();
                assert(logical =~= draw.batches@.push(b));
                lemma_seq_batch_events_snoc(draw.batches@, b, false, d);
                lemma_count_kind_snoc(draw.batches@, b, PainterKind::Image);
                lemma_count_kind_snoc(draw.batches@, b, PainterKind::Shape);
                lemma_count_kind_snoc(draw.batches@, b, PainterKind::Pattern);
                lemma_count_kind_snoc(draw.batches@, b, PainterKind::Text);
            }
        },
        None => {
            proof {
                assert(logical =~= draw.batches@);
            }
        },
    }
    assert(manager.events@ == base + seq_batch_events(logical, false, d));
    assert(manager.drawing_mask == mask_state_after(logical, false));
    manager.events.push(DrawEvent::End);
    manager.image_painter.upload_buffers(&mut manager.events);
    manager.shape_painter.upload_buffers(&mut manager.events);
    manager.pattern_painter.upload_buffers(&mut manager.events);
    manager.text_painter.upload_buffers(&mut manager.events);
    proof {
        assert(manager.events@ =~= pre.events@ + (seq![
            DrawEvent::Begin { clear_color: draw.clear_color },
        ] + seq_batch_events(logical, false, d) + seq![DrawEvent::End] + upload_events(logical)));
    }
}

} // verus!
