//! Laws of the compositing trace: how pass boundaries relate to the batch
//! sequence, and why resolving one batch's pipeline cannot affect another's.

use vstd::prelude::*;
use crate::batch::{Batch, Draw, logical_batches};
use crate::events::{
    DefaultPipelines, DrawEvent, batch_events, buffer_bind_events, default_for, draw_events,
    mask_state_after, pipeline_bind_events, seq_batch_events, transition_events, upload_events,
};
use crate::pipeline::PipelineDescriptor;

verus! {

/// Does this event open a render pass?
pub open spec fn is_begin_event(e: DrawEvent) -> bool {
    match e {
        DrawEvent::Begin { .. } => true,
        _ => false,
    }
}

/// Does this event close a render pass?
pub open spec fn is_end_event(e: DrawEvent) -> bool {
    match e {
        DrawEvent::End => true,
        _ => false,
    }
}

/// How many events of a trace open a render pass.
pub open spec fn count_begins(s: Seq<DrawEvent>) -> nat
    decreases s.len(),
{
    if s.len() == 0 {
        0
    } else {
        (if is_begin_event(s[0]) {
            1nat
        } else {
            0nat
        }) + count_begins(s.drop_first())
    }
}

/// How many events of a trace close a render pass.
pub open spec fn count_ends(s: Seq<DrawEvent>) -> nat
    decreases s.len(),
{
    if s.len() == 0 {
        0
    } else {
        (if is_end_event(s[0]) {
            1nat
        } else {
            0nat
        }) + count_ends(s.drop_first())
    }
}

/// Pass-boundary counts add up over concatenation.
pub proof fn lemma_counts_concat(a: Seq<DrawEvent>, b: Seq<DrawEvent>)
    ensures
        count_begins(a + b) == count_begins(a) + count_begins(b),
        count_ends(a + b) == count_ends(a) + count_ends(b),
    decreases a.len(),
{
    if a.len() == 0 {
        assert(a + b =~= b);
    } else {
        assert((a + b)[0] == a[0]);
        assert((a + b).drop_first() =~= a.drop_first() + b);
        lemma_counts_concat(a.drop_first(), b);
    }
}

/// A trace without pass boundaries counts none.
pub proof fn lemma_counts_zero(s: Seq<DrawEvent>)
    requires
        forall|i: int| 0 <= i < s.len() ==> !is_begin_event(s[i]) && !is_end_event(s[i]),
    ensures
        count_begins(s) == 0,
        count_ends(s) == 0,
    decreases s.len(),
{
    if s.len() > 0 {
        assert forall|i: int| 0 <= i < s.drop_first().len() implies !is_begin_event(
            s.drop_first()[i],
        ) && !is_end_event(s.drop_first()[i]) by {
            assert(s.drop_first()[i] == s[i + 1]);
        }
        lemma_counts_zero(s.drop_first());
    }
}

/// Binding and painting never touch the render pass: a batch that does not
/// author a mask, walked in the normal phase, contributes no pass boundary.
pub proof fn lemma_batch_events_no_boundary(b: Batch, p: PipelineDescriptor)
    requires
        !b.is_mask,
    ensures
        count_begins(batch_events(b, false, p)) == 0,
        count_ends(batch_events(b, false, p)) == 0,
{
    let ev = batch_events(b, false, p);
    assert(transition_events(false, b.is_mask) =~= Seq::<DrawEvent>::empty());
    assert forall|i: int| 0 <= i < ev.len() implies !is_begin_event(ev[i]) && !is_end_event(
        ev[i],
    ) by {
        let pbe = pipeline_bind_events(b, p);
        if i < pbe.len() {
            assert(ev[i] == pbe[i]);
            if i > 0 {
                assert(pbe[i] == buffer_bind_events(b.uniform_buffers)[i - 1]);
            }
        } else {
            assert(ev[i] == DrawEvent::Paint { kind: b.typ.spec_kind() });
        }
    }
    lemma_counts_zero(ev);
}

/// With no mask-authoring batch a whole walk in the normal phase
/// contributes no pass boundary at all.
pub proof fn lemma_no_mask_walk_no_boundary(batches: Seq<Batch>, d: DefaultPipelines)
    requires
        forall|i: int| 0 <= i < batches.len() ==> !batches[i].is_mask,
    ensures
        count_begins(seq_batch_events(batches, false, d)) == 0,
        count_ends(seq_batch_events(batches, false, d)) == 0,
    decreases batches.len(),
{
    if batches.len() > 0 {
        assert(!batches[0].is_mask);
        lemma_batch_events_no_boundary(batches[0], default_for(d, batches[0].typ.spec_kind()));
        assert forall|i: int| 0 <= i < batches.drop_first().len() implies !batches.drop_first()[i].is_mask by {
            assert(batches.drop_first()[i] == batches[i + 1]);
        }
        lemma_no_mask_walk_no_boundary(batches.drop_first(), d);
        lemma_counts_concat(
            batch_events(batches[0], false, default_for(d, batches[0].typ.spec_kind())),
            seq_batch_events(batches.drop_first(), false, d),
        );
    }
}

/// For any batch sequence with no mask-authoring batch, the masking state
/// machine stays in the normal phase through the whole walk, and the
/// frame's trace opens the render pass exactly once and closes it exactly
/// once.
pub proof fn lemma_no_mask_single_pass(draw: Draw, d: DefaultPipelines)
    requires
        forall|i: int| 0 <= i < logical_batches(draw).len() ==> !logical_batches(draw)[i].is_mask,
    ensures
        forall|i: int|
            0 <= i <= logical_batches(draw).len() ==> mask_state_after(
                logical_batches(draw).take(i),
                false,
            ) == false,
        count_begins(draw_events(draw, d)) == 1,
        count_ends(draw_events(draw, d)) == 1,
{
    let batches = logical_batches(draw);
    assert forall|i: int| 0 <= i <= batches.len() implies mask_state_after(
        batches.take(i),
        false,
    ) == false by {
        if i > 0 {
            assert(batches.take(i).last() == batches[i - 1]);
        }
    }
    lemma_no_mask_walk_no_boundary(batches, d);
    let open = seq![DrawEvent::Begin { clear_color: draw.clear_color }];
    let walk = seq_batch_events(batches, false, d);
    let close = seq![DrawEvent::End];
    let uploads = upload_events(batches);
    assert(open.drop_first() =~= Seq::<DrawEvent>::empty());
    assert(close.drop_first() =~= Seq::<DrawEvent>::empty());
    assert(open[0] == DrawEvent::Begin { clear_color: draw.clear_color });
    assert(is_begin_event(open[0]) && !is_end_event(open[0]));
    assert(close[0] == DrawEvent::End);
    assert(count_begins(Seq::<DrawEvent>::empty()) == 0);
    assert(count_ends(Seq::<DrawEvent>::empty()) == 0);
    assert(count_begins(open) == 1 && count_ends(open) == 0);
    assert(count_begins(close) == 0 && count_ends(close) == 1);
    assert forall|i: int| 0 <= i < uploads.len() implies !is_begin_event(uploads[i])
        && !is_end_event(uploads[i]) by {}
    lemma_counts_zero(uploads);
    lemma_counts_concat(open, walk);
    lemma_counts_concat(open + walk, close);
    lemma_counts_concat(open + walk + close, uploads);
    assert(draw_events(draw, d) == open + walk + close + uploads);
}

/// For a consecutive pair of batches, the phase the first leaves behind is
/// its own mask flag, and the boundary walked before the second is exactly
/// what the pair demands: entering mask authoring closes the pass (one
/// close, no reopen); leaving it closes the mask pass and reopens a normal
/// pass without re-clearing; a pair in one phase has no boundary.
pub proof fn lemma_pass_boundary(batches: Seq<Batch>, i: int)
    requires
        0 <= i,
        i + 1 < batches.len(),
    ensures
        mask_state_after(batches.take(i + 1), false) == batches[i].is_mask,
        !batches[i].is_mask && batches[i + 1].is_mask ==> transition_events(
            batches[i].is_mask,
            batches[i + 1].is_mask,
        ) == seq![DrawEvent::End],
        batches[i].is_mask && !batches[i + 1].is_mask ==> transition_events(
            batches[i].is_mask,
            batches[i + 1].is_mask,
        ) == seq![DrawEvent::End, DrawEvent::Begin { clear_color: None }],
        batches[i].is_mask == batches[i + 1].is_mask ==> transition_events(
            batches[i].is_mask,
            batches[i + 1].is_mask,
        ) == Seq::<DrawEvent>::empty(),
{
    assert(batches.take(i + 1).last() == batches[i]);
}

/// Within a walk, each next batch extends the trace by exactly its own
/// events, taken from the phase the batch before it left behind; those
/// events open with the precise pass boundary the consecutive pair
/// demands (`lemma_pass_boundary`), and nothing else in them touches the
/// render pass.
pub proof fn lemma_pass_boundary_in_walk(batches: Seq<Batch>, i: int, d: DefaultPipelines)
    requires
        0 <= i,
        i + 1 < batches.len(),
    ensures
        seq_batch_events(batches.take(i + 2), false, d) == seq_batch_events(
            batches.take(i + 1),
            false,
            d,
        ) + batch_events(
            batches[i + 1],
            batches[i].is_mask,
            default_for(d, batches[i + 1].typ.spec_kind()),
        ),
        batch_events(
            batches[i + 1],
            batches[i].is_mask,
            default_for(d, batches[i + 1].typ.spec_kind()),
        ) == transition_events(batches[i].is_mask, batches[i + 1].is_mask) + (pipeline_bind_events(
            batches[i + 1],
            default_for(d, batches[i + 1].typ.spec_kind()),
        ) + seq![DrawEvent::Paint { kind: batches[i + 1].typ.spec_kind() }]),
{
    crate::events::lemma_seq_batch_events_snoc(batches.take(i + 1), batches[i + 1], false, d);
    assert(batches.take(i + 2) =~= batches.take(i + 1).push(batches[i + 1]));
    assert(batches.take(i + 1).last() == batches[i]);
    assert(mask_state_after(batches.take(i + 1), false) == batches[i].is_mask);
    let t = transition_events(batches[i].is_mask, batches[i + 1].is_mask);
    let p = pipeline_bind_events(batches[i + 1], default_for(d, batches[i + 1].typ.spec_kind()));
    let paint = seq![DrawEvent::Paint { kind: batches[i + 1].typ.spec_kind() }];
    assert(t + p + paint =~= t + (p + paint));
}

/// Pipeline resolution is idempotent with respect to unrelated batches:
/// walking one batch and then another produces for the second exactly the
/// events it produces on its own — resolution reads only the second batch
/// and its kind's default pipeline, which the first batch never mutates.
pub proof fn lemma_resolution_unaffected(a: Batch, b: Batch, was_masking: bool, d: DefaultPipelines)
    ensures
        seq_batch_events(seq![a, b], was_masking, d) == batch_events(
            a,
            was_masking,
            default_for(d, a.typ.spec_kind()),
        ) + seq_batch_events(seq![b], a.is_mask, d),
        seq_batch_events(seq![b], a.is_mask, d) == batch_events(
            b,
            a.is_mask,
            default_for(d, b.typ.spec_kind()),
        ),
{
    let bb = batch_events(b, a.is_mask, default_for(d, b.typ.spec_kind()));
    assert(seq![a, b].drop_first() =~= seq![b]);
    assert(seq![b].drop_first() =~= Seq::<Batch>::empty());
    assert(seq_batch_events(seq![b], a.is_mask, d) == bb + seq_batch_events(
        Seq::<Batch>::empty(),
        b.is_mask,
        d,
    ));
    assert(bb + Seq::<DrawEvent>::empty() =~= bb);
}

} // verus!
