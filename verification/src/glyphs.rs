//! Selection of the glyph sections to rasterize before a pass.
//!
//! Text geometry depends on rasterized glyph atlases, so every queued
//! section is resolved once, fully before any batch is dispatched. This
//! module computes which sections that is: the draw's queued text-batch
//! indices are walked in order, a run of one repeated index contributes its
//! batch once, and each selected text batch contributes its sections in
//! order.

use vstd::prelude::*;
use crate::batch::{Batch, BatchType, Draw};

verus! {

/// The batch a queued-text index refers to: an index at or past the
/// completed batches refers to the in-progress batch.
pub open spec fn batch_at(draw: Draw, n: usize) -> Option<Batch> {
    if n >= draw.batches@.len() {
        draw.current_batch
    } else {
        Some(draw.batches@[n as int])
    }
}

/// The glyph sections a batch carries: none unless it is a text batch.
pub open spec fn sections_of(b: Option<Batch>) -> Seq<u64> {
    match b {
        Some(bb) => match bb.typ {
            BatchType::Text { sections } => sections@,
            _ => Seq::empty(),
        },
        None => Seq::empty(),
    }
}

/// The sections selected by a run of queued indices: each index equal to
/// the one walked right before it is skipped, every other index
/// contributes its batch's sections.
pub open spec fn spec_glyph_sections(indices: Seq<usize>, last: usize, draw: Draw) -> Seq<u64>
    decreases indices.len(),
{
    if indices.len() == 0 {
        Seq::empty()
    } else if indices[0] == last {
        spec_glyph_sections(indices.drop_first(), last, draw)
    } else {
        sections_of(batch_at(draw, indices[0])) + spec_glyph_sections(
            indices.drop_first(),
            indices[0],
            draw,
        )
    }
}

/// Appends the glyph sections of one batch: all of them for a text batch,
/// none for any other kind.
fn append_sections(r: &mut Vec<u64>, b: &Batch)
    ensures
        final(r)@ == old(r)@ + sections_of(Some(*b)),
{
    match &b.typ {
        BatchType::Text { sections } => {
            let mut j: usize = 0;
            while j < sections.len()
                invariant
                    j <= sections.len(),
                    r@ =~= old(r)@ + sections@.take(j as int),
                decreases sections.len() - j,
            {
                r.push(sections[j]);
                proof {
                    assert(sections@.take(j as int + 1) =~= sections@.take(j as int).push(
                        sections@[j as int],
                    ));
                }
                j += 1;
            }
            proof {
                assert(sections@.take(sections@.len() as int) =~= sections@);
            }
        },
        _ => {
            proof {
                assert(r@ =~= old(r)@ + Seq::<u64>::empty());
            }
        },
    }
}

/// Every glyph section the draw's queued texts need, in queue order; empty
/// when no text was queued. The walk starts with `usize::MAX` as the
/// index-before-the-run, so a first queued index of that value is skipped.
pub fn glyph_sections(draw: &Draw) -> (r: Vec<u64>)
    ensures
        r@ == (match draw.text_batch_indices {
            Some(v) => spec_glyph_sections(v@, usize::MAX, *draw),
            None => Seq::<u64>::empty(),
        }),
{
    let mut r: Vec<u64> = Vec::new();
    let indices = match &draw.text_batch_indices {
        Some(v) => v,
        None => {
            return r;
        },
    };
    let batch_len = draw.batches.len();
    let mut last_index: usize = usize::MAX;
    let mut k: usize = 0;
    proof {
        assert(indices@.skip(0) =~= indices@);
        assert(Seq::<u64>::empty() + spec_glyph_sections(indices@, usize::MAX, *draw)
            =~= spec_glyph_sections(indices@, usize::MAX, *draw));
    }
    while k < indices.len()
        invariant
            k <= indices.len(),
            draw.text_batch_indices matches Some(v) && v@ == indices@,
            batch_len == draw.batches@.len(),
            spec_glyph_sections(indices@, usize::MAX, *draw) == r@ + spec_glyph_sections(
                indices@.skip(k as int),
                last_index,
                *draw,
            ),
        decreases indices.len() - k,
    {
        let ghost rest = indices@.skip(k as int);
        proof {
            assert(rest[0] == indices@[k as int]);
            assert(rest.drop_first() =~= indices@.skip(k as int + 1));
        }
        let n = indices[k];
        if n != last_index {
            last_index = n;
            if n >= batch_len {
                match &draw.current_batch {
                    Some(b) => {
                        append_sections(&mut r, b);
                    },
                    None => {
                        proof {
                            assert(sections_of(batch_at(*draw, n)) =~= Seq::<u64>::empty());
                            assert(r@ =~= r@ + Seq::<u64>::empty());
                        }
                    },
                }
            } else {
                append_sections(&mut r, &draw.batches[n]);
            }
        }
        k += 1;
    }
    proof {
        assert(indices@.skip(indices@.len() as int) =~= Seq::<usize>::empty());
    }
    r
}

} // verus!
