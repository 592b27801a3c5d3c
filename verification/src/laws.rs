//! What holds of the pipeline in every state that it can reach.
//!
//! The laws are stated over the model of the pipeline. Every operation of
//! the pipeline is proved to take the model's step, so the laws hold of the
//! running pipeline too.

use vstd::prelude::*;
use crate::config::BUFFER_COUNT;
use crate::model::{all_buffers, PipelineView, Step};
use crate::raw_framebuffer::FrameView;

verus! {

/// A token that is anywhere in the pipeline names one of the two buffers.
pub proof fn lemma_tokens_in_range(s: PipelineView, b: usize)
    requires
        s.accounted(),
        s.tokens().count(b) > 0,
    ensures
        b < BUFFER_COUNT,
{
}

/// Priming gives a state that meets the invariant.
pub proof fn lemma_primed_inv(first: FrameView, second: FrameView)
    ensures
        PipelineView::primed(first, second).inv(),
{
    broadcast use vstd::seq_lib::group_to_multiset_ensures;

    let s = PipelineView::primed(first, second);
    assert(s.ready =~= Seq::<usize>::empty().push(0usize).push(1usize));
    assert(s.tokens() =~= all_buffers());
}

/// Conservation: where every buffer is accounted for, the buffers that the
/// render stage holds, those in the ready queue, those that the display
/// stage holds and those in the free queue are two in all.
pub proof fn lemma_buffers_conserved(s: PipelineView)
    requires
        s.accounted(),
    ensures
        s.buffer_count() == BUFFER_COUNT,
{
    broadcast use vstd::seq_lib::group_to_multiset_ensures;

    assert(s.tokens().len() == s.buffer_count());
}

/// Exclusivity: where every buffer is accounted for, no token is in two
/// places. No token waits twice in a queue, none waits in both queues, and
/// a token that a stage holds waits in neither queue nor is held by the
/// other stage.
pub proof fn lemma_places_exclusive(s: PipelineView)
    requires
        s.accounted(),
    ensures
        s.ready.no_duplicates(),
        s.free.no_duplicates(),
        forall|i: int, j: int|
            0 <= i < s.ready.len() && 0 <= j < s.free.len() ==> s.ready[i] != s.free[j],
        forall|b: usize| s.painting == Some(b) ==> !s.enqueued(b) && s.flushing != Some(b),
        forall|b: usize| s.flushing == Some(b) ==> !s.enqueued(b) && s.painting != Some(b),
{
    broadcast use vstd::seq_lib::group_to_multiset_ensures;

    assert forall|b: usize| #[trigger] s.tokens().count(b) <= 1 by {}
    assert forall|i: int, j: int|
        0 <= i < s.ready.len() && 0 <= j < s.free.len() implies s.ready[i] != s.free[j] by {
        assert(s.tokens().count(s.ready[i]) <= 1);
    }
    assert forall|x: usize| s.ready.to_multiset().contains(x) implies s.ready.to_multiset().count(
        x,
    ) == 1 by {
        assert(s.tokens().count(x) <= 1);
    }
    s.ready.lemma_multiset_has_no_duplicates_conv();
    assert forall|x: usize| s.free.to_multiset().contains(x) implies s.free.to_multiset().count(
        x,
    ) == 1 by {
        assert(s.tokens().count(x) <= 1);
    }
    s.free.lemma_multiset_has_no_duplicates_conv();
    assert forall|b: usize| s.painting == Some(b) implies !s.enqueued(b) && s.flushing != Some(
        b,
    ) by {
        assert(s.tokens().count(b) <= 1);
    }
    assert forall|b: usize| s.flushing == Some(b) implies !s.enqueued(b) && s.painting != Some(
        b,
    ) by {
        assert(s.tokens().count(b) <= 1);
    }
}

/// The oldest token of a queue leaves it: what stays behind holds that
/// token once less and every other token as before.
proof fn lemma_skip_first(q: Seq<usize>)
    requires
        q.len() > 0,
    ensures
        q.skip(1).to_multiset() == q.to_multiset().remove(q[0]),
        q.to_multiset().count(q[0]) > 0,
        forall|b: usize| q.skip(1).contains(b) ==> q.contains(b),
        forall|b: usize| q.contains(b) && b != q[0] ==> q.skip(1).contains(b),
{
    broadcast use vstd::seq_lib::group_to_multiset_ensures;

    assert(q.skip(1) =~= q.remove(0));
    assert forall|b: usize| q.contains(b) && b != q[0] implies q.skip(1).contains(b) by {
        let i = choose|i: int| 0 <= i < q.len() && q[i] == b;
        assert(q.skip(1)[i - 1] == b);
    }
}

/// A token joins the back of a queue: the queue holds what it held, and the token.
proof fn lemma_push_back(q: Seq<usize>, t: usize)
    ensures
        q.push(t).to_multiset() == q.to_multiset().insert(t),
        forall|b: usize| q.push(t).contains(b) <==> q.contains(b) || b == t,
{
    broadcast use vstd::seq_lib::group_to_multiset_ensures;

    assert forall|b: usize| q.contains(b) || b == t implies q.push(t).contains(b) by {
        if q.contains(b) {
            let i = choose|i: int| 0 <= i < q.len() && q[i] == b;
            assert(q.push(t)[i] == b);
        } else {
            assert(q.push(t)[q.len() as int] == b);
        }
    }
}

/// A render tick keeps every buffer accounted for, and keeps the
/// timestamps in order where the clock has not run backwards.
pub proof fn lemma_begin_frame_inv(s: PipelineView, now: u64)
    requires
        s.accounted(),
    ensures
        s.begin_frame(now).accounted(),
        s.inv() && s.metrics.last_tick_time <= now ==> s.begin_frame(now).inv(),
{
    broadcast use vstd::seq_lib::group_to_multiset_ensures;

    if s.can_paint() {
        lemma_skip_first(s.free);
        assert(s.tokens().count(s.free[0]) > 0);
        assert(s.begin_frame(now).tokens() =~= s.tokens());
    }
}

/// Handing in a painted frame keeps every buffer accounted for and the
/// timestamps in order.
pub proof fn lemma_submit_frame_inv(s: PipelineView, buffer: usize, surface: FrameView)
    requires
        s.accounted(),
    ensures
        s.submit_frame(buffer, surface).accounted(),
        s.inv() ==> s.submit_frame(buffer, surface).inv(),
{
    broadcast use vstd::seq_lib::group_to_multiset_ensures;

    if s.painting == Some(buffer) {
        lemma_push_back(s.ready, buffer);
        assert(s.tokens().count(buffer) > 0);
        assert(s.submit_frame(buffer, surface).tokens() =~= s.tokens());
    }
}

/// Taking a frame for the display keeps every buffer accounted for and the
/// timestamps in order.
pub proof fn lemma_begin_flush_inv(s: PipelineView)
    requires
        s.accounted(),
    ensures
        s.begin_flush().accounted(),
        s.inv() ==> s.begin_flush().inv(),
{
    broadcast use vstd::seq_lib::group_to_multiset_ensures;

    if s.can_flush() {
        lemma_skip_first(s.ready);
        assert(s.tokens().count(s.ready[0]) > 0);
        assert(s.begin_flush().tokens() =~= s.tokens());
    }
}

/// Ending a flush keeps every buffer accounted for and the timestamps in order.
pub proof fn lemma_finish_flush_inv(s: PipelineView, buffer: usize, surface: FrameView)
    requires
        s.accounted(),
    ensures
        s.finish_flush(buffer, surface).accounted(),
        s.inv() ==> s.finish_flush(buffer, surface).inv(),
{
    broadcast use vstd::seq_lib::group_to_multiset_ensures;

    if s.flushing == Some(buffer) {
        lemma_push_back(s.free, buffer);
        assert(s.tokens().count(buffer) > 0);
        assert(s.finish_flush(buffer, surface).tokens() =~= s.tokens());
    }
}

/// No step of either stage loses or duplicates a buffer.
pub proof fn lemma_step_accounted(s: PipelineView, step: Step)
    requires
        s.accounted(),
    ensures
        s.step(step).accounted(),
{
    match step {
        Step::BeginFrame { now } => lemma_begin_frame_inv(s, now),
        Step::SubmitFrame { buffer, surface } => lemma_submit_frame_inv(s, buffer, surface),
        Step::BeginFlush => lemma_begin_flush_inv(s),
        Step::FinishFlush { buffer, surface } => lemma_finish_flush_inv(s, buffer, surface),
    }
}

/// However the steps of the two stages follow one another, every buffer
/// stays accounted for.
pub proof fn lemma_run_accounted(s: PipelineView, steps: Seq<Step>)
    requires
        s.accounted(),
    ensures
        s.run(steps).accounted(),
    decreases steps.len(),
{
    if steps.len() > 0 {
        lemma_run_accounted(s, steps.drop_last());
        lemma_step_accounted(s.run(steps.drop_last()), steps.last());
    }
}

/// Conservation along every schedule: after priming, whatever render ticks
/// and flushes follow in whatever order, every buffer is accounted for: the
/// buffers that the render stage holds, those in the ready queue, those
/// that the display stage holds and those in the free queue are two in all.
pub proof fn lemma_conserved_along_schedule(first: FrameView, second: FrameView, steps: Seq<Step>)
    ensures
        PipelineView::primed(first, second).run(steps).accounted(),
        PipelineView::primed(first, second).run(steps).buffer_count() == BUFFER_COUNT,
{
    let start = PipelineView::primed(first, second);
    lemma_primed_inv(first, second);
    lemma_run_accounted(start, steps);
    lemma_buffers_conserved(start.run(steps));
}

/// No buffer changes while its token waits in a queue. Over any step, a
/// buffer that was enqueued either still rests in the arena as it was, or
/// has just been taken by a stage, which now holds its token.
pub proof fn lemma_enqueued_buffer_untouched(s: PipelineView, step: Step, b: usize)
    requires
        s.accounted(),
        s.enqueued(b),
    ensures
        s.step(step).enqueued(b) ==> s.step(step).slots[b as int] == s.slots[b as int],
        !s.step(step).enqueued(b) ==> s.step(step).slots[b as int] is None && (s.step(
            step,
        ).painting == Some(b) || s.step(step).flushing == Some(b)),
{
    broadcast use vstd::seq_lib::group_to_multiset_ensures;

    lemma_step_accounted(s, step);
    lemma_places_exclusive(s);
    lemma_places_exclusive(s.step(step));
    lemma_tokens_in_range(s, b);
    match step {
        Step::BeginFrame { now } => {
            if s.can_paint() {
                lemma_skip_first(s.free);
                lemma_tokens_in_range(s, s.free[0]);
            }
        },
        Step::SubmitFrame { buffer, surface } => {
            if s.painting == Some(buffer) {
                lemma_push_back(s.ready, buffer);
                lemma_tokens_in_range(s, buffer);
            }
        },
        Step::BeginFlush => {
            if s.can_flush() {
                lemma_skip_first(s.ready);
                lemma_tokens_in_range(s, s.ready[0]);
            }
        },
        Step::FinishFlush { buffer, surface } => {
            if s.flushing == Some(buffer) {
                lemma_push_back(s.free, buffer);
                lemma_tokens_in_range(s, buffer);
            }
        },
    }
}

} // verus!
