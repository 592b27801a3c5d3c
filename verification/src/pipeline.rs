//! The double-buffered frame pipeline.
//!
//! Two framebuffers cycle between a render stage and a display stage. The
//! render stage takes a free buffer, paints it and hands it in; the display
//! stage takes a painted buffer, writes it to the panel and gives it back.
//! A buffer passes from stage to stage as a token in one of two bounded
//! queues, and the stage that holds the token holds the buffer: nobody else
//! can reach it.

use vstd::prelude::*;
use crate::config::{BUFFER_COUNT, QUEUE_CAPACITY};
use crate::laws::{
    lemma_begin_flush_inv, lemma_begin_frame_inv, lemma_buffers_conserved, lemma_finish_flush_inv,
    lemma_primed_inv, lemma_submit_frame_inv,
};
use crate::metrics::RenderMetrics;
use crate::model::{FlushJobView, FlushReport, PaintJobView, PipelineView, TransportError};
use crate::queue::{
    queue_len, queue_new, queue_tokens, queue_try_receive, queue_try_send, TokenQueue,
};
use crate::raw_framebuffer::{FrameView, RawFramebuffer};

verus! {

/// A buffer in the hands of the render stage, with the figures that the
/// frame's overlay shows. The buffer returns to the pipeline only when the
/// job is handed in.
#[must_use]
#[derive(Debug)]
pub struct PaintJob {
    buffer: usize,
    surface: RawFramebuffer,
    fps: u64,
    sps: u64,
}

impl View for PaintJob {
    type V = PaintJobView;

    closed spec fn view(&self) -> PaintJobView {
        PaintJobView { buffer: self.buffer, surface: self.surface@, fps: self.fps, sps: self.sps }
    }
}

impl PaintJob {
    /// The token of the buffer.
    pub fn buffer(&self) -> (b: usize)
        ensures
            b == self@.buffer,
    {
        self.buffer
    }

    /// Frames per second, from the time since the frame before this one.
    pub fn fps(&self) -> (fps: u64)
        ensures
            fps == self@.fps,
    {
        self.fps
    }

    /// Milliseconds since the tick before this one.
    pub fn sps(&self) -> (sps: u64)
        ensures
            sps == self@.sps,
    {
        self.sps
    }

    /// The buffer, to look at.
    pub fn surface(&self) -> (fb: &RawFramebuffer)
        ensures
            fb@ == self@.surface,
    {
        &self.surface
    }

    /// The buffer, to paint on. Whatever is painted changes the job's
    /// surface and nothing else of the job.
    pub fn surface_mut(&mut self) -> (fb: &mut RawFramebuffer)
        ensures
            fb@ == old(self)@.surface,
            final(self)@ == (PaintJobView { surface: final(fb)@, ..old(self)@ }),
    {
        &mut self.surface
    }
}

/// A painted buffer in the hands of the display stage. The buffer returns
/// to the pipeline only when the flush is ended.
#[must_use]
#[derive(Debug)]
pub struct FlushJob {
    buffer: usize,
    surface: RawFramebuffer,
}

impl View for FlushJob {
    type V = FlushJobView;

    closed spec fn view(&self) -> FlushJobView {
        FlushJobView { buffer: self.buffer, surface: self.surface@ }
    }
}

impl FlushJob {
    /// The token of the buffer.
    pub fn buffer(&self) -> (b: usize)
        ensures
            b == self@.buffer,
    {
        self.buffer
    }

    /// The frame to write to the panel.
    pub fn surface(&self) -> (fb: &RawFramebuffer)
        ensures
            fb@ == self@.surface,
    {
        &self.surface
    }
}

/// The failure that the outcome of a transfer carries, if any.
pub open spec fn failure_of(outcome: Result<(), TransportError>) -> Option<TransportError> {
    match outcome {
        Ok(_) => None,
        Err(e) => Some(e),
    }
}

/// The pipeline: the arena of buffers, the two queues and what each stage holds.
pub struct Pipeline {
    slots: Vec<Option<RawFramebuffer>>,
    ready: TokenQueue,
    free: TokenQueue,
    painting: Option<usize>,
    flushing: Option<usize>,
    metrics: RenderMetrics,
}

/// Puts a token at the back of a queue that has room for it.
///
/// The queues are as large as the number of buffers. A stage that holds a
/// buffer therefore always finds room for its token; a full queue would mean
/// that a buffer is counted twice. The pipeline's invariant rules that out,
/// so the fatal stop in the refusal's arm is never reached.
fn enqueue(q: &mut TokenQueue, token: usize)
    requires
        queue_tokens(*old(q)).len() < QUEUE_CAPACITY,
    ensures
        queue_tokens(*final(q)) == queue_tokens(*old(q)).push(token),
{
    match queue_try_send(q, token) {
        Ok(()) => {},
        Err(_) => unreached(),
    }
}

/// The contents of an arena slot.
pub open spec fn slot_view(slot: Option<RawFramebuffer>) -> Option<FrameView> {
    match slot {
        Some(fb) => Some(fb@),
        None => None,
    }
}

impl View for Pipeline {
    type V = PipelineView;

    closed spec fn view(&self) -> PipelineView {
        PipelineView {
            slots: self.slots@.map_values(|slot: Option<RawFramebuffer>| slot_view(slot)),
            ready: queue_tokens(self.ready),
            free: queue_tokens(self.free),
            painting: self.painting,
            flushing: self.flushing,
            metrics: self.metrics,
        }
    }
}

impl Pipeline {
    /// A pipeline over two buffers, primed: both buffers wait in the ready
    /// queue, `first` ahead of `second`, so the display stage has work at
    /// once and shows the buffers as they are before the render stage has
    /// painted anything.
    pub fn new(first: RawFramebuffer, second: RawFramebuffer) -> (p: Pipeline)
        ensures
            p@ == PipelineView::primed(first@, second@),
            p@.inv(),
    {
        let mut slots: Vec<Option<RawFramebuffer>> = Vec::new();
        slots.push(Some(first));
        slots.push(Some(second));
        let mut ready = queue_new();
        let free = queue_new();
        enqueue(&mut ready, 0);
        enqueue(&mut ready, 1);
        proof {
            lemma_primed_inv(first@, second@);
            assert(queue_tokens(ready) =~= seq![0usize, 1usize]);
            assert(slots@.map_values(|slot: Option<RawFramebuffer>| slot_view(slot)) =~= seq![
                Some(first@),
                Some(second@),
            ]);
        }
        Pipeline { slots, ready, free, painting: None, flushing: None, metrics: RenderMetrics::new() }
    }

    /// The number of painted frames that wait for the display.
    pub fn ready_len(&self) -> (n: usize)
        ensures
            n == self@.ready.len(),
    {
        queue_len(&self.ready)
    }

    /// The number of buffers that wait for the renderer.
    pub fn free_len(&self) -> (n: usize)
        ensures
            n == self@.free.len(),
    {
        queue_len(&self.free)
    }

    /// The token of the buffer that the render stage holds, if it holds one.
    pub fn painting(&self) -> (b: Option<usize>)
        ensures
            b == self@.painting,
    {
        self.painting
    }

    /// The token of the buffer that the display stage holds, if it holds one.
    pub fn flushing(&self) -> (b: Option<usize>)
        ensures
            b == self@.flushing,
    {
        self.flushing
    }

    /// The render stage's timestamps.
    pub fn metrics(&self) -> (m: RenderMetrics)
        ensures
            m == self@.metrics,
    {
        self.metrics
    }

    /// Counts the buffers in all four places: those that the render stage
    /// holds, those in the ready queue, those that the display stage holds
    /// and those in the free queue. The count is always two.
    pub fn buffer_count(&self) -> (n: usize)
        requires
            self@.inv(),
        ensures
            n == self@.buffer_count(),
            n == BUFFER_COUNT,
    {
        proof {
            lemma_buffers_conserved(self@);
        }
        let rendering: usize = if self.painting.is_some() {
            1
        } else {
            0
        };
        let displaying: usize = if self.flushing.is_some() {
            1
        } else {
            0
        };
        rendering + queue_len(&self.ready) + displaying + queue_len(&self.free)
    }

    /// One tick of the render stage at time `now`, in milliseconds of a
    /// monotonic clock.
    ///
    /// The tick never waits. It records its time, and where the stage holds
    /// no buffer and one is free it takes the buffer that has been free
    /// longest and returns it as a job, with the figures for the overlay.
    /// Without a free buffer the frame is skipped and `None` is returned.
    pub fn begin_frame(&mut self, now: u64) -> (job: Option<PaintJob>)
        requires
            old(self)@.inv(),
            old(self)@.metrics.last_tick_time <= now,
        ensures
            final(self)@ == old(self)@.begin_frame(now),
            final(self)@.inv(),
            job is Some <==> old(self)@.can_paint(),
            job is Some ==> Some(job->Some_0@) == old(self)@.paint_job(now),
    {
        proof {
            lemma_begin_frame_inv(self@, now);
        }
        let fps = self.metrics.frame_rate(now);
        let sps = self.metrics.tick(now);
        if self.painting.is_some() {
            return None;
        }
        match queue_try_receive(&mut self.free) {
            None => None,
            Some(buffer) => {
                proof {
                    broadcast use vstd::seq_lib::group_to_multiset_ensures;

                    assert(old(self)@.tokens().count(buffer) > 0);
                }
                self.metrics.mark_painted(now);
                self.painting = Some(buffer);
                let surface = self.slots[buffer].take().unwrap();
                proof {
                    assert(self@.slots =~= old(self)@.begin_frame(now).slots);
                }
                Some(PaintJob { buffer, surface, fps, sps })
            },
        }
    }

    /// The render stage hands in the frame that it has painted. The frame
    /// goes to the back of the ready queue. A job that this pipeline's render
    /// stage does not hold is refused and comes back.
    pub fn submit_frame(&mut self, job: PaintJob) -> (r: Result<(), PaintJob>)
        requires
            old(self)@.inv(),
        ensures
            final(self)@ == old(self)@.submit_frame(job@.buffer, job@.surface),
            final(self)@.inv(),
            r is Ok <==> old(self)@.painting == Some(job@.buffer),
            r is Err ==> r->Err_0 == job,
    {
        proof {
            lemma_submit_frame_inv(self@, job@.buffer, job@.surface);
            lemma_buffers_conserved(self@);
        }
        let held = match self.painting {
            Some(b) => b == job.buffer,
            None => false,
        };
        if !held {
            return Err(job);
        }
        let PaintJob { buffer, surface, fps: _, sps: _ } = job;
        proof {
            broadcast use vstd::seq_lib::group_to_multiset_ensures;

            assert(old(self)@.tokens().count(buffer) > 0);
        }
        enqueue(&mut self.ready, buffer);
        self.slots[buffer] = Some(surface);
        self.painting = None;
        proof {
            assert(self@.slots =~= old(self)@.submit_frame(job@.buffer, job@.surface).slots);
        }
        Ok(())
    }

    /// The display stage asks for the next painted frame. Where the stage
    /// holds no buffer and a frame is ready it gets the frame that has been
    /// ready longest; otherwise it gets `None` and has to wait.
    pub fn begin_flush(&mut self) -> (job: Option<FlushJob>)
        requires
            old(self)@.inv(),
        ensures
            final(self)@ == old(self)@.begin_flush(),
            final(self)@.inv(),
            job is Some <==> old(self)@.can_flush(),
            job is Some ==> Some(job->Some_0@) == old(self)@.flush_job(),
    {
        proof {
            lemma_begin_flush_inv(self@);
        }
        if self.flushing.is_some() {
            return None;
        }
        match queue_try_receive(&mut self.ready) {
            None => None,
            Some(buffer) => {
                proof {
                    broadcast use vstd::seq_lib::group_to_multiset_ensures;

                    assert(old(self)@.tokens().count(buffer) > 0);
                }
                self.flushing = Some(buffer);
                let surface = self.slots[buffer].take().unwrap();
                proof {
                    assert(self@.slots =~= old(self)@.begin_flush().slots);
                }
                Some(FlushJob { buffer, surface })
            },
        }
    }

    /// The display stage ends a flush and says how the transfer went.
    ///
    /// The buffer goes to the back of the free queue whether the transfer
    /// succeeded or failed, so a fault of the bus never starves the render
    /// stage. The report names the buffer and carries the failure, if there
    /// was one. A job that this pipeline's display stage does not hold is
    /// refused and comes back.
    pub fn finish_flush(&mut self, job: FlushJob, outcome: Result<(), TransportError>) -> (r:
        Result<FlushReport, FlushJob>)
        requires
            old(self)@.inv(),
        ensures
            final(self)@ == old(self)@.finish_flush(job@.buffer, job@.surface),
            final(self)@.inv(),
            r is Ok <==> old(self)@.flushing == Some(job@.buffer),
            r is Ok ==> r->Ok_0 == (FlushReport {
                buffer: job@.buffer,
                failure: failure_of(outcome),
            }),
            r is Err ==> r->Err_0 == job,
    {
        proof {
            lemma_finish_flush_inv(self@, job@.buffer, job@.surface);
            lemma_buffers_conserved(self@);
        }
        let held = match self.flushing {
            Some(b) => b == job.buffer,
            None => false,
        };
        if !held {
            return Err(job);
        }
        let FlushJob { buffer, surface } = job;
        proof {
            broadcast use vstd::seq_lib::group_to_multiset_ensures;

            assert(old(self)@.tokens().count(buffer) > 0);
        }
        enqueue(&mut self.free, buffer);
        self.slots[buffer] = Some(surface);
        self.flushing = None;
        proof {
            assert(self@.slots =~= old(self)@.finish_flush(job@.buffer, job@.surface).slots);
        }
        let failure = match outcome {
            Ok(_) => None,
            Err(e) => Some(e),
        };
        Ok(FlushReport { buffer, failure })
    }
}

} // verus!
