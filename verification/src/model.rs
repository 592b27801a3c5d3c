//! The pipeline as a state machine over plain values.
//!
//! Two framebuffers cycle between a render stage and a display stage. A
//! buffer is named by its token, `0` or `1`. At any moment a token is in
//! exactly one of four places: the ready queue (painted, waiting for the
//! display), the free queue (flushed, waiting for the renderer), the render
//! stage, or the display stage. While a token waits in a queue its buffer
//! rests in the arena; a stage that takes the token takes the buffer with it.

use vstd::prelude::*;
use vstd::multiset::Multiset;
use crate::config::BUFFER_COUNT;
use crate::metrics::{fps_of, RenderMetrics};
use crate::raw_framebuffer::FrameView;

verus! {

/// A failure that the bus driver reports for a write to the panel.
#[derive(Clone, Copy, Debug, PartialEq, Eq, Structural)]
pub enum TransportError {
    /// The bus was busy.
    BusBusy,
    /// The panel did not acknowledge the transfer.
    Nack,
    /// The transfer did not finish in time.
    Timeout,
    /// Any other failure of the bus or of its control pins.
    Other,
}

/// What the render stage holds while it paints a frame.
pub struct PaintJobView {
    /// The token of the buffer.
    pub buffer: usize,
    /// The buffer itself.
    pub surface: FrameView,
    /// Frames per second, for the overlay.
    pub fps: u64,
    /// Milliseconds since the previous tick, for the overlay.
    pub sps: u64,
}

/// What the display stage holds while it writes a frame to the panel.
pub struct FlushJobView {
    /// The token of the buffer.
    pub buffer: usize,
    /// The buffer itself.
    pub surface: FrameView,
}

/// What the display stage reports when a flush has ended.
#[derive(Clone, Copy, Debug, PartialEq, Eq, Structural)]
pub struct FlushReport {
    /// The token of the buffer that went back to the free queue.
    pub buffer: usize,
    /// The failure of the transfer, if it failed.
    pub failure: Option<TransportError>,
}

/// The state of the pipeline.
pub struct PipelineView {
    /// The arena: slot `b` holds buffer `b` while its token waits in a queue.
    pub slots: Seq<Option<FrameView>>,
    /// Tokens of painted frames that wait for the display, oldest first.
    pub ready: Seq<usize>,
    /// Tokens of flushed buffers that wait for the renderer, oldest first.
    pub free: Seq<usize>,
    /// The token that the render stage holds.
    pub painting: Option<usize>,
    /// The token that the display stage holds.
    pub flushing: Option<usize>,
    /// The render stage's timestamps.
    pub metrics: RenderMetrics,
}

/// One step of the pipeline. The two stages run side by side, so their steps
/// may come in any order.
pub enum Step {
    /// The render stage ticks at time `now`.
    BeginFrame { now: u64 },
    /// The render stage hands in a frame.
    SubmitFrame { buffer: usize, surface: FrameView },
    /// The display stage asks for a frame.
    BeginFlush,
    /// The display stage ends a flush.
    FinishFlush { buffer: usize, surface: FrameView },
}

/// The tokens of the pipeline's buffers, each once.
pub open spec fn all_buffers() -> Multiset<usize> {
    Multiset::empty().insert(0usize).insert(1usize)
}

/// The tokens that a stage holds: one or none.
pub open spec fn held(stage: Option<usize>) -> Multiset<usize> {
    match stage {
        Some(b) => Multiset::singleton(b),
        None => Multiset::empty(),
    }
}

impl PipelineView {
    /// The tokens in all four places together.
    pub open spec fn tokens(self) -> Multiset<usize> {
        self.ready.to_multiset().add(self.free.to_multiset()).add(held(self.painting)).add(
            held(self.flushing),
        )
    }

    /// Whether the token waits in one of the two queues.
    pub open spec fn enqueued(self, b: usize) -> bool {
        self.ready.contains(b) || self.free.contains(b)
    }

    /// The number of buffers that are accounted for: those that the render
    /// stage holds, those in the ready queue, those that the display stage
    /// holds and those in the free queue.
    pub open spec fn buffer_count(self) -> nat {
        held(self.painting).len() + self.ready.len() + held(self.flushing).len() + self.free.len()
    }

    /// Every buffer is accounted for: its token is in exactly one place, and
    /// it rests in the arena exactly while the token waits in a queue.
    pub open spec fn accounted(self) -> bool {
        &&& self.slots.len() == BUFFER_COUNT
        &&& self.tokens() == all_buffers()
        &&& forall|b: usize|
            0 <= b < BUFFER_COUNT ==> (#[trigger] self.slots[b as int] is Some <==> self.enqueued(b))
    }

    /// The invariant of the pipeline: every buffer is accounted for, and the
    /// last painted frame is no later than the last tick.
    pub open spec fn inv(self) -> bool {
        &&& self.accounted()
        &&& self.metrics.wf()
    }

    /// The state after priming: both buffers rest in the arena and both
    /// tokens wait in the ready queue, the first buffer's ahead of the
    /// second's; no stage has run.
    pub open spec fn primed(first: FrameView, second: FrameView) -> PipelineView {
        PipelineView {
            slots: seq![Some(first), Some(second)],
            ready: seq![0usize, 1usize],
            free: Seq::empty(),
            painting: None,
            flushing: None,
            metrics: RenderMetrics { last_tick_time: 0, last_update_time: 0 },
        }
    }

    /// Whether a render tick gets a buffer: the stage holds none and one is free.
    pub open spec fn can_paint(self) -> bool {
        self.painting is None && self.free.len() > 0
    }

    /// The job that a render tick at `now` starts, if it gets a buffer.
    pub open spec fn paint_job(self, now: u64) -> Option<PaintJobView> {
        if self.can_paint() {
            let b = self.free[0];
            Some(
                PaintJobView {
                    buffer: b,
                    surface: self.slots[b as int]->Some_0,
                    fps: fps_of(self.metrics.since_update(now)) as u64,
                    sps: self.metrics.since_tick(now) as u64,
                },
            )
        } else {
            None
        }
    }

    /// The state after a render tick at `now`. The tick is recorded in any
    /// case. Where the stage gets a buffer, the oldest free token moves from
    /// the free queue to the stage, its buffer leaves the arena, and the
    /// frame's time is recorded.
    pub open spec fn begin_frame(self, now: u64) -> PipelineView {
        if self.can_paint() {
            let b = self.free[0];
            PipelineView {
                slots: self.slots.update(b as int, None),
                free: self.free.skip(1),
                painting: Some(b),
                metrics: self.metrics.ticked(now).painted(now),
                ..self
            }
        } else {
            PipelineView { metrics: self.metrics.ticked(now), ..self }
        }
    }

    /// The state after the render stage hands in a painted frame. Where the
    /// stage holds the frame's token, the token goes to the back of the
    /// ready queue and the buffer returns to the arena as it was painted;
    /// a frame that the stage does not hold changes nothing.
    pub open spec fn submit_frame(self, buffer: usize, surface: FrameView) -> PipelineView {
        if self.painting == Some(buffer) {
            PipelineView {
                slots: self.slots.update(buffer as int, Some(surface)),
                ready: self.ready.push(buffer),
                painting: None,
                ..self
            }
        } else {
            self
        }
    }

    /// Whether the display stage gets a frame: it holds none and one is ready.
    pub open spec fn can_flush(self) -> bool {
        self.flushing is None && self.ready.len() > 0
    }

    /// The job that the display stage starts, if a frame is ready.
    pub open spec fn flush_job(self) -> Option<FlushJobView> {
        if self.can_flush() {
            let b = self.ready[0];
            Some(FlushJobView { buffer: b, surface: self.slots[b as int]->Some_0 })
        } else {
            None
        }
    }

    /// The state after the display stage asks for a frame. Where it gets
    /// one, the oldest ready token moves from the ready queue to the stage
    /// and its buffer leaves the arena.
    pub open spec fn begin_flush(self) -> PipelineView {
        if self.can_flush() {
            let b = self.ready[0];
            PipelineView {
                slots: self.slots.update(b as int, None),
                ready: self.ready.skip(1),
                flushing: Some(b),
                ..self
            }
        } else {
            self
        }
    }

    /// The state after the display stage ends a flush, whether the transfer
    /// succeeded or failed. Where the stage holds the buffer's token, the
    /// token goes to the back of the free queue and the buffer returns to
    /// the arena; a buffer that the stage does not hold changes nothing.
    pub open spec fn finish_flush(self, buffer: usize, surface: FrameView) -> PipelineView {
        if self.flushing == Some(buffer) {
            PipelineView {
                slots: self.slots.update(buffer as int, Some(surface)),
                free: self.free.push(buffer),
                flushing: None,
                ..self
            }
        } else {
            self
        }
    }

    /// The state after one step of either stage.
    pub open spec fn step(self, step: Step) -> PipelineView {
        match step {
            Step::BeginFrame { now } => self.begin_frame(now),
            Step::SubmitFrame { buffer, surface } => self.submit_frame(buffer, surface),
            Step::BeginFlush => self.begin_flush(),
            Step::FinishFlush { buffer, surface } => self.finish_flush(buffer, surface),
        }
    }

    /// The state after the steps, taken one after the other.
    pub open spec fn run(self, steps: Seq<Step>) -> PipelineView
        decreases steps.len(),
    {
        if steps.len() == 0 {
            self
        } else {
            self.run(steps.drop_last()).step(steps.last())
        }
    }
}

} // verus!
