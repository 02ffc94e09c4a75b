//! The frames-per-second counter: a diagnostic the render loop keeps beside
//! the drawing.
//!
//! At the top of every frame the loop hands the counter the current time in
//! milliseconds. Once at least a second has passed since the last report,
//! the counter reports how many frames were rendered inside that window and
//! starts a fresh window at the current time; the reporting frame itself is
//! counted in the fresh window.

use vstd::prelude::*;

verus! {

/// Length of one reporting window, in milliseconds.
pub const REPORT_WINDOW_MS: u64 = 1000;

/// The counter's state: when the current reporting window started, and how
/// many frames have begun since.
#[derive(Clone, Copy, Debug, PartialEq, Eq, Structural)]
pub struct FpsCounter {
    pub window_start_ms: u64,
    pub frames: u32,
}

impl FpsCounter {
    /// What one frame at time `now_ms` does to the counter, and what it
    /// reports: `None` inside the window, the window's frame count once at
    /// least `REPORT_WINDOW_MS` has elapsed.
    pub open spec fn framed(self, now_ms: u64) -> (FpsCounter, Option<u32>) {
        if now_ms - self.window_start_ms >= REPORT_WINDOW_MS {
            (FpsCounter { window_start_ms: now_ms, frames: 1 }, Some(self.frames))
        } else {
            (FpsCounter { window_start_ms: self.window_start_ms, frames: (self.frames + 1) as u32 }, None)
        }
    }

    /// The counter after a run of frames at the given times, reports
    /// discarded.
    pub open spec fn framed_all(self, times: Seq<u64>) -> FpsCounter
        decreases times.len(),
    {
        if times.len() == 0 {
            self
        } else {
            self.framed(times[0]).0.framed_all(times.drop_first())
        }
    }

    /// A counter whose reporting window starts at `now_ms`, with no frames
    /// seen yet.
    pub open spec fn initial(now_ms: u64) -> FpsCounter {
        FpsCounter { window_start_ms: now_ms, frames: 0 }
    }

    /// A counter that starts a fresh reporting window at time `now_ms`.
    pub fn new(now_ms: u64) -> (c: FpsCounter)
        ensures
            c == FpsCounter::initial(now_ms),
    {
        FpsCounter { window_start_ms: now_ms, frames: 0 }
    }

    /// Record that a frame begins at time `now_ms`.
    ///
    /// Returns `Some(n)` exactly when at least `REPORT_WINDOW_MS` has elapsed
    /// since the window began: `n` frames were rendered in that window, and
    /// the count restarts at this frame. Returns `None` otherwise.
    pub fn frame(&mut self, now_ms: u64) -> (report: Option<u32>)
        requires
            old(self).window_start_ms <= now_ms,
            old(self).frames < u32::MAX,
        ensures
            (*final(self), report) == old(self).framed(now_ms),
            now_ms - old(self).window_start_ms >= REPORT_WINDOW_MS ==> {
                &&& report == Some(old(self).frames)
                &&& final(self).window_start_ms == now_ms
                &&& final(self).frames == 1
            },
            now_ms - old(self).window_start_ms < REPORT_WINDOW_MS ==> {
                &&& report is None
                &&& final(self).window_start_ms == old(self).window_start_ms
                &&& final(self).frames == old(self).frames + 1
            },
    {
        if now_ms - self.window_start_ms >= REPORT_WINDOW_MS {
            let report = self.frames;
            self.window_start_ms = now_ms;
            self.frames = 1;
            Some(report)
        } else {
            self.frames = self.frames + 1;
            None
        }
    }
}

/// Frames whose times all fall short of the window's end are counted and
/// reported in full: after `times.len()` such frames the count has grown by
/// exactly that many, the window is unchanged, and a frame at the moment the
/// window completes reports the whole count and restarts it at zero (the
/// reporting frame itself then being the first of the fresh window).
pub proof fn lemma_window_counts_every_frame(c: FpsCounter, times: Seq<u64>)
    requires
        c.frames + times.len() < u32::MAX,
        forall|i: int| 0 <= i < times.len() ==> c.window_start_ms <= #[trigger] times[i]
            && times[i] - c.window_start_ms < REPORT_WINDOW_MS,
        c.window_start_ms + REPORT_WINDOW_MS <= u64::MAX,
    ensures
        c.framed_all(times).frames == c.frames + times.len(),
        c.framed_all(times).window_start_ms == c.window_start_ms,
        c.framed_all(times).framed((c.window_start_ms + REPORT_WINDOW_MS) as u64).1
            == Some((c.frames + times.len()) as u32),
        c.framed_all(times).framed((c.window_start_ms + REPORT_WINDOW_MS) as u64).0.frames == 1,
    decreases times.len(),
{
    if times.len() > 0 {
        let c1 = c.framed(times[0]).0;
        assert(forall|i: int| 0 <= i < times.drop_first().len()
            ==> times.drop_first()[i] == #[trigger] times[i + 1]);
        lemma_window_counts_every_frame(c1, times.drop_first());
    }
}

} // verus!
