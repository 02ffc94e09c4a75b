//! The render loop's evolving state, threaded through each iteration: the
//! animated light color, the frames-per-second counter, and the close flag.
//!
//! One iteration of the loop is: begin the frame (which may report a
//! frames-per-second count), draw — which is the backend's business, not
//! this crate's — then end the frame, which steps the color and observes
//! the events polled from the window. The loop draws again exactly while
//! `should_continue` holds, so a close request takes effect only between
//! frames.

use vstd::prelude::*;

use crate::color::AnimatedColor;
use crate::events::LoopState;
use crate::events::WindowEvent;
use crate::events::has_close_request;
use crate::fps::FpsCounter;
use crate::fps::REPORT_WINDOW_MS;

verus! {

/// Everything the render loop mutates from frame to frame.
#[derive(Clone, Copy, Debug, PartialEq, Eq, Structural)]
pub struct FrameState {
    pub color: AnimatedColor,
    pub fps: FpsCounter,
    pub status: LoopState,
}

impl FrameState {
    pub open spec fn wf(self) -> bool {
        self.color.wf()
    }

    /// The state at launch: running, black light color, and a reporting
    /// window starting at `now_ms` with no frames counted.
    pub fn new(now_ms: u64) -> (s: FrameState)
        ensures
            s.color == AnimatedColor::initial(),
            s.fps == FpsCounter::initial(now_ms),
            s.status is Running,
            s.wf(),
    {
        FrameState { color: AnimatedColor::new(), fps: FpsCounter::new(now_ms), status: LoopState::Running }
    }

    /// Whether the loop should draw another frame.
    pub fn should_continue(&self) -> (r: bool)
        ensures
            r == (self.status is Running),
    {
        self.status.is_running()
    }

    /// Begin a frame at time `now_ms`: count it, and report the
    /// frames-per-second figure when a reporting window has completed.
    /// Color and close flag are untouched.
    pub fn begin_frame(&mut self, now_ms: u64) -> (report: Option<u32>)
        requires
            old(self).wf(),
            old(self).fps.window_start_ms <= now_ms,
            old(self).fps.frames < u32::MAX,
        ensures
            (final(self).fps, report) == old(self).fps.framed(now_ms),
            report is Some <==> now_ms - old(self).fps.window_start_ms >= REPORT_WINDOW_MS,
            final(self).color == old(self).color,
            final(self).status == old(self).status,
            final(self).wf(),
    {
        self.fps.frame(now_ms)
    }

    /// End a frame: step the animated color once, then observe the events
    /// polled from the window, closing the loop exactly when one of them is
    /// a close request.
    pub fn end_frame(&mut self, events: &Vec<WindowEvent>)
        requires
            old(self).wf(),
        ensures
            final(self).color.r == old(self).color.r.stepped(),
            final(self).color.g == old(self).color.g.stepped(),
            final(self).color.b == old(self).color.b.stepped(),
            final(self).status is Closed <==> (old(self).status is Closed
                || has_close_request(events@)),
            final(self).fps == old(self).fps,
            final(self).wf(),
    {
        self.color.step();
        self.status.observe_all(events);
    }

    /// The light color to hand the backend, in thousandths of a unit per
    /// channel.
    pub fn light_color_thousandths(&self) -> (c: (i32, i32, i32))
        ensures
            c.0 == self.color.r.value,
            c.1 == self.color.g.value,
            c.2 == self.color.b.value,
    {
        (self.color.r.value, self.color.g.value, self.color.b.value)
    }
}

} // verus!
