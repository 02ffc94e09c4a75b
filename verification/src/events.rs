//! The render loop's life cycle: it runs until the window asks to close.
//!
//! The loop polls the window's events once per iteration, after the frame
//! has been drawn, so a close request never interrupts a frame: it is
//! observed between frames, and the loop ends before the next one begins.
//! There is one transition, from `Running` to the terminal `Closed`, taken
//! when a close request is seen; every other event leaves the state alone.

use vstd::prelude::*;

verus! {

/// What event polling hands the loop: a close request, or anything else
/// (which the loop ignores).
#[derive(Clone, Copy, Debug, PartialEq, Eq, Structural)]
pub enum WindowEvent {
    CloseRequested,
    Other,
}

/// The loop's state: drawing frames, or done for good.
#[derive(Clone, Copy, Debug, PartialEq, Eq, Structural)]
pub enum LoopState {
    Running,
    Closed,
}

/// Whether some event in the sequence is a close request.
pub open spec fn has_close_request(events: Seq<WindowEvent>) -> bool {
    exists|i: int| 0 <= i < events.len() && events[i] is CloseRequested
}

impl LoopState {
    /// The state after observing one event: a close request closes the loop,
    /// anything else changes nothing, and `Closed` is terminal.
    pub open spec fn observed(self, event: WindowEvent) -> LoopState {
        if event is CloseRequested {
            LoopState::Closed
        } else {
            self
        }
    }

    /// Whether another frame should be drawn.
    pub fn is_running(&self) -> (r: bool)
        ensures
            r == (*self is Running),
    {
        match self {
            LoopState::Running => true,
            LoopState::Closed => false,
        }
    }

    /// Observe one polled event.
    pub fn observe(&mut self, event: WindowEvent)
        ensures
            *final(self) == old(self).observed(event),
    {
        if let WindowEvent::CloseRequested = event {
            *self = LoopState::Closed;
        }
    }

    /// Observe one iteration's batch of polled events: the loop keeps
    /// running exactly when it was running before and no event in the batch
    /// asks to close.
    pub fn observe_all(&mut self, events: &Vec<WindowEvent>)
        ensures
            *final(self) is Closed <==> (*old(self) is Closed || has_close_request(events@)),
    {
        let mut k: usize = 0;
        while k < events.len()
            invariant
                0 <= k <= events@.len(),
                *self is Closed <==> (*old(self) is Closed || has_close_request(events@.take(k as int))),
            decreases events@.len() - k,
        {
            let ghost prefix = events@.take(k as int);
            self.observe(events[k]);
            k = k + 1;
            assert(events@.take(k as int) == prefix.push(events@[k - 1]));
            assert(has_close_request(events@.take(k as int))
                <==> (has_close_request(prefix) || events@[k - 1] is CloseRequested)) by {
                if has_close_request(events@.take(k as int)) {
                    let i = choose|i: int| 0 <= i < events@.take(k as int).len()
                        && events@.take(k as int)[i] is CloseRequested;
                    if i < k - 1 {
                        assert(prefix[i] is CloseRequested);
                    }
                }
                if has_close_request(prefix) {
                    let i = choose|i: int| 0 <= i < prefix.len() && prefix[i] is CloseRequested;
                    assert(events@.take(k as int)[i] is CloseRequested);
                }
                if events@[k - 1] is CloseRequested {
                    assert(events@.take(k as int)[k - 1] is CloseRequested);
                }
            }
        }
        assert(events@.take(events@.len() as int) == events@);
    }
}

/// How many frames the loop completes, given the batch of events polled at
/// the end of each frame: a close request takes effect only between frames,
/// so the loop runs through exactly the frames up to and including the one
/// whose batch first asks to close — and through all of them when none does
/// (`None`: the given batches never stop it).
pub fn frames_completed_until_close(batches: &Vec<Vec<WindowEvent>>) -> (n: Option<usize>)
    ensures
        match n {
            Some(k) => {
                &&& 1 <= k <= batches@.len()
                &&& has_close_request(batches@[k - 1]@)
                &&& forall|j: int| 0 <= j < k - 1 ==> !has_close_request(#[trigger] batches@[j]@)
            },
            None => forall|j: int| 0 <= j < batches@.len()
                ==> !has_close_request(#[trigger] batches@[j]@),
        },
{
    let mut status = LoopState::Running;
    let mut frames: usize = 0;
    while status.is_running() && frames < batches.len()
        invariant
            0 <= frames <= batches@.len(),
            status is Running ==> forall|j: int| 0 <= j < frames
                ==> !has_close_request(#[trigger] batches@[j]@),
            status is Closed ==> {
                &&& 1 <= frames
                &&& has_close_request(batches@[frames - 1]@)
                &&& forall|j: int| 0 <= j < frames - 1
                    ==> !has_close_request(#[trigger] batches@[j]@)
            },
        decreases batches@.len() - frames,
    {
        let polled = frames;
        frames = frames + 1;
        status.observe_all(&batches[polled]);
    }
    if status.is_running() {
        None
    } else {
        Some(frames)
    }
}

} // verus!
