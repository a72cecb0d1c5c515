//! Render-loop state: the running flag, the fixed frame dimensions, and the
//! frame-rate counter.
//!
//! The surrounding program owns the window and drains its platform events;
//! it translates each one into an [`Event`] and feeds it in here. The state
//! machine decides everything: when the loop stops, what is forwarded to the
//! windowing surface, and when a frame-rate report is emitted.

use vstd::prelude::*;

verus! {

/// A platform event, already translated out of the windowing library's own
/// event type by the surrounding program.
#[derive(Clone, Copy, PartialEq, Eq, Structural)]
pub enum Event {
    /// The user asked to close the window.
    CloseRequested,
    /// The window was resized to the given logical size, in pixels.
    Resized(u32, u32),
    /// Any other platform event; the loop ignores it.
    Other,
}

/// The running flag after one event is applied to a loop whose running flag
/// is `r`: only a close request ever clears it, and nothing sets it again.
pub open spec fn running_after_event(r: bool, e: Event) -> bool {
    r && !(e is CloseRequested)
}

/// The running flag after a whole batch of events is applied in order.
pub open spec fn running_after(r: bool, events: Seq<Event>) -> bool
    decreases events.len(),
{
    if events.len() == 0 {
        r
    } else {
        running_after_event(running_after(r, events.drop_last()), events.last())
    }
}

/// Once the loop has stopped, no batch of events restarts it.
pub proof fn lemma_stopped_stays_stopped(events: Seq<Event>)
    ensures
        !running_after(false, events),
    decreases events.len(),
{
    if events.len() > 0 {
        lemma_stopped_stays_stopped(events.drop_last());
    }
}

/// After a batch of events that holds a close request is applied in order,
/// the loop is no longer running, whatever else the batch holds and whatever
/// state it started in.
pub proof fn lemma_close_request_stops(r: bool, events: Seq<Event>)
    requires
        exists|i: int| 0 <= i < events.len() && events[i] is CloseRequested,
    ensures
        !running_after(r, events),
    decreases events.len(),
{
    let i = choose|i: int| 0 <= i < events.len() && events[i] is CloseRequested;
    if i < events.len() - 1 {
        assert(events.drop_last()[i] is CloseRequested);
        lemma_close_request_stops(r, events.drop_last());
    }
}

/// The resize requests in a batch of events, in order: what the loop
/// forwards to the windowing surface, and all it ever does with a resize.
pub open spec fn resize_forwards(events: Seq<Event>) -> Seq<(u32, u32)>
    decreases events.len(),
{
    if events.len() == 0 {
        Seq::empty()
    } else {
        let front = resize_forwards(events.drop_last());
        match events.last() {
            Event::Resized(w, h) => front + seq![(w, h)],
            _ => front,
        }
    }
}

/// The mutable state of the render loop. The dimensions are fixed for the
/// life of the loop: a window resize scales the displayed image, it never
/// reallocates the frame buffer.
pub struct RenderState {
    /// False once a close has been requested; the loop then ends.
    pub running: bool,
    /// Frame width in pixels, fixed at loop start.
    pub width: u32,
    /// Frame height in pixels, fixed at loop start.
    pub height: u32,
    /// Frames completed since the last frame-rate report.
    pub frames_since_report: u32,
}

impl RenderState {
    /// A freshly started loop: running, with the given fixed frame size and
    /// the frame-rate counter at zero.
    pub fn new(width: u32, height: u32) -> (s: Self)
        ensures
            s.running,
            s.width == width,
            s.height == height,
            s.frames_since_report == 0,
    {
        RenderState { running: true, width, height, frames_since_report: 0 }
    }

    /// Apply one platform event. A close request clears `running` for good;
    /// a resize is only forwarded to the windowing surface (the returned
    /// size), never applied to the frame dimensions; everything else is
    /// ignored. The frame size and the frame-rate counter never change here.
    pub fn apply_event(&mut self, event: &Event) -> (forward: Option<(u32, u32)>)
        ensures
            final(self).width == old(self).width,
            final(self).height == old(self).height,
            final(self).frames_since_report == old(self).frames_since_report,
            final(self).running == running_after_event(old(self).running, *event),
            forward == (match *event {
                Event::Resized(w, h) => Some((w, h)),
                _ => None::<(u32, u32)>,
            }),
    {
        match event {
            Event::CloseRequested => {
                self.running = false;
                None
            },
            Event::Resized(w, h) => Some((*w, *h)),
            Event::Other => None,
        }
    }

    /// Apply one drained batch of platform events, in order. A close request
    /// anywhere in the batch stops the loop for good; the returned sizes are
    /// the batch's resize requests, in order, for the caller to forward to
    /// the windowing surface. The frame dimensions and the frame-rate
    /// counter never change here.
    pub fn apply_events(&mut self, events: &Vec<Event>) -> (forwards: Vec<(u32, u32)>)
        ensures
            final(self).width == old(self).width,
            final(self).height == old(self).height,
            final(self).frames_since_report == old(self).frames_since_report,
            final(self).running == running_after(old(self).running, events@),
            forwards@ == resize_forwards(events@),
    {
        let ghost s0 = *self;
        let mut forwards: Vec<(u32, u32)> = Vec::new();
        let mut i: usize = 0;
        while i < events.len()
            invariant
                i <= events@.len(),
                self.width == s0.width,
                self.height == s0.height,
                self.frames_since_report == s0.frames_since_report,
                self.running == running_after(s0.running, events@.take(i as int)),
                forwards@ == resize_forwards(events@.take(i as int)),
            decreases events@.len() - i,
        {
            let forward = self.apply_event(&events[i]);
            if let Some(size) = forward {
                forwards.push(size);
            }
            proof {
                let longer = events@.take(i as int + 1);
                assert(longer.drop_last() =~= events@.take(i as int));
                assert(longer.last() == events@[i as int]);
                assert(forwards@ =~= resize_forwards(longer));
            }
            i = i + 1;
        }
        proof {
            assert(events@.take(events@.len() as int) =~= events@);
        }
        forwards
    }

    /// Whether this iteration should generate, upload and present a frame:
    /// exactly when no close has been observed yet.
    pub fn should_render(&self) -> (r: bool)
        ensures
            r == self.running,
    {
        self.running
    }

    /// Count one completed frame. When the caller's clock says the one-second
    /// report interval has elapsed, the count over that interval (this frame
    /// included) is handed out for reporting and the counter restarts at
    /// zero; otherwise the counter just grows by one.
    pub fn frame_completed(&mut self, report_due: bool) -> (report: Option<u32>)
        requires
            old(self).frames_since_report < u32::MAX,
        ensures
            final(self).running == old(self).running,
            final(self).width == old(self).width,
            final(self).height == old(self).height,
            report_due ==> (report matches Some(n) && n == old(self).frames_since_report + 1)
                && final(self).frames_since_report == 0,
            !report_due ==> report is None
                && final(self).frames_since_report == old(self).frames_since_report + 1,
    {
        let completed = self.frames_since_report + 1;
        if report_due {
            self.frames_since_report = 0;
            Some(completed)
        } else {
            self.frames_since_report = completed;
            None
        }
    }
}

} // verus!
