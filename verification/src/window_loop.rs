//! The event loop: which window to create when, how long to sleep between
//! frames, and what the loop returns when it ends.
//!
//! The loop itself (waiting for events of the windowing system) is driven by
//! the caller; `LoopRunner` holds the decisions and the state they depend on.
use vstd::prelude::*;
use crate::error::Error;
use crate::pacing::{advance_frame_deadline, next_deadline, lemma_next_deadline_properties};

verus! {

/// Entry point of the event loop.
#[derive(Debug)]
pub struct WindowLoop;

impl WindowLoop {
    pub fn new() -> (r: Self)
        ensures
            r == WindowLoop,
    {
        WindowLoop
    }
}

impl Default for WindowLoop {
    fn default() -> (r: Self)
        ensures
            r == WindowLoop,
    {
        WindowLoop::new()
    }
}

/// Frame pacing of the running loop: the interval between frames and the
/// deadline of the next one, in nanoseconds.
pub ghost struct Pacing {
    pub interval: int,
    pub next_frame: int,
}

/// The state of the loop as the contracts see it.
pub ghost struct RunnerView {
    /// The window handler has not been handed to a window yet.
    pub handler_pending: bool,
    /// The error that ended the loop, if one did.
    pub failure: Option<Error>,
    /// Present once the window exists.
    pub pacing: Option<Pacing>,
}

/// What the loop does when the windowing system resumes it.
#[derive(Debug, PartialEq, Eq, Structural, Clone, Copy)]
pub enum ResumeAction {
    /// Nothing: the window was already created (or its creation failed).
    Ignore,
    /// Create the window and give it the handler.
    CreateWindow,
}

/// How the loop waits for the next event.
#[derive(Debug, PartialEq, Eq, Structural, Clone, Copy)]
pub enum ControlFlow {
    /// Sleep until an event arrives.
    Wait,
    /// Sleep until an event arrives or the given time (in nanoseconds) is reached.
    WaitUntil(u64),
}

/// What the loop does when it has handled all pending events.
#[derive(Debug, PartialEq, Eq, Structural, Clone, Copy)]
pub struct WaitPlan {
    /// Give every window its per-frame update.
    pub update_windows: bool,
    /// How to wait afterwards.
    pub control_flow: ControlFlow,
}

/// An event of the loop, as the laws of the loop see it.
pub ghost enum LoopEvent {
    Resumed,
    WindowCreated { interval: int, now: int },
    WindowFailed(Error),
    AboutToWait { now: int },
}

/// The initial state: the handler waits for the first resume.
pub open spec fn initial_view() -> RunnerView {
    RunnerView { handler_pending: true, failure: None, pacing: None }
}

/// Resume: the first one takes the handler and asks for the window.
pub open spec fn resumed(s: RunnerView) -> (RunnerView, ResumeAction) {
    if s.handler_pending {
        (RunnerView { handler_pending: false, ..s }, ResumeAction::CreateWindow)
    } else {
        (s, ResumeAction::Ignore)
    }
}

/// The window exists: frames start one interval after `now`.
pub open spec fn window_created(s: RunnerView, interval: int, now: int) -> RunnerView {
    RunnerView { pacing: Some(Pacing { interval, next_frame: now + interval }), ..s }
}

/// Creating the window failed: the error is kept for the end of the loop.
pub open spec fn window_failed(s: RunnerView, error: Error) -> RunnerView {
    RunnerView { failure: Some(error), ..s }
}

/// All events are handled at `now`: the windows are updated when the frame
/// deadline has passed, the deadline moves past `now` on its grid, and the
/// loop sleeps until it (or, without a window, until the next event).
/// The result is the new state, whether to update the windows, and the
/// time to wake up at.
pub open spec fn about_to_wait(s: RunnerView, now: int) -> (RunnerView, bool, Option<int>) {
    match s.pacing {
        None => (s, false, None),
        Some(p) => {
            let next = next_deadline(p.next_frame, now, p.interval);
            (
                RunnerView { pacing: Some(Pacing { interval: p.interval, next_frame: next }), ..s },
                now >= p.next_frame,
                Some(next),
            )
        },
    }
}

/// One event applied to the state; the second component tells whether the
/// event made the loop ask for the window.
pub open spec fn step(s: RunnerView, e: LoopEvent) -> (RunnerView, bool) {
    match e {
        LoopEvent::Resumed => {
            let (t, a) = resumed(s);
            (t, a == ResumeAction::CreateWindow)
        },
        LoopEvent::WindowCreated { interval, now } => (window_created(s, interval, now), false),
        LoopEvent::WindowFailed(error) => (window_failed(s, error), false),
        LoopEvent::AboutToWait { now } => (about_to_wait(s, now).0, false),
    }
}

/// The state after a sequence of events.
pub open spec fn run_events(s: RunnerView, events: Seq<LoopEvent>) -> RunnerView
    decreases events.len(),
{
    if events.len() == 0 {
        s
    } else {
        step(run_events(s, events.drop_last()), events.last()).0
    }
}

/// How many times a sequence of events made the loop ask for a window.
pub open spec fn windows_requested(s: RunnerView, events: Seq<LoopEvent>) -> nat
    decreases events.len(),
{
    if events.len() == 0 {
        0
    } else {
        windows_requested(s, events.drop_last()) + (if step(
            run_events(s, events.drop_last()),
            events.last(),
        ).1 {
            1nat
        } else {
            0nat
        })
    }
}

/// What `LoopRunner::finish` returns for a state.
pub open spec fn outcome(s: RunnerView) -> Result<(), Error> {
    match s.failure {
        Some(e) => Err(e),
        None => Ok(()),
    }
}

/// No sequence of events makes a loop ask for more than one window: the
/// handler is handed out on the first resume and never again.
pub proof fn law_window_requested_at_most_once(events: Seq<LoopEvent>)
    ensures
        windows_requested(initial_view(), events) <= 1,
        run_events(initial_view(), events).handler_pending ==> windows_requested(initial_view(), events) == 0,
    decreases events.len(),
{
    if events.len() > 0 {
        law_window_requested_at_most_once(events.drop_last());
    }
}

/// The loop ends with an error exactly when creating the window failed; the
/// error it ends with is the one of the last such failure.
pub proof fn law_failure_is_reported(events: Seq<LoopEvent>)
    ensures
        outcome(run_events(initial_view(), events)) is Err <==> exists|j: int|
            0 <= j < events.len() && #[trigger] events[j] is WindowFailed,
        outcome(run_events(initial_view(), events)) matches Err(e) ==> exists|j: int|
            0 <= j < events.len() && #[trigger] events[j] == LoopEvent::WindowFailed(e) && forall|k: int|
                j < k < events.len() ==> !(#[trigger] events[k] is WindowFailed),
    decreases events.len(),
{
    if events.len() > 0 {
        let prefix = events.drop_last();
        law_failure_is_reported(prefix);
        let n = events.len() - 1;
        assert forall|j: int| 0 <= j < prefix.len() implies prefix[j] == events[j] by {}
        if events.last() is WindowFailed {
            assert(events[n] is WindowFailed);
        } else {
            if exists|j: int| 0 <= j < events.len() && #[trigger] events[j] is WindowFailed {
                let j = choose|j: int| 0 <= j < events.len() && #[trigger] events[j] is WindowFailed;
                assert(j < n);
                assert(prefix[j] is WindowFailed);
            }
            if outcome(run_events(initial_view(), events)) is Err {
                let e = outcome(run_events(initial_view(), events))->Err_0;
                assert(outcome(run_events(initial_view(), prefix)) == Err::<(), Error>(e));
                let j = choose|j: int|
                    0 <= j < prefix.len() && #[trigger] prefix[j] == LoopEvent::WindowFailed(e) && forall|k: int|
                        j < k < prefix.len() ==> !(#[trigger] prefix[k] is WindowFailed);
                assert(events[j] == LoopEvent::WindowFailed(e));
                assert forall|k: int| j < k < events.len() implies !(#[trigger] events[k] is WindowFailed) by {
                    if k < n {
                        assert(prefix[k] == events[k]);
                    }
                }
            }
        }
    }
}

/// While only "about to wait" events arrive, the frame interval stays the same
/// and the frame deadline only moves forward by whole intervals: frames are
/// skipped when the loop wakes up late, but the grid never drifts. After the
/// last of them the deadline lies after that event's `now`.
pub proof fn law_pacing_stays_on_grid(s: RunnerView, events: Seq<LoopEvent>)
    requires
        s.pacing matches Some(p) && p.interval > 0,
        forall|j: int| 0 <= j < events.len() ==> #[trigger] events[j] is AboutToWait,
    ensures
        run_events(s, events).pacing matches Some(q) && q.interval == s.pacing->Some_0.interval
            && q.next_frame >= s.pacing->Some_0.next_frame
            && (q.next_frame - s.pacing->Some_0.next_frame) % q.interval == 0,
        events.len() > 0 ==> run_events(s, events).pacing->Some_0.next_frame > events.last()->AboutToWait_now,
    decreases events.len(),
{
    let p = s.pacing->Some_0;
    if events.len() > 0 {
        let prefix = events.drop_last();
        assert forall|j: int| 0 <= j < prefix.len() implies #[trigger] prefix[j] is AboutToWait by {
            assert(prefix[j] == events[j]);
        }
        law_pacing_stays_on_grid(s, prefix);
        let mid = run_events(s, prefix).pacing->Some_0;
        assert(events[events.len() - 1] is AboutToWait);
        let now = events.last()->AboutToWait_now;
        lemma_next_deadline_properties(mid.next_frame, now, p.interval);
        let k1 = (mid.next_frame - p.next_frame) / p.interval;
        let k2 = crate::pacing::frames_to_skip(mid.next_frame, now, p.interval);
        vstd::arithmetic::div_mod::lemma_fundamental_div_mod(mid.next_frame - p.next_frame, p.interval);
        let total = next_deadline(mid.next_frame, now, p.interval) - p.next_frame;
        assert(total == (k1 + k2) * p.interval) by (nonlinear_arith)
            requires
                mid.next_frame - p.next_frame == p.interval * k1 + 0,
                total == mid.next_frame + k2 * p.interval - p.next_frame,
        {}
        vstd::arithmetic::div_mod::lemma_mod_multiples_basic(k1 + k2, p.interval);
        assert(run_events(s, events).pacing == Some(
            Pacing { interval: p.interval, next_frame: next_deadline(mid.next_frame, now, p.interval) },
        ));
    } else {
        vstd::arithmetic::div_mod::lemma_small_mod(0, p.interval as nat);
    }
}

/// When the loop is about to wait, the windows are updated exactly when a
/// window exists and its frame deadline is at or before `now`; the loop then
/// sleeps until a deadline after `now`, and a deadline still ahead is kept.
/// Without a window it waits for the next event and nothing changes.
pub proof fn law_update_when_deadline_passed(s: RunnerView, now: int)
    requires
        s.pacing matches Some(p) ==> p.interval > 0,
    ensures
        about_to_wait(s, now).1 == (s.pacing matches Some(p) && now >= p.next_frame),
        s.pacing is None ==> about_to_wait(s, now).0 == s && about_to_wait(s, now).2 is None,
        s.pacing matches Some(p) ==> (about_to_wait(s, now).2 matches Some(t) && t > now
            && t >= p.next_frame && about_to_wait(s, now).0.pacing == Some(
            Pacing { interval: p.interval, next_frame: t },
        ) && (now < p.next_frame ==> t == p.next_frame)),
{
    if let Some(p) = s.pacing {
        lemma_next_deadline_properties(p.next_frame, now, p.interval);
    }
}

/// The decisions of the running event loop.
pub struct LoopRunner {
    handler_pending: bool,
    failure: Option<Error>,
    interval_ns: u64,
    next_frame_ns: u64,
    paced: bool,
}

impl View for LoopRunner {
    type V = RunnerView;

    closed spec fn view(&self) -> RunnerView {
        RunnerView {
            handler_pending: self.handler_pending,
            failure: self.failure,
            pacing: if self.paced {
                Some(Pacing { interval: self.interval_ns as int, next_frame: self.next_frame_ns as int })
            } else {
                None
            },
        }
    }
}

impl LoopRunner {
    #[verifier::type_invariant]
    closed spec fn inv(&self) -> bool {
        self.paced ==> self.interval_ns > 0
    }

    /// Whether the next frame deadline after `now` fits in a `u64`.
    pub open spec fn wait_fits(v: RunnerView, now: int) -> bool {
        v.pacing matches Some(p) ==> next_deadline(p.next_frame, now, p.interval) <= u64::MAX
    }

    /// A loop that has not created its window yet.
    pub fn new() -> (r: Self)
        ensures
            r@ == initial_view(),
    {
        LoopRunner { handler_pending: true, failure: None, interval_ns: 1, next_frame_ns: 0, paced: false }
    }

    /// The windowing system resumed the loop.
    pub fn on_resumed(&mut self) -> (action: ResumeAction)
        ensures
            (final(self)@, action) == resumed(old(self)@),
    {
        proof {
            use_type_invariant(&*self);
        }
        if self.handler_pending {
            self.handler_pending = false;
            ResumeAction::CreateWindow
        } else {
            ResumeAction::Ignore
        }
    }

    /// The window was created at `now_ns`; its frames are `frame_interval_ns` apart.
    pub fn on_window_created(&mut self, frame_interval_ns: u64, now_ns: u64)
        requires
            frame_interval_ns > 0,
            now_ns + frame_interval_ns <= u64::MAX,
        ensures
            final(self)@ == window_created(old(self)@, frame_interval_ns as int, now_ns as int),
    {
        self.interval_ns = frame_interval_ns;
        self.next_frame_ns = now_ns + frame_interval_ns;
        self.paced = true;
    }

    /// Creating the window failed; the loop has to exit, and `finish` reports
    /// the error.
    pub fn on_window_failed(&mut self, error: Error)
        ensures
            final(self)@ == window_failed(old(self)@, error),
    {
        proof {
            use_type_invariant(&*self);
        }
        self.failure = Some(error);
    }

    /// Whether `on_about_to_wait` may be called at `now_ns`: the next frame
    /// deadline must fit in a `u64`.
    pub fn can_wait(&self, now_ns: u64) -> (ok: bool)
        ensures
            ok == Self::wait_fits(self@, now_ns as int),
    {
        proof {
            use_type_invariant(self);
        }
        if !self.paced {
            return true;
        }
        let d = self.next_frame_ns;
        let i = self.interval_ns;
        proof {
            lemma_next_deadline_properties(d as int, now_ns as int, i as int);
        }
        if d > now_ns {
            true
        } else {
            // the deadline moves to the last grid point at or before `now`, plus one interval
            let behind = now_ns - d;
            let skipped = behind / i;
            // d + skipped * i <= now, so the remaining question is whether one more interval fits
            proof {
                assert(skipped * i <= behind && (skipped + 1) * i == skipped * i + i)
                    by (nonlinear_arith)
                    requires skipped == behind / i, i > 0;
            }
            let at_or_before_now = d + skipped * i;
            at_or_before_now <= u64::MAX - i
        }
    }

    /// All pending events are handled at `now_ns`.
    pub fn on_about_to_wait(&mut self, now_ns: u64) -> (plan: WaitPlan)
        requires
            Self::wait_fits(old(self)@, now_ns as int),
        ensures
            final(self)@ == about_to_wait(old(self)@, now_ns as int).0,
            plan.update_windows == about_to_wait(old(self)@, now_ns as int).1,
            match about_to_wait(old(self)@, now_ns as int).2 {
                None => plan.control_flow == ControlFlow::Wait,
                Some(t) => plan.control_flow == ControlFlow::WaitUntil(t as u64) && t > now_ns,
            },
            plan.update_windows == (old(self)@.pacing matches Some(p) && now_ns >= p.next_frame),
            old(self)@.pacing is None ==> plan.control_flow == ControlFlow::Wait
                && final(self)@ == old(self)@,
            old(self)@.pacing matches Some(p) ==> (final(self)@.pacing matches Some(q)
                && q.interval == p.interval && q.next_frame > now_ns && q.next_frame >= p.next_frame
                && plan.control_flow == ControlFlow::WaitUntil(q.next_frame as u64)
                && (now_ns < p.next_frame ==> q.next_frame == p.next_frame)),
    {
        proof {
            use_type_invariant(&*self);
        }
        if !self.paced {
            return WaitPlan { update_windows: false, control_flow: ControlFlow::Wait };
        }
        let update_windows = now_ns >= self.next_frame_ns;
        if update_windows {
            self.next_frame_ns = advance_frame_deadline(self.next_frame_ns, now_ns, self.interval_ns);
        } else {
            proof {
                lemma_next_deadline_properties(self.next_frame_ns as int, now_ns as int, self.interval_ns as int);
            }
        }
        WaitPlan { update_windows, control_flow: ControlFlow::WaitUntil(self.next_frame_ns) }
    }

    /// The loop ended: its result is the error that stopped it, if any.
    pub fn finish(self) -> (r: Result<(), Error>)
        ensures
            r == outcome(self@),
    {
        match self.failure {
            Some(e) => Err(e),
            None => Ok(()),
        }
    }
}

} // verus!
