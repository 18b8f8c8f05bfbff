//! Render-loop driver: an event-driven state machine. On each event the
//! loop decides whether to redraw, terminate, or do nothing; after every
//! event the next wake is rescheduled one fixed frame interval ahead. The
//! loop itself (waiting on the window system, issuing GPU calls) runs
//! outside the library and feeds events in; the decisions are made here.

use vstd::prelude::*;

verus! {

/// The loop's states: waiting for the next event, producing one frame, or
/// shut down for good.
#[derive(Clone, Copy, Debug, PartialEq, Eq, Structural)]
pub enum LoopState {
    Idle,
    Rendering,
    Terminated,
}

/// The kinds of event the loop can receive.
#[derive(Clone, Copy, Debug, PartialEq, Eq, Structural)]
pub enum LoopEvent {
    /// The window was asked to close.
    CloseRequested,
    /// Any other window event (resize, focus, ...) — ignored by design.
    WindowOther,
    /// The scheduled wake time was reached.
    WakeReached,
    /// The initial activation event, delivered once at startup.
    Init,
    /// Any other event source — ignored by design.
    Other,
}

/// What the loop does in response to one event.
#[derive(Clone, Copy, Debug, PartialEq, Eq, Structural)]
pub enum LoopAction {
    /// Leave the loop; no further frames.
    Exit,
    /// Produce one frame.
    Redraw,
    /// Do nothing.
    Ignore,
}

/// The fixed frame interval in nanoseconds: about 16.666 ms, a 60 Hz
/// cadence.
pub const FRAME_INTERVAL_NS: u64 = 16_666_667;

/// The transition taken on one event: a close request terminates from any
/// state; a wake or the initial activation starts a frame from `Idle`;
/// everything else is ignored. `Terminated` is absorbing.
pub open spec fn spec_step(s: LoopState, e: LoopEvent) -> (LoopState, LoopAction) {
    if s is Terminated {
        (LoopState::Terminated, LoopAction::Exit)
    } else if e is CloseRequested {
        (LoopState::Terminated, LoopAction::Exit)
    } else if s is Idle && (e is WakeReached || e is Init) {
        (LoopState::Rendering, LoopAction::Redraw)
    } else {
        (s, LoopAction::Ignore)
    }
}

/// After a frame completes the loop returns to `Idle` unconditionally.
pub open spec fn spec_finish_frame(s: LoopState) -> LoopState {
    if s is Rendering {
        LoopState::Idle
    } else {
        s
    }
}

/// Decides the transition for one event.
pub fn step(s: LoopState, e: LoopEvent) -> (r: (LoopState, LoopAction))
    ensures
        r == spec_step(s, e),
{
    match s {
        LoopState::Terminated => (LoopState::Terminated, LoopAction::Exit),
        _ => match e {
            LoopEvent::CloseRequested => (LoopState::Terminated, LoopAction::Exit),
            LoopEvent::WakeReached | LoopEvent::Init => match s {
                LoopState::Idle => (LoopState::Rendering, LoopAction::Redraw),
                _ => (s, LoopAction::Ignore),
            },
            _ => (s, LoopAction::Ignore),
        },
    }
}

/// Marks the frame complete, returning the loop to `Idle`.
pub fn finish_frame(s: LoopState) -> (r: LoopState)
    ensures
        r == spec_finish_frame(s),
{
    match s {
        LoopState::Rendering => LoopState::Idle,
        _ => s,
    }
}

/// The next scheduled wake: one fixed frame interval after `now_ns`,
/// regardless of how long the frame took.
pub fn next_wake(now_ns: u64) -> (t: u64)
    requires
        now_ns + FRAME_INTERVAL_NS <= u64::MAX,
    ensures
        t == now_ns + FRAME_INTERVAL_NS,
{
    now_ns + FRAME_INTERVAL_NS
}

/// The state after consuming `events` from `s0`, each event's transition
/// followed by frame completion.
pub open spec fn run_state(s0: LoopState, events: Seq<LoopEvent>) -> LoopState
    decreases events.len(),
{
    if events.len() == 0 {
        s0
    } else {
        run_state(spec_finish_frame(spec_step(s0, events[0]).0), events.skip(1))
    }
}

/// The action the loop takes on `events[i]`, having consumed the events
/// before it.
pub open spec fn action_at(s0: LoopState, events: Seq<LoopEvent>, i: int) -> LoopAction {
    spec_step(run_state(s0, events.take(i)), events[i]).1
}

/// `Terminated` absorbs every later event.
pub proof fn lemma_terminated_absorbing(events: Seq<LoopEvent>)
    ensures
        run_state(LoopState::Terminated, events) is Terminated,
    decreases events.len(),
{
    if events.len() > 0 {
        lemma_terminated_absorbing(events.skip(1));
    }
}

/// Running over a concatenation runs over each part in turn.
pub proof fn lemma_run_state_append(s0: LoopState, a: Seq<LoopEvent>, b: Seq<LoopEvent>)
    ensures
        run_state(s0, a + b) == run_state(run_state(s0, a), b),
    decreases a.len(),
{
    if a.len() == 0 {
        assert(a + b =~= b);
    } else {
        assert((a + b).skip(1) =~= a.skip(1) + b);
        lemma_run_state_append(spec_finish_frame(spec_step(s0, a[0]).0), a.skip(1), b);
    }
}

/// A close request delivered at any point terminates the loop: after the
/// machine consumes `events[i]`, its state is `Terminated` for good, and no
/// later event triggers a redraw.
pub proof fn lemma_close_request_terminates(s0: LoopState, events: Seq<LoopEvent>, i: int, j: int)
    requires
        0 <= i < j <= events.len(),
        events[i] is CloseRequested,
    ensures
        run_state(s0, events.take(j)) is Terminated,
        j < events.len() ==> action_at(s0, events, j) != LoopAction::Redraw,
{
    let head = events.take(i + 1);
    let tail = events.take(j).skip(i + 1);
    let before = events.take(i);
    let close = seq![events[i]];
    assert(head =~= before + close);
    lemma_run_state_append(s0, before, close);
    let s_before = run_state(s0, before);
    assert(close.skip(1) =~= Seq::<LoopEvent>::empty());
    let s_after = spec_finish_frame(spec_step(s_before, close[0]).0);
    assert(s_after is Terminated);
    assert(run_state(s_before, close) == run_state(s_after, close.skip(1)));
    assert(run_state(s_after, close.skip(1)) == s_after);
    assert(events.take(j) =~= head + tail);
    lemma_run_state_append(s0, head, tail);
    lemma_terminated_absorbing(tail);
}

} // verus!
