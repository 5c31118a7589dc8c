//! The frame scheduler: a state machine from window-system events and the
//! outcomes of its own requests to the next request. The caller performs each
//! request and reports how it ended; the scheduler decides what follows.

use vstd::prelude::*;
use crate::context::PhysicalSize;

verus! {

/// Where the scheduler stands in the frame cycle.
#[derive(Clone, Copy, Debug, PartialEq, Eq, Structural)]
pub enum Phase {
    /// Waiting for the next redraw request.
    Idle,
    /// The per-frame uniforms are being rewritten.
    Updating,
    /// The frame is being acquired and its commands recorded.
    Rendering,
    /// The commands are being submitted and the frame presented.
    Presenting,
    /// The surface is being configured.
    Resizing,
    /// The loop has ended.
    Terminating,
}

/// Why no frame could be acquired.
#[derive(Clone, Copy, Debug, PartialEq, Eq, Structural)]
pub enum SurfaceFailure {
    Timeout,
    Outdated,
    Lost,
    OutOfMemory,
    Other,
}

/// What is done about a failure to acquire a frame.
#[derive(Clone, Copy, Debug, PartialEq, Eq, Structural)]
pub enum Recovery {
    /// Configure the surface again with the last known size, and try again
    /// at the next redraw.
    Reconfigure,
    /// End the loop.
    Terminate,
    /// Report the failure and skip the frame.
    Skip,
}

/// What reaches the scheduler.
#[derive(Clone, Copy, Debug, PartialEq, Eq, Structural)]
pub enum Event {
    /// The window system asks for a frame.
    RedrawRequested,
    /// The window has a new pixel size.
    Resized(PhysicalSize),
    /// The window is to be closed.
    CloseRequested,
    /// The escape key was pressed.
    EscapePressed,
    /// `Action::Update` is done.
    Updated,
    /// `Action::Render` is done: the frame was acquired and its commands
    /// are recorded.
    Recorded,
    /// `Action::Render` could not acquire a frame.
    AcquireFailed(SurfaceFailure),
    /// `Action::Present` is done.
    Presented,
    /// `Action::Reconfigure` is done.
    Reconfigured,
}

/// What the scheduler asks of its caller.
#[derive(Clone, Copy, Debug, PartialEq, Eq, Structural)]
pub enum Action {
    /// Nothing: wait for the next event.
    Wait,
    /// Advance the elapsed time and rewrite the per-frame uniforms.
    Update,
    /// Acquire the next frame and record its commands.
    Render,
    /// Submit the recorded commands and present the frame.
    Present,
    /// Resize to the given size and configure the surface.
    Reconfigure(PhysicalSize),
    /// Report the failure; the frame is skipped.
    Skip(SurfaceFailure),
    /// Leave the event loop.
    Exit,
}

/// The scheduler: its phase and the last size that the surface was asked to
/// take.
#[derive(Clone, Copy, Debug, PartialEq, Eq, Structural)]
pub struct FrameScheduler {
    pub phase: Phase,
    pub size: PhysicalSize,
}

/// The policy for failures to acquire a frame: a lost surface is configured
/// again, exhausted memory ends the loop, anything else costs one frame.
pub open spec fn recovery_for(failure: SurfaceFailure) -> Recovery {
    match failure {
        SurfaceFailure::Lost => Recovery::Reconfigure,
        SurfaceFailure::OutOfMemory => Recovery::Terminate,
        _ => Recovery::Skip,
    }
}

/// The policy for failures to acquire a frame.
#[verifier::when_used_as_spec(recovery_for)]
pub fn classify(failure: SurfaceFailure) -> (r: Recovery)
    ensures
        r == recovery_for(failure),
{
    match failure {
        SurfaceFailure::Lost => Recovery::Reconfigure,
        SurfaceFailure::OutOfMemory => Recovery::Terminate,
        SurfaceFailure::Timeout => Recovery::Skip,
        SurfaceFailure::Outdated => Recovery::Skip,
        SurfaceFailure::Other => Recovery::Skip,
    }
}

/// The scheduler in phase `phase` with the size of `s`.
pub open spec fn in_phase(s: FrameScheduler, phase: Phase) -> FrameScheduler {
    FrameScheduler { phase, size: s.size }
}

/// One step of the machine: the scheduler after `event`, and what it asks.
///
/// Once terminated, the scheduler asks nothing more. Before that, a close
/// request or the escape key ends the loop from any phase, and a new drawable
/// size is taken up from any phase; a size with a zero dimension is ignored.
/// A redraw request starts a frame when the scheduler is idle, and each
/// completed request leads to the next one of the cycle. An event that does
/// not fit the phase is ignored.
pub open spec fn transition(s: FrameScheduler, event: Event) -> (FrameScheduler, Action) {
    if s.phase == Phase::Terminating {
        (s, Action::Wait)
    } else {
        match event {
            Event::CloseRequested | Event::EscapePressed => (
                in_phase(s, Phase::Terminating),
                Action::Exit,
            ),
            Event::Resized(size) => if size.spec_is_drawable() {
                (FrameScheduler { phase: Phase::Resizing, size }, Action::Reconfigure(size))
            } else {
                (s, Action::Wait)
            },
            Event::RedrawRequested => if s.phase == Phase::Idle {
                (in_phase(s, Phase::Updating), Action::Update)
            } else {
                (s, Action::Wait)
            },
            Event::Updated => if s.phase == Phase::Updating {
                (in_phase(s, Phase::Rendering), Action::Render)
            } else {
                (s, Action::Wait)
            },
            Event::Recorded => if s.phase == Phase::Rendering {
                (in_phase(s, Phase::Presenting), Action::Present)
            } else {
                (s, Action::Wait)
            },
            Event::AcquireFailed(failure) => if s.phase == Phase::Rendering {
                match recovery_for(failure) {
                    Recovery::Reconfigure => (
                        in_phase(s, Phase::Resizing),
                        Action::Reconfigure(s.size),
                    ),
                    Recovery::Terminate => (in_phase(s, Phase::Terminating), Action::Exit),
                    Recovery::Skip => (in_phase(s, Phase::Idle), Action::Skip(failure)),
                }
            } else {
                (s, Action::Wait)
            },
            Event::Presented => if s.phase == Phase::Presenting {
                (in_phase(s, Phase::Idle), Action::Wait)
            } else {
                (s, Action::Wait)
            },
            Event::Reconfigured => if s.phase == Phase::Resizing {
                (in_phase(s, Phase::Idle), Action::Wait)
            } else {
                (s, Action::Wait)
            },
        }
    }
}

/// The scheduler after a run of events.
pub open spec fn after(s: FrameScheduler, events: Seq<Event>) -> FrameScheduler
    decreases events.len(),
{
    if events.len() == 0 {
        s
    } else {
        transition(after(s, events.drop_last()), events.last()).0
    }
}

/// What the scheduler asks on the event at index `i` of a run.
pub open spec fn action_at(s: FrameScheduler, events: Seq<Event>, i: int) -> Action {
    transition(after(s, events.subrange(0, i)), events[i]).1
}

/// What the scheduler asks over a run of events, one action for each event.
pub open spec fn trace(s: FrameScheduler, events: Seq<Event>) -> Seq<Action> {
    Seq::new(events.len(), |i: int| action_at(s, events, i))
}

impl FrameScheduler {
    /// An idle scheduler for a surface of the given size.
    pub fn new(size: PhysicalSize) -> (s: Self)
        ensures
            s == (FrameScheduler { phase: Phase::Idle, size }),
    {
        FrameScheduler { phase: Phase::Idle, size }
    }

    /// Takes one event and says what to do next.
    pub fn step(&mut self, event: Event) -> (action: Action)
        ensures
            (*final(self), action) == transition(*old(self), event),
    {
        let size: PhysicalSize = self.size;
        let (phase, action): (Phase, Action) = match (self.phase, event) {
            (Phase::Terminating, _) => (Phase::Terminating, Action::Wait),
            (_, Event::CloseRequested) => (Phase::Terminating, Action::Exit),
            (_, Event::EscapePressed) => (Phase::Terminating, Action::Exit),
            (phase, Event::Resized(new_size)) => {
                if new_size.is_drawable() {
                    self.size = new_size;
                    (Phase::Resizing, Action::Reconfigure(new_size))
                } else {
                    (phase, Action::Wait)
                }
            },
            (Phase::Idle, Event::RedrawRequested) => (Phase::Updating, Action::Update),
            (Phase::Updating, Event::Updated) => (Phase::Rendering, Action::Render),
            (Phase::Rendering, Event::Recorded) => (Phase::Presenting, Action::Present),
            (Phase::Rendering, Event::AcquireFailed(failure)) => match classify(failure) {
                Recovery::Reconfigure => (Phase::Resizing, Action::Reconfigure(size)),
                Recovery::Terminate => (Phase::Terminating, Action::Exit),
                Recovery::Skip => (Phase::Idle, Action::Skip(failure)),
            },
            (Phase::Presenting, Event::Presented) => (Phase::Idle, Action::Wait),
            (Phase::Resizing, Event::Reconfigured) => (Phase::Idle, Action::Wait),
            (phase, _) => (phase, Action::Wait),
        };
        self.phase = phase;
        action
    }
}

/// Runs the scheduler over a queue of events and returns what it asked, in
/// order, one action for each event.
pub fn run(scheduler: &mut FrameScheduler, events: &Vec<Event>) -> (actions: Vec<Action>)
    ensures
        actions@ == trace(*old(scheduler), events@),
        *final(scheduler) == after(*old(scheduler), events@),
{
    let ghost start = *scheduler;
    let mut actions: Vec<Action> = Vec::new();
    let mut i: usize = 0;
    while i < events.len()
        invariant
            i <= events.len(),
            *scheduler == after(start, events@.subrange(0, i as int)),
            actions@ == trace(start, events@.subrange(0, i as int)),
        decreases events.len() - i,
    {
        let ghost seen = events@.subrange(0, i as int);
        let ghost more = events@.subrange(0, i + 1);
        let action = scheduler.step(events[i]);
        actions.push(action);
        proof {
            assert(more.drop_last() =~= seen);
            assert(more.last() == events@[i as int]);
            assert forall|k: int| 0 <= k < more.len() implies actions@[k] == action_at(
                start,
                more,
                k,
            ) by {
                assert(more.subrange(0, k) =~= events@.subrange(0, k));
                if k < i {
                    assert(seen.subrange(0, k) =~= events@.subrange(0, k));
                    assert(actions@[k] == action_at(start, seen, k));
                }
            }
            assert(actions@ =~= trace(start, more));
        }
        i = i + 1;
    }
    assert(events@.subrange(0, i as int) =~= events@);
    actions
}

/// No event of the run is a new drawable size.
pub open spec fn no_resize(events: Seq<Event>) -> bool {
    forall|i: int| 0 <= i < events.len() ==> !(#[trigger] events[i] is Resized)
}

/// None of the first `j` actions asks for a frame.
pub open spec fn no_render_before(actions: Seq<Action>, j: int) -> bool {
    forall|k: int| 0 <= k < j ==> #[trigger] actions[k] != Action::Render
}

/// The scheduler enters the rendering phase only by asking for a frame: as
/// long as it has not asked, it is not rendering.
pub proof fn lemma_rendering_needs_render(s: FrameScheduler, events: Seq<Event>, j: int)
    requires
        s.phase != Phase::Rendering,
        0 <= j <= events.len(),
        no_render_before(trace(s, events), j),
    ensures
        after(s, events.subrange(0, j)).phase != Phase::Rendering,
    decreases j,
{
    if j > 0 {
        lemma_rendering_needs_render(s, events, j - 1);
        let prefix = events.subrange(0, j);
        assert(prefix.drop_last() =~= events.subrange(0, j - 1));
        assert(prefix.last() == events[j - 1]);
        assert(trace(s, events)[j - 1] == action_at(s, events, j - 1));
    }
}

/// A lost surface is configured again exactly once.
///
/// When a frame cannot be acquired because the surface is lost, the scheduler
/// asks for one reconfiguration with the size it has stored, and does not end
/// the loop. Whatever follows, unless the window takes a new size the
/// scheduler asks for no further reconfiguration before it asks for the next
/// frame.
pub proof fn lemma_lost_surface_configured_once(s: FrameScheduler, rest: Seq<Event>)
    requires
        s.phase == Phase::Rendering,
        no_resize(rest),
    ensures
        transition(s, Event::AcquireFailed(SurfaceFailure::Lost)) == (
            in_phase(s, Phase::Resizing),
            Action::Reconfigure(s.size),
        ),
        forall|j: int|
            0 <= j < rest.len() && no_render_before(trace(in_phase(s, Phase::Resizing), rest), j)
                ==> !(#[trigger] trace(in_phase(s, Phase::Resizing), rest)[j] is Reconfigure),
{
    let lost = in_phase(s, Phase::Resizing);
    let actions = trace(lost, rest);
    assert forall|j: int| 0 <= j < rest.len() && no_render_before(actions, j) implies !(
    #[trigger] actions[j] is Reconfigure) by {
        lemma_rendering_needs_render(lost, rest, j);
        assert(actions[j] == action_at(lost, rest, j));
        assert(!(rest[j] is Resized));
    }
}

/// Once terminated, the scheduler stays so and asks nothing more.
pub proof fn lemma_terminated_is_final(s: FrameScheduler, events: Seq<Event>)
    requires
        s.phase == Phase::Terminating,
    ensures
        after(s, events) == s,
        forall|j: int| 0 <= j < events.len() ==> #[trigger] trace(s, events)[j] == Action::Wait,
    decreases events.len(),
{
    if events.len() > 0 {
        lemma_terminated_is_final(s, events.drop_last());
        assert forall|j: int| 0 <= j < events.len() implies #[trigger] trace(s, events)[j]
            == Action::Wait by {
            lemma_terminated_is_final(s, events.subrange(0, j));
        }
    }
}

/// Exhausted memory ends the loop, and no reconfiguration is attempted.
///
/// When a frame cannot be acquired because memory is exhausted, the scheduler
/// asks to leave the loop and terminates. Whatever events still arrive, it
/// asks nothing more: no reconfiguration and no further frame.
pub proof fn lemma_out_of_memory_terminates(s: FrameScheduler, rest: Seq<Event>)
    requires
        s.phase == Phase::Rendering,
    ensures
        transition(s, Event::AcquireFailed(SurfaceFailure::OutOfMemory)) == (
            in_phase(s, Phase::Terminating),
            Action::Exit,
        ),
        after(in_phase(s, Phase::Terminating), rest) == in_phase(s, Phase::Terminating),
        forall|j: int|
            0 <= j < rest.len() ==> #[trigger] trace(in_phase(s, Phase::Terminating), rest)[j]
                == Action::Wait,
{
    lemma_terminated_is_final(in_phase(s, Phase::Terminating), rest);
}

/// The stored size never loses a dimension: if it is drawable before a run of
/// events it is drawable after it, and every reconfiguration that the
/// scheduler asks for names a drawable size, the one it then has stored.
pub proof fn lemma_size_stays_drawable(s: FrameScheduler, events: Seq<Event>)
    requires
        s.size.spec_is_drawable(),
    ensures
        after(s, events).size.spec_is_drawable(),
        forall|j: int|
            0 <= j < events.len() ==> (#[trigger] trace(s, events)[j] matches Action::Reconfigure(
                size,
            ) ==> size.spec_is_drawable() && after(s, events.subrange(0, j + 1)).size == size),
    decreases events.len(),
{
    if events.len() > 0 {
        lemma_size_stays_drawable(s, events.drop_last());
        assert forall|j: int| 0 <= j < events.len() implies (#[trigger] trace(
            s,
            events,
        )[j] matches Action::Reconfigure(size) ==> size.spec_is_drawable() && after(
            s,
            events.subrange(0, j + 1),
        ).size == size) by {
            let upto = events.subrange(0, j + 1);
            lemma_size_stays_drawable(s, events.subrange(0, j));
            assert(upto.drop_last() =~= events.subrange(0, j));
            assert(upto.last() == events[j]);
        }
    }
}

/// Among the first `n` actions, the last one that is not a wait is an update.
pub open spec fn last_was_update(actions: Seq<Action>, n: int) -> bool {
    exists|i: int|
        0 <= i < n && #[trigger] actions[i] == Action::Update && forall|k: int|
            i < k < n ==> #[trigger] actions[k] == Action::Wait
}

/// While the scheduler is updating, the last thing it asked for was the
/// update.
pub proof fn lemma_updating_follows_update(s: FrameScheduler, events: Seq<Event>, n: int)
    requires
        s.phase != Phase::Updating,
        0 <= n <= events.len(),
    ensures
        after(s, events.subrange(0, n)).phase == Phase::Updating ==> last_was_update(
            trace(s, events),
            n,
        ),
    decreases n,
{
    if n > 0 {
        lemma_updating_follows_update(s, events, n - 1);
        let actions = trace(s, events);
        let prefix = events.subrange(0, n);
        let before = after(s, events.subrange(0, n - 1));
        assert(prefix.drop_last() =~= events.subrange(0, n - 1));
        assert(prefix.last() == events[n - 1]);
        assert(actions[n - 1] == action_at(s, events, n - 1));
        if after(s, prefix).phase == Phase::Updating {
            if before.phase == Phase::Updating {
                assert(actions[n - 1] == Action::Wait);
                let i = choose|i: int|
                    0 <= i < n - 1 && #[trigger] actions[i] == Action::Update && forall|k: int|
                        i < k < n - 1 ==> #[trigger] actions[k] == Action::Wait;
                assert(0 <= i < n && actions[i] == Action::Update);
                assert forall|k: int| i < k < n implies #[trigger] actions[k] == Action::Wait by {
                    if k < n - 1 {
                    }
                }
            } else {
                assert(actions[n - 1] == Action::Update);
            }
        }
    }
}

/// The uniforms are rewritten before the frame that reads them is recorded.
///
/// Whenever the scheduler asks for a frame, the last thing it asked for
/// before, other than to wait, was the update of that frame's uniforms.
pub proof fn lemma_update_precedes_render(s: FrameScheduler, events: Seq<Event>, j: int)
    requires
        s.phase != Phase::Updating,
        0 <= j < events.len(),
        trace(s, events)[j] == Action::Render,
    ensures
        last_was_update(trace(s, events), j),
{
    lemma_updating_follows_update(s, events, j);
    assert(trace(s, events)[j] == action_at(s, events, j));
}

/// The action needs no answer: the caller is done until the next event from
/// the window system.
pub open spec fn is_final(action: Action) -> bool {
    action is Wait || action is Exit || action is Skip
}

/// `event` reports how `action` ended.
pub open spec fn answers(action: Action, event: Event) -> bool {
    match action {
        Action::Update => event == Event::Updated,
        Action::Render => event == Event::Recorded || event is AcquireFailed,
        Action::Present => event == Event::Presented,
        Action::Reconfigure(_) => event == Event::Reconfigured,
        _ => false,
    }
}

/// Every event is dealt with in at most four requests.
///
/// Whatever the scheduler's state and whatever event arrives: if the caller
/// answers each request with its outcome, the fourth action at the latest
/// needs no answer.
pub proof fn lemma_dispatch_ends(
    s: FrameScheduler,
    event: Event,
    first: Event,
    second: Event,
    third: Event,
)
    ensures
        ({
            let (s1, a1) = transition(s, event);
            let (s2, a2) = transition(s1, first);
            let (s3, a3) = transition(s2, second);
            let (s4, a4) = transition(s3, third);
            ||| is_final(a1)
            ||| !answers(a1, first)
            ||| is_final(a2)
            ||| !answers(a2, second)
            ||| is_final(a3)
            ||| !answers(a3, third)
            ||| is_final(a4)
        }),
{
}

} // verus!
