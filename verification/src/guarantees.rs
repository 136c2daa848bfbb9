//! What the scheduler guarantees, whatever events arrive and in whatever
//! order. Each statement is about the transition function of the model, which
//! the executable scheduler follows step for step.

use vstd::prelude::*;
use crate::geometry::{viewport_of, Extent};
use crate::model::{transition, LoopState, Phase};
use crate::protocol::{
    AcquireOutcome, Command, CreationFailure, EventView, FatalError, FrameToken, SubmitOutcome,
};
use crate::surface::{chain_plan, ChainConfig, ChainError, SurfaceCapabilitiesView};
use crate::targets::{frame_targets, lemma_first_mismatch, target_of, ChainImage};

verus! {

// Runs

/// The state after a sequence of events.
pub open spec fn run(s: LoopState, events: Seq<EventView>) -> LoopState
    decreases events.len(),
{
    if events.len() == 0 {
        s
    } else {
        transition(run(s, events.drop_last()), events.last()).0
    }
}

/// The command that answers the event at position `i` of a sequence.
pub open spec fn command_at(s: LoopState, events: Seq<EventView>, i: int) -> Command {
    transition(run(s, events.take(i)), events[i]).1
}

/// The state after `i + 1` events is the state after `i` events, moved on by
/// the event at position `i`.
pub proof fn lemma_run_unfolds(s: LoopState, events: Seq<EventView>, i: int)
    requires
        0 <= i < events.len(),
    ensures
        run(s, events.take(i + 1)) == transition(run(s, events.take(i)), events[i]).0,
{
    assert(events.take(i + 1).drop_last() =~= events.take(i));
}

/// Every state that is reached from a well-formed one is well formed.
pub proof fn lemma_run_keeps_wf(s: LoopState, events: Seq<EventView>)
    requires
        s.wf(),
    ensures
        run(s, events).wf(),
    decreases events.len(),
{
    if events.len() > 0 {
        lemma_run_keeps_wf(s, events.drop_last());
    }
}

// Resizing and rebuilding

/// An event with the size taken out of a resize notification.
pub open spec fn without_size(event: EventView) -> EventView {
    match event {
        EventView::Resized(_) => EventView::Resized(Extent { width: 0, height: 0 }),
        _ => event,
    }
}

/// Two sequences that agree up to the sizes in resize notifications lead to
/// the same state after any common number of events.
proof fn lemma_prefix_runs_agree(s: LoopState, a: Seq<EventView>, b: Seq<EventView>, n: int)
    requires
        0 <= n <= a.len(),
        a.len() == b.len(),
        forall|i: int| 0 <= i < a.len() ==> without_size(a[i]) == without_size(b[i]),
    ensures
        run(s, a.take(n)) == run(s, b.take(n)),
    decreases n,
{
    if n > 0 {
        lemma_prefix_runs_agree(s, a, b, n - 1);
        lemma_run_unfolds(s, a, n - 1);
        lemma_run_unfolds(s, b, n - 1);
        assert(without_size(a[n - 1]) == without_size(b[n - 1]));
    } else {
        assert(a.take(0) =~= b.take(0));
    }
}

/// The size that a resize notification carries has no influence: two
/// sequences of events that differ in nothing else lead to the same state
/// and are answered by the same commands.
pub proof fn resize_payload_is_ignored(s: LoopState, a: Seq<EventView>, b: Seq<EventView>)
    requires
        a.len() == b.len(),
        forall|i: int| 0 <= i < a.len() ==> without_size(a[i]) == without_size(b[i]),
    ensures
        run(s, a) == run(s, b),
        forall|i: int| 0 <= i < a.len() ==> command_at(s, a, i) == command_at(s, b, i),
{
    lemma_prefix_runs_agree(s, a, b, a.len() as int);
    assert(a.take(a.len() as int) =~= a);
    assert(b.take(b.len() as int) =~= b);
    assert forall|i: int| 0 <= i < a.len() implies command_at(s, a, i) == command_at(s, b, i) by {
        lemma_prefix_runs_agree(s, a, b, i);
        assert(without_size(a[i]) == without_size(b[i]));
    }
}

/// A rebuild asks for a chain of exactly the size that the window has when
/// the surface is queried, and it asks for one whenever a chain can be
/// planned for that size.
pub proof fn rebuild_uses_current_window_size(
    s: LoopState,
    capabilities: Option<SurfaceCapabilitiesView>,
    window: Extent,
)
    requires
        s.phase is Querying,
    ensures
        ({
            let command = transition(s, EventView::SurfaceQueried { capabilities, window }).1;
            &&& command is CreateChain <==> chain_plan(capabilities, window) is Ok
            &&& command matches Command::CreateChain(config) ==> config.extent == window
        }),
{
}

/// In every run, each request to create a chain answers a query of the
/// surface and asks for the chain that is planned for what the query found:
/// its size is the size that the window had at the query.
pub proof fn every_rebuild_uses_current_window_size(s: LoopState, events: Seq<EventView>, i: int)
    requires
        0 <= i < events.len(),
        command_at(s, events, i) is CreateChain,
    ensures
        ({
            let command = command_at(s, events, i);
            &&& events[i] matches EventView::SurfaceQueried { capabilities, window }
            &&& command matches Command::CreateChain(config)
            &&& config.extent == window
            &&& chain_plan(capabilities, window) == Ok::<ChainConfig, ChainError>(config)
        }),
{
}

/// A tick begins by polling the token in flight. A rebuild begins only
/// after that poll, in a tick that found the flag set, and a chain is
/// requested only for a surface that was just queried.
pub proof fn rebuild_follows_retirement(s: LoopState, event: EventView)
    ensures
        transition(s, event).1 is Retire ==> s.phase is Idle && event is RedrawReady
            && transition(s, event).1 == Command::Retire(s.in_flight),
        transition(s, event).1 is QuerySurface ==> s.phase is Retiring && event is Retired
            && s.dirty,
        transition(s, event).1 is CreateChain ==> s.phase is Querying && event is SurfaceQueried,
{
}

proof fn lemma_stays_creating(s: LoopState, events: Seq<EventView>, i: int, m: int)
    requires
        0 <= i < m <= events.len(),
        command_at(s, events, i) is CreateChain,
        forall|k: int| i < k < m ==> !(#[trigger] events[k] is ChainCreated),
    ensures
        run(s, events.take(m)).phase is Creating,
    decreases m - i,
{
    lemma_run_unfolds(s, events, m - 1);
    if m - 1 > i {
        lemma_stays_creating(s, events, i, m - 1);
        assert(!(events[m - 1] is ChainCreated));
    }
}

/// At most one rebuild is under way: between any two requests to create a
/// chain the answer to the first has been reported.
pub proof fn one_rebuild_at_a_time(s: LoopState, events: Seq<EventView>, i: int, j: int)
    requires
        0 <= i < j < events.len(),
        command_at(s, events, i) is CreateChain,
        command_at(s, events, j) is CreateChain,
    ensures
        exists|k: int| i < k < j && #[trigger] events[k] is ChainCreated,
{
    if !(exists|k: int| i < k < j && #[trigger] events[k] is ChainCreated) {
        lemma_stays_creating(s, events, i, j);
        assert(false);
    }
}

/// As far as the viewport goes, a rebuild depends on the size of the images
/// alone: two rebuilds for images of the same size end with the same
/// viewports, from whatever states they start.
pub proof fn rebuild_same_size_same_viewport(
    s1: LoopState,
    s2: LoopState,
    images1: Seq<ChainImage>,
    images2: Seq<ChainImage>,
)
    requires
        s1.phase is Creating,
        s2.phase is Creating,
        transition(s1, EventView::ChainCreated(Ok(images1))).1 is Acquire,
        transition(s2, EventView::ChainCreated(Ok(images2))).1 is Acquire,
        images1[0].extent == images2[0].extent,
    ensures
        ({
            let t1 = transition(s1, EventView::ChainCreated(Ok(images1))).0;
            let t2 = transition(s2, EventView::ChainCreated(Ok(images2))).0;
            &&& t1.viewports == t2.viewports
            &&& t1.viewports == Some(seq![viewport_of(images1[0].extent)])
        }),
{
}

/// Rebuilding twice with the same images changes nothing the second time:
/// images, targets and viewports are the same after both.
pub proof fn rebuild_is_idempotent(s1: LoopState, s2: LoopState, images: Seq<ChainImage>)
    requires
        s1.phase is Creating,
        s2.phase is Creating,
        s1.render_pass == s2.render_pass,
        transition(s1, EventView::ChainCreated(Ok(images))).1 is Acquire,
    ensures
        ({
            let t1 = transition(s1, EventView::ChainCreated(Ok(images))).0;
            let t2 = transition(s2, EventView::ChainCreated(Ok(images))).0;
            &&& transition(s2, EventView::ChainCreated(Ok(images))).1 is Acquire
            &&& t1.images == t2.images
            &&& t1.targets == t2.targets
            &&& t1.viewports == t2.viewports
        }),
{
}

// Acquisition

/// An image is acquired only from a chain that is not known to be stale: in
/// a tick that found the flag set, the acquisition follows a rebuild that
/// succeeded.
pub proof fn acquisition_follows_rebuild(s: LoopState, event: EventView)
    ensures
        transition(s, event).1 is Acquire ==> {
            ||| s.phase is Retiring && event is Retired && !s.dirty
            ||| s.phase is Creating && (event matches EventView::ChainCreated(Ok(images))
                && frame_targets(images, s.render_pass) is Ok)
        },
{
}

/// A suboptimal acquisition still gets its frame: the submission is the one
/// that a plain acquisition of the same image gets, and the flag is set.
pub proof fn suboptimal_acquisition_is_drawn(s: LoopState, image: usize)
    requires
        s.wf(),
        s.phase is Acquiring,
        image < s.targets.len(),
    ensures
        ({
            let (t, command) = transition(
                s,
                EventView::Acquired(AcquireOutcome::Suboptimal { image }),
            );
            &&& command is Submit
            &&& command == transition(s, EventView::Acquired(AcquireOutcome::Ready { image })).1
            &&& t.dirty
            &&& t.phase is Submitting
        }),
{
}

/// After a suboptimal acquisition whose frame was presented, the next tick
/// rebuilds the chain before it acquires anything.
pub proof fn suboptimal_acquisition_rebuilds_next_tick(s: LoopState, image: usize)
    requires
        s.wf(),
        s.phase is Acquiring,
        !s.close_pending,
        image < s.targets.len(),
    ensures
        ({
            let events = seq![
                EventView::Acquired(AcquireOutcome::Suboptimal { image }),
                EventView::Submitted(SubmitOutcome::Presented),
                EventView::RedrawReady,
                EventView::Retired,
            ];
            &&& command_at(s, events, 0) is Submit
            &&& command_at(s, events, 1) == Command::Wait
            &&& command_at(s, events, 2) == Command::Retire(FrameToken::Frame(s.next_frame))
            &&& command_at(s, events, 3) == Command::QuerySurface
        }),
{
    let events = seq![
        EventView::Acquired(AcquireOutcome::Suboptimal { image }),
        EventView::Submitted(SubmitOutcome::Presented),
        EventView::RedrawReady,
        EventView::Retired,
    ];
    assert(events.take(0) =~= Seq::<EventView>::empty());
    lemma_run_unfolds(s, events, 0);
    lemma_run_unfolds(s, events, 1);
    lemma_run_unfolds(s, events, 2);
}

/// An acquisition that finds the chain out of date, or fails otherwise,
/// submits nothing: the tick ends, the flag is set, and the token in flight
/// stays as it is unless the loop closes.
pub proof fn failed_acquisition_submits_nothing(s: LoopState, outcome: AcquireOutcome)
    requires
        s.phase is Acquiring,
        outcome == AcquireOutcome::OutOfDate || outcome == AcquireOutcome::Failed,
    ensures
        ({
            let (t, command) = transition(s, EventView::Acquired(outcome));
            &&& !(command is Submit)
            &&& t.dirty
            &&& t.next_frame == s.next_frame
            &&& if s.close_pending {
                command == Command::Exit { drain: s.in_flight } && t.phase is Closed
            } else {
                command == Command::Wait && t.phase is Idle && t.in_flight == s.in_flight
            }
        }),
{
}

// Submission

/// Every submission waits for the one token in flight and draws into the
/// target of the acquired image of the current chain, with the viewport of
/// that chain. The token it signals is not the one it waits for.
pub proof fn submission_uses_current_chain(s: LoopState, event: EventView)
    requires
        s.wf(),
    ensures
        transition(s, event).1 matches Command::Submit { image, target, viewport, after, signal }
            ==> {
            &&& s.phase is Acquiring
            &&& event is Acquired
            &&& 0 <= image < s.images.len()
            &&& target == target_of(s.images[image as int], s.render_pass)
            &&& Some(seq![viewport]) == s.viewports
            &&& after == s.in_flight
            &&& signal == FrameToken::Frame(s.next_frame)
            &&& signal != after
        },
{
    lemma_first_mismatch(s.images, s.render_pass.color_format, 0);
}

proof fn lemma_stays_submitting(s: LoopState, events: Seq<EventView>, i: int, m: int)
    requires
        0 <= i < m <= events.len(),
        command_at(s, events, i) is Submit,
        forall|k: int| i < k < m ==> !(#[trigger] events[k] is Submitted),
    ensures
        run(s, events.take(m)).phase is Submitting,
    decreases m - i,
{
    lemma_run_unfolds(s, events, m - 1);
    if m - 1 > i {
        lemma_stays_submitting(s, events, i, m - 1);
        assert(!(events[m - 1] is Submitted));
    }
}

/// At most one submission awaits its answer: between any two submissions the
/// answer to the first has been reported.
pub proof fn one_submission_at_a_time(s: LoopState, events: Seq<EventView>, i: int, j: int)
    requires
        0 <= i < j < events.len(),
        command_at(s, events, i) is Submit,
        command_at(s, events, j) is Submit,
    ensures
        exists|k: int| i < k < j && #[trigger] events[k] is Submitted,
{
    if !(exists|k: int| i < k < j && #[trigger] events[k] is Submitted) {
        lemma_stays_submitting(s, events, i, j);
        assert(false);
    }
}

/// True for the answer that says that a submission broke down.
pub open spec fn is_failed_submission(event: EventView) -> bool {
    event == EventView::Submitted(SubmitOutcome::Failed)
}

/// True when the frame with serial number `n` is the last one submitted: it
/// is either awaiting its answer or in flight, unless the loop is closed.
spec fn carries(t: LoopState, n: u64) -> bool {
    if t.phase is Submitting {
        t.next_frame == n
    } else {
        t.in_flight == FrameToken::Frame(n) || t.phase is Closed
    }
}

proof fn lemma_carries(s: LoopState, events: Seq<EventView>, i: int, m: int)
    requires
        0 <= i < m <= events.len(),
        command_at(s, events, i) is Submit,
        forall|k: int| i < k < m ==> !(command_at(s, events, k) is Submit),
        forall|k: int| i < k < m ==> !is_failed_submission(#[trigger] events[k]),
    ensures
        carries(run(s, events.take(m)), run(s, events.take(i)).next_frame),
    decreases m - i,
{
    lemma_run_unfolds(s, events, m - 1);
    if m - 1 > i {
        lemma_carries(s, events, i, m - 1);
        assert(!(command_at(s, events, m - 1) is Submit));
        assert(!is_failed_submission(events[m - 1]));
    }
}

proof fn lemma_open_without_exit(s: LoopState, events: Seq<EventView>, i: int, m: int)
    requires
        0 <= i < m <= events.len(),
        command_at(s, events, i) is Submit,
        forall|k: int| i < k < m ==> !(command_at(s, events, k) is Exit),
    ensures
        !(run(s, events.take(m)).phase is Closed),
    decreases m - i,
{
    lemma_run_unfolds(s, events, m - 1);
    if m - 1 > i {
        lemma_open_without_exit(s, events, i, m - 1);
        assert(!(command_at(s, events, m - 1) is Exit));
    }
}

/// Frames are chained: a submission waits for the signal of the submission
/// before it, unless that one broke down, and it signals a token of its own.
///
/// `i` and `j` are the positions of two submissions with none between them.
pub proof fn submission_waits_for_previous_frame(
    s: LoopState,
    events: Seq<EventView>,
    i: int,
    j: int,
)
    requires
        s.wf(),
        0 <= i < j < events.len(),
        command_at(s, events, i) is Submit,
        command_at(s, events, j) is Submit,
        forall|k: int| i < k < j ==> !(command_at(s, events, k) is Submit),
        forall|k: int| i < k < j ==> !is_failed_submission(#[trigger] events[k]),
    ensures
        command_at(s, events, j)->after == command_at(s, events, i)->signal,
        command_at(s, events, j)->signal != command_at(s, events, j)->after,
{
    lemma_carries(s, events, i, j);
    lemma_run_keeps_wf(s, events.take(j));
}

/// The token of the last frame is not lost when the loop is left: the exit
/// hands out the signal of the last submission to be drained, unless that
/// submission broke down.
///
/// `i` is the position of a submission and `j` that of the first exit after
/// it, with no other submission between them.
pub proof fn exit_drains_last_frame(s: LoopState, events: Seq<EventView>, i: int, j: int)
    requires
        0 <= i < j < events.len(),
        command_at(s, events, i) is Submit,
        command_at(s, events, j) is Exit,
        forall|k: int| i < k < j ==> !(command_at(s, events, k) is Submit),
        forall|k: int| i < k < j ==> !(command_at(s, events, k) is Exit),
        forall|k: int| i < k <= j ==> !is_failed_submission(#[trigger] events[k]),
    ensures
        command_at(s, events, j)->drain == command_at(s, events, i)->signal,
{
    lemma_carries(s, events, i, j);
    lemma_open_without_exit(s, events, i, j);
    assert(!is_failed_submission(events[j]));
}

// Failures

/// True for every report of a condition that is expected to pass by itself:
/// a resize, an acquisition that yields no image or a suboptimal one, a
/// submission with any outcome, a window without area, a refused size.
pub open spec fn is_transient_condition(s: LoopState, event: EventView) -> bool {
    match event {
        EventView::Resized(_) => true,
        EventView::Acquired(AcquireOutcome::Ready { image }) => false,
        EventView::Acquired(AcquireOutcome::Suboptimal { image }) => image < s.targets.len(),
        EventView::Acquired(_) => true,
        EventView::Submitted(outcome) => outcome != SubmitOutcome::Presented,
        EventView::SurfaceQueried { capabilities, window } => chain_plan(capabilities, window)
            == Err::<ChainConfig, ChainError>(ChainError::ZeroArea),
        EventView::ChainCreated(result) => result == Err::<Seq<ChainImage>, CreationFailure>(
            CreationFailure::UnsupportedDimensions,
        ),
        _ => false,
    }
}

/// A condition that is expected to pass by itself never ends the loop with
/// an error, and where it is taken note of, the flag is set afterwards, so
/// that the next tick rebuilds the chain.
pub proof fn transient_conditions_are_absorbed(s: LoopState, event: EventView)
    requires
        !(s.phase is Failed),
        is_transient_condition(s, event),
    ensures
        !(transition(s, event).1 is Abort),
        !(transition(s, event).0.phase is Failed),
        transition(s, event).0 != s ==> transition(s, event).0.dirty,
{
}

/// True when `error` is what the loop ends with on `event` in state `s`.
pub open spec fn is_fatal_condition(s: LoopState, event: EventView, error: FatalError) -> bool {
    match (s.phase, event) {
        (Phase::Querying, EventView::SurfaceQueried { capabilities, window }) => {
            chain_plan(capabilities, window) matches Err(e) && !e.is_transient() && error
                == FatalError::Chain(e)
        },
        (Phase::Creating(_), EventView::ChainCreated(Err(failure))) => {
            !failure.is_transient() && error == FatalError::Creation(failure)
        },
        (Phase::Creating(_), EventView::ChainCreated(Ok(images))) => {
            frame_targets(images, s.render_pass) matches Err(e) && error == FatalError::Targets(e)
        },
        (Phase::Acquiring, EventView::Acquired(AcquireOutcome::Ready { image })) => {
            image >= s.targets.len() && error == FatalError::ImageOutOfRange { image }
        },
        (Phase::Acquiring, EventView::Acquired(AcquireOutcome::Suboptimal { image })) => {
            image >= s.targets.len() && error == FatalError::ImageOutOfRange { image }
        },
        _ => false,
    }
}

/// The loop ends with an error in four situations and in no other: no chain
/// can be planned for a reason other than a window without area, the chain
/// is refused for a reason other than its size, no targets can be built for
/// the new chain, or an image is acquired that the chain does not have.
pub proof fn abort_only_for_fatal_conditions(s: LoopState, event: EventView, error: FatalError)
    requires
        !(s.phase is Failed),
    ensures
        transition(s, event).1 == Command::Abort(error) <==> is_fatal_condition(s, event, error),
        transition(s, event).0.phase is Failed <==> transition(s, event).1 is Abort,
{
}

/// An error is final: afterwards the state never changes, and every event is
/// answered by the same error.
pub proof fn failure_is_final(s: LoopState, event: EventView)
    requires
        s.phase is Failed,
    ensures
        transition(s, event) == (s, Command::Abort(s.phase->Failed_0)),
{
}

/// The flag is cleared in one place only: where a rebuild begins. A rebuild
/// that does not come about sets it again.
pub proof fn flag_is_cleared_only_by_rebuild(s: LoopState, event: EventView)
    requires
        s.dirty,
    ensures
        ({
            let (t, command) = transition(s, event);
            !t.dirty ==> s.phase is Retiring && event is Retired && command is QuerySurface
        }),
{
}

/// A resize between ticks makes the next tick rebuild the chain before it
/// acquires anything.
pub proof fn resize_rebuilds_next_tick(s: LoopState, size: Extent)
    requires
        s.phase is Idle,
    ensures
        ({
            let events = seq![EventView::Resized(size), EventView::RedrawReady, EventView::Retired];
            &&& command_at(s, events, 0) == Command::Wait
            &&& command_at(s, events, 1) == Command::Retire(s.in_flight)
            &&& command_at(s, events, 2) == Command::QuerySurface
        }),
{
    let events = seq![EventView::Resized(size), EventView::RedrawReady, EventView::Retired];
    assert(events.take(0) =~= Seq::<EventView>::empty());
    lemma_run_unfolds(s, events, 0);
    lemma_run_unfolds(s, events, 1);
}

// Closing

/// A close request between ticks ends the loop at once: the token in flight
/// is handed out to be drained, nothing is in flight afterwards, and from
/// then on every event is answered by the same exit.
pub proof fn close_ends_the_loop(s: LoopState, later: EventView)
    requires
        s.phase is Idle,
    ensures
        ({
            let (t, command) = transition(s, EventView::CloseRequested);
            &&& command == Command::Exit { drain: s.in_flight }
            &&& t.phase is Closed
            &&& t.in_flight == FrameToken::Settled
            &&& transition(t, later) == (t, Command::Exit { drain: FrameToken::Settled })
        }),
{
}

/// A close request in the middle of a tick is remembered, and the tick then
/// cannot end in any other way than by leaving the loop.
pub proof fn close_is_honoured_at_end_of_tick(s: LoopState, event: EventView)
    requires
        s.mid_tick(),
    ensures
        ({
            let t = transition(s, EventView::CloseRequested).0;
            let (u, command) = transition(t, event);
            &&& t == LoopState { close_pending: true, ..s }
            &&& transition(s, EventView::CloseRequested).1 == Command::Wait
            &&& (u.mid_tick() && u.close_pending) || command is Exit || command is Abort
            &&& command is Exit ==> u.phase is Closed && u.in_flight == FrameToken::Settled
            &&& !(u.phase is Idle)
        }),
{
}

/// A close request right after one frame drains exactly that frame: the
/// exit hands out the token that the frame signalled, and nothing is in
/// flight afterwards.
pub proof fn close_after_one_frame_drains_it(s: LoopState, image: usize)
    requires
        s.wf(),
        s.phase is Idle,
        !s.dirty,
        image < s.targets.len(),
    ensures
        ({
            let events = seq![
                EventView::RedrawReady,
                EventView::Retired,
                EventView::Acquired(AcquireOutcome::Ready { image }),
                EventView::Submitted(SubmitOutcome::Presented),
                EventView::CloseRequested,
            ];
            let frame = FrameToken::Frame(s.next_frame);
            &&& command_at(s, events, 0) == Command::Retire(s.in_flight)
            &&& command_at(s, events, 1) == Command::Acquire
            &&& command_at(s, events, 2) is Submit
            &&& command_at(s, events, 2)->after == s.in_flight
            &&& command_at(s, events, 2)->signal == frame
            &&& command_at(s, events, 3) == Command::Wait
            &&& command_at(s, events, 4) == Command::Exit { drain: frame }
            &&& run(s, events).phase is Closed
            &&& run(s, events).in_flight == FrameToken::Settled
        }),
{
    let events = seq![
        EventView::RedrawReady,
        EventView::Retired,
        EventView::Acquired(AcquireOutcome::Ready { image }),
        EventView::Submitted(SubmitOutcome::Presented),
        EventView::CloseRequested,
    ];
    assert(events.take(0) =~= Seq::<EventView>::empty());
    assert(events.take(5) =~= events);
    lemma_run_unfolds(s, events, 0);
    lemma_run_unfolds(s, events, 1);
    lemma_run_unfolds(s, events, 2);
    lemma_run_unfolds(s, events, 3);
    lemma_run_unfolds(s, events, 4);
}

proof fn lemma_open_without_close(s: LoopState, events: Seq<EventView>, m: int)
    requires
        0 <= m <= events.len(),
        !(s.phase is Closed),
        !s.close_pending,
        forall|k: int| 0 <= k < m ==> !(#[trigger] events[k] is CloseRequested),
    ensures
        !(run(s, events.take(m)).phase is Closed),
        !run(s, events.take(m)).close_pending,
    decreases m,
{
    if m > 0 {
        lemma_open_without_close(s, events, m - 1);
        lemma_run_unfolds(s, events, m - 1);
        assert(!(events[m - 1] is CloseRequested));
    } else {
        assert(events.take(0) =~= Seq::<EventView>::empty());
    }
}

/// The loop is left in good order only on request: an exit is never issued
/// unless a close request has been reported.
pub proof fn exit_only_after_close(s: LoopState, events: Seq<EventView>, i: int)
    requires
        0 <= i < events.len(),
        !(s.phase is Closed),
        !s.close_pending,
        command_at(s, events, i) is Exit,
    ensures
        exists|k: int| 0 <= k <= i && #[trigger] events[k] is CloseRequested,
{
    if !(exists|k: int| 0 <= k <= i && #[trigger] events[k] is CloseRequested) {
        lemma_open_without_close(s, events, i);
        assert(!(events[i] is CloseRequested));
        assert(false);
    }
}

} // verus!
