//! The frame scheduler as a mathematical state machine: a state, and for each
//! state and event the next state and the command that is issued.

use vstd::prelude::*;
use crate::geometry::{viewport_of, Extent, Viewport};
use crate::protocol::{
    next_serial, AcquireOutcome, Command, CreationFailure, EventView, FatalError, FrameToken,
    SubmitOutcome,
};
use crate::surface::{chain_plan, ChainConfig, SurfaceCapabilitiesView};
use crate::targets::{
    frame_targets, viewports_for, ChainImage, FrameTarget, RenderPass, TargetError,
};

verus! {

/// Where the scheduler stands within a tick.
#[derive(Clone, Copy, Debug, PartialEq, Eq, Structural)]
pub enum Phase {
    /// Between ticks.
    Idle,
    /// The token in flight is being polled.
    Retiring,
    /// The surface is being queried for a rebuild.
    Querying,
    /// A chain with this configuration is being created.
    Creating(ChainConfig),
    /// The next image is being acquired.
    Acquiring,
    /// A frame is being submitted and presented.
    Submitting,
    /// The loop has ended on a close request.
    Closed,
    /// The loop has ended on an error.
    Failed(FatalError),
}

/// Everything the scheduler knows.
pub struct LoopState {
    pub phase: Phase,
    /// Set when the chain has to be rebuilt before the next acquisition.
    pub dirty: bool,
    /// Set when a close request arrived in the middle of a tick.
    pub close_pending: bool,
    /// The one token that stands for work possibly still on the GPU.
    pub in_flight: FrameToken,
    /// The serial number that the next submitted frame gets.
    pub next_frame: u64,
    pub render_pass: RenderPass,
    /// The configuration of the current chain.
    pub config: ChainConfig,
    /// The images of the current chain.
    pub images: Seq<ChainImage>,
    /// The targets of the current chain, one per image.
    pub targets: Seq<FrameTarget>,
    /// The viewports of the dynamic state.
    pub viewports: Option<Seq<Viewport>>,
}

impl LoopState {
    /// What holds of every state that the scheduler can be in: targets and
    /// viewport belong to the current chain, the serial number of the token
    /// in flight is the one just before the next to be given out, nothing is
    /// in flight once the loop is closed, and no close request is pending
    /// between ticks.
    pub open spec fn wf(self) -> bool {
        &&& frame_targets(self.images, self.render_pass) == Ok::<Seq<FrameTarget>, TargetError>(
            self.targets,
        )
        &&& self.viewports == Some(viewports_for(self.images))
        &&& (self.in_flight matches FrameToken::Frame(n) ==> next_serial(n) == self.next_frame)
        &&& (self.phase is Closed ==> self.in_flight == FrameToken::Settled)
        &&& (self.phase is Idle ==> !self.close_pending)
    }

    /// True while a tick is under way.
    pub open spec fn mid_tick(self) -> bool {
        !(self.phase is Idle) && !(self.phase is Closed) && !(self.phase is Failed)
    }
}

/// The state in which the loop starts, given the first chain.
pub open spec fn initial_state(config: ChainConfig, images: Seq<ChainImage>) -> LoopState {
    let render_pass = RenderPass { color_format: config.format };
    LoopState {
        phase: Phase::Idle,
        dirty: false,
        close_pending: false,
        in_flight: FrameToken::Settled,
        next_frame: 0,
        render_pass,
        config,
        images,
        targets: match frame_targets(images, render_pass) {
            Ok(targets) => targets,
            Err(_) => Seq::empty(),
        },
        viewports: Some(viewports_for(images)),
    }
}

/// Leaving the loop: the token in flight is handed out to be drained, and
/// nothing is in flight afterwards.
pub open spec fn close(s: LoopState) -> (LoopState, Command) {
    (
        LoopState {
            phase: Phase::Closed,
            close_pending: false,
            in_flight: FrameToken::Settled,
            ..s
        },
        Command::Exit { drain: s.in_flight },
    )
}

/// Ending the loop with an error.
pub open spec fn fail(s: LoopState, error: FatalError) -> (LoopState, Command) {
    (LoopState { phase: Phase::Failed(error), ..s }, Command::Abort(error))
}

/// The end of a tick: the loop closes if that was asked for meanwhile, and
/// else goes back to waiting.
pub open spec fn finish_tick(s: LoopState) -> (LoopState, Command) {
    if s.close_pending {
        close(s)
    } else {
        (LoopState { phase: Phase::Idle, ..s }, Command::Wait)
    }
}

/// After the poll of the token in flight: a rebuild if the chain is dirty,
/// and else the acquisition. The flag is cleared when the rebuild begins.
pub open spec fn after_retire(s: LoopState) -> (LoopState, Command) {
    if s.dirty {
        (LoopState { phase: Phase::Querying, dirty: false, ..s }, Command::QuerySurface)
    } else {
        (LoopState { phase: Phase::Acquiring, ..s }, Command::Acquire)
    }
}

/// After the surface was queried: the chain is planned for the size that the
/// window has now. A window without area ends the tick with the flag set
/// again; any other failure is fatal.
pub open spec fn after_query(
    s: LoopState,
    capabilities: Option<SurfaceCapabilitiesView>,
    window: Extent,
) -> (LoopState, Command) {
    match chain_plan(capabilities, window) {
        Ok(config) => (
            LoopState { phase: Phase::Creating(config), ..s },
            Command::CreateChain(config),
        ),
        Err(e) => if e.is_transient() {
            finish_tick(LoopState { dirty: true, ..s })
        } else {
            fail(s, FatalError::Chain(e))
        },
    }
}

/// After the chain was created: targets and viewport are rebuilt for the new
/// images, and the tick goes on to the acquisition. A refusal of the size
/// ends the tick with the flag set again; any other failure is fatal.
pub open spec fn after_create(
    s: LoopState,
    config: ChainConfig,
    result: Result<Seq<ChainImage>, CreationFailure>,
) -> (LoopState, Command) {
    match result {
        Ok(images) => match frame_targets(images, s.render_pass) {
            Ok(targets) => (
                LoopState {
                    phase: Phase::Acquiring,
                    config,
                    images,
                    targets,
                    viewports: Some(viewports_for(images)),
                    ..s
                },
                Command::Acquire,
            ),
            Err(e) => fail(s, FatalError::Targets(e)),
        },
        Err(failure) => if failure.is_transient() {
            finish_tick(LoopState { dirty: true, ..s })
        } else {
            fail(s, FatalError::Creation(failure))
        },
    }
}

/// The submission of a frame for the acquired image: it waits for the token
/// in flight and signals a token with the next serial number.
pub open spec fn submit(s: LoopState, image: usize) -> (LoopState, Command) {
    if image < s.targets.len() {
        (
            LoopState { phase: Phase::Submitting, ..s },
            Command::Submit {
                image,
                target: s.targets[image as int],
                viewport: viewport_of(s.images[0].extent),
                after: s.in_flight,
                signal: FrameToken::Frame(s.next_frame),
            },
        )
    } else {
        fail(s, FatalError::ImageOutOfRange { image })
    }
}

/// After the acquisition: a frame is submitted for the acquired image, with
/// the flag set if the chain is suboptimal. Without an image the tick ends
/// with the flag set.
pub open spec fn after_acquire(s: LoopState, outcome: AcquireOutcome) -> (LoopState, Command) {
    match outcome {
        AcquireOutcome::Ready { image } => submit(s, image),
        AcquireOutcome::Suboptimal { image } => submit(LoopState { dirty: true, ..s }, image),
        AcquireOutcome::OutOfDate => finish_tick(LoopState { dirty: true, ..s }),
        AcquireOutcome::Failed => finish_tick(LoopState { dirty: true, ..s }),
    }
}

/// After the submission: the new token replaces the one in flight, and the
/// flag is set if presentation found the chain suboptimal or out of date. If
/// the submission failed, the flag is set and a settled token takes the place
/// instead, so that nothing ever waits for a signal that will not come. The
/// serial number is used up either way.
pub open spec fn after_submit(s: LoopState, outcome: SubmitOutcome) -> (LoopState, Command) {
    let signal = FrameToken::Frame(s.next_frame);
    let used = LoopState { next_frame: next_serial(s.next_frame), ..s };
    match outcome {
        SubmitOutcome::Presented => finish_tick(LoopState { in_flight: signal, ..used }),
        SubmitOutcome::Suboptimal => finish_tick(
            LoopState { in_flight: signal, dirty: true, ..used },
        ),
        SubmitOutcome::OutOfDate => finish_tick(
            LoopState { in_flight: signal, dirty: true, ..used },
        ),
        SubmitOutcome::Failed => finish_tick(
            LoopState { in_flight: FrameToken::Settled, dirty: true, ..used },
        ),
    }
}

/// The transition function: the state after `event` and the command issued.
///
/// Once closed or failed, nothing changes any more. A resize only sets the
/// flag, whatever size it carries. A close request ends the loop at once
/// between ticks and at the end of the tick otherwise. A redraw starts a
/// tick when none is under way. An answer is taken only in the phase that
/// asked for it; every other event leaves the state as it is.
pub open spec fn transition(s: LoopState, event: EventView) -> (LoopState, Command) {
    match s.phase {
        Phase::Closed => (s, Command::Exit { drain: s.in_flight }),
        Phase::Failed(error) => (s, Command::Abort(error)),
        _ => match event {
            EventView::Resized(_) => (LoopState { dirty: true, ..s }, Command::Wait),
            EventView::CloseRequested => if s.phase is Idle {
                close(s)
            } else {
                (LoopState { close_pending: true, ..s }, Command::Wait)
            },
            EventView::RedrawReady => if s.phase is Idle {
                (LoopState { phase: Phase::Retiring, ..s }, Command::Retire(s.in_flight))
            } else {
                (s, Command::Wait)
            },
            EventView::Retired => if s.phase is Retiring {
                after_retire(s)
            } else {
                (s, Command::Wait)
            },
            EventView::SurfaceQueried { capabilities, window } => if s.phase is Querying {
                after_query(s, capabilities, window)
            } else {
                (s, Command::Wait)
            },
            EventView::ChainCreated(result) => match s.phase {
                Phase::Creating(config) => after_create(s, config, result),
                _ => (s, Command::Wait),
            },
            EventView::Acquired(outcome) => if s.phase is Acquiring {
                after_acquire(s, outcome)
            } else {
                (s, Command::Wait)
            },
            EventView::Submitted(outcome) => if s.phase is Submitting {
                after_submit(s, outcome)
            } else {
                (s, Command::Wait)
            },
        },
    }
}

/// Every transition keeps the state well formed.
pub proof fn lemma_transition_keeps_wf(s: LoopState, event: EventView)
    requires
        s.wf(),
    ensures
        transition(s, event).0.wf(),
{
}

/// The state in which the loop starts is well formed whenever targets can be
/// built for the first chain.
pub proof fn lemma_initial_state_wf(config: ChainConfig, images: Seq<ChainImage>)
    requires
        frame_targets(images, RenderPass { color_format: config.format }) is Ok,
    ensures
        initial_state(config, images).wf(),
{
}

} // verus!
