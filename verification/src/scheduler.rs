//! The frame scheduler: the state of the presentation loop and the decision
//! that each event calls for.

use vstd::prelude::*;
use crate::geometry::{full_viewport, DynamicState, Extent};
use crate::model;
use crate::model::{initial_state, transition, LoopState, Phase};
use crate::protocol::{
    serial_after, AcquireOutcome, Command, CreationFailure, Event, FatalError, FrameToken,
    SubmitOutcome,
};
use crate::surface::{plan_chain, report_view, ChainConfig, SurfaceCapabilities};
use crate::targets::{
    frame_buffers_for_window_size, frame_targets, lemma_frame_targets_ok, viewports_for,
    ChainImage, FrameTarget, RenderPass, TargetError,
};

verus! {

/// The state of one presentation loop.
///
/// The code that drives the loop hands every event to [`Scheduler::step`] and
/// carries out the command that comes back.
///
/// At most one token is in flight at any time, however many images the chain
/// has. That is enough because every submission is made to wait for the one
/// before it: the GPU works through the frames one after another, and what
/// the token in flight stands for is always the last of them.
#[derive(Debug)]
pub struct Scheduler {
    phase: Phase,
    dirty: bool,
    close_pending: bool,
    in_flight: FrameToken,
    next_frame: u64,
    render_pass: RenderPass,
    config: ChainConfig,
    images: Vec<ChainImage>,
    targets: Vec<FrameTarget>,
    dynamic_state: DynamicState,
}

impl View for Scheduler {
    type V = LoopState;

    closed spec fn view(&self) -> LoopState {
        LoopState {
            phase: self.phase,
            dirty: self.dirty,
            close_pending: self.close_pending,
            in_flight: self.in_flight,
            next_frame: self.next_frame,
            render_pass: self.render_pass,
            config: self.config,
            images: self.images@,
            targets: self.targets@,
            viewports: self.dynamic_state@.viewports,
        }
    }
}

impl Scheduler {
    #[verifier::type_invariant]
    spec fn inv(&self) -> bool {
        self@.wf()
    }

    /// Starts a loop on a chain that was just created with `config` and
    /// consists of `images`.
    ///
    /// The render pass expects the format of `config` from now on. Fails
    /// exactly when no targets can be built for the images.
    pub fn new(config: ChainConfig, images: Vec<ChainImage>) -> (r: Result<Scheduler, TargetError>)
        ensures
            match r {
                Ok(s) => {
                    &&& frame_targets(images@, RenderPass { color_format: config.format }) is Ok
                    &&& s@ == initial_state(config, images@)
                    &&& s@.wf()
                },
                Err(e) => frame_targets(images@, RenderPass { color_format: config.format })
                    == Err::<Seq<FrameTarget>, TargetError>(e),
            },
    {
        let render_pass = RenderPass { color_format: config.format };
        let mut dynamic_state = DynamicState::none();
        match frame_buffers_for_window_size(&images, &render_pass, &mut dynamic_state) {
            Ok(targets) => Ok(
                Scheduler {
                    phase: Phase::Idle,
                    dirty: false,
                    close_pending: false,
                    in_flight: FrameToken::Settled,
                    next_frame: 0,
                    render_pass,
                    config,
                    images,
                    targets,
                    dynamic_state,
                },
            ),
            Err(e) => Err(e),
        }
    }

    /// Where the scheduler stands within a tick.
    pub fn phase(&self) -> (p: Phase)
        ensures
            p == self@.phase,
    {
        self.phase
    }

    /// Whether the chain has to be rebuilt before the next acquisition.
    pub fn is_dirty(&self) -> (d: bool)
        ensures
            d == self@.dirty,
    {
        self.dirty
    }

    /// Whether a close request is waiting for the end of the tick.
    pub fn is_closing(&self) -> (c: bool)
        ensures
            c == self@.close_pending,
    {
        self.close_pending
    }

    /// The one token in flight.
    pub fn in_flight(&self) -> (t: FrameToken)
        ensures
            t == self@.in_flight,
    {
        self.in_flight
    }

    /// The render pass that every target is bound to.
    pub fn render_pass(&self) -> (p: RenderPass)
        ensures
            p == self@.render_pass,
    {
        self.render_pass
    }

    /// The configuration of the current chain.
    pub fn config(&self) -> (c: ChainConfig)
        ensures
            c == self@.config,
    {
        self.config
    }

    /// The images of the current chain.
    pub fn images(&self) -> (images: &Vec<ChainImage>)
        ensures
            images@ == self@.images,
    {
        &self.images
    }

    /// The targets of the current chain, one per image and in the same order.
    pub fn targets(&self) -> (targets: &Vec<FrameTarget>)
        ensures
            targets@ == self@.targets,
            frame_targets(self@.images, self@.render_pass) == Ok::<Seq<FrameTarget>, TargetError>(
                targets@,
            ),
    {
        proof {
            use_type_invariant(self);
        }
        &self.targets
    }

    /// The dynamic state, which holds the viewport of the current chain.
    pub fn dynamic_state(&self) -> (d: &DynamicState)
        ensures
            d@.viewports == self@.viewports,
            d@.viewports == Some(viewports_for(self@.images)),
    {
        proof {
            use_type_invariant(self);
        }
        &self.dynamic_state
    }

    fn close(&mut self) -> (command: Command)
        ensures
            (final(self)@, command) == model::close(old(self)@),
    {
        proof {
            use_type_invariant(&*self);
        }
        let drain = self.in_flight;
        self.in_flight = FrameToken::Settled;
        self.close_pending = false;
        self.phase = Phase::Closed;
        Command::Exit { drain }
    }

    fn fail(&mut self, error: FatalError) -> (command: Command)
        ensures
            (final(self)@, command) == model::fail(old(self)@, error),
    {
        proof {
            use_type_invariant(&*self);
        }
        self.phase = Phase::Failed(error);
        Command::Abort(error)
    }

    fn finish_tick(&mut self) -> (command: Command)
        ensures
            (final(self)@, command) == model::finish_tick(old(self)@),
    {
        proof {
            use_type_invariant(&*self);
        }
        if self.close_pending {
            self.close()
        } else {
            self.phase = Phase::Idle;
            Command::Wait
        }
    }

    /// Ends the tick with the flag set, so that the next tick rebuilds.
    fn give_up_tick(&mut self) -> (command: Command)
        ensures
            (final(self)@, command) == model::finish_tick(
                LoopState { dirty: true, ..old(self)@ },
            ),
    {
        proof {
            use_type_invariant(&*self);
        }
        self.dirty = true;
        self.finish_tick()
    }

    fn after_retire(&mut self) -> (command: Command)
        requires
            old(self)@.phase is Retiring,
        ensures
            (final(self)@, command) == model::after_retire(old(self)@),
    {
        proof {
            use_type_invariant(&*self);
        }
        if self.dirty {
            self.dirty = false;
            self.phase = Phase::Querying;
            Command::QuerySurface
        } else {
            self.phase = Phase::Acquiring;
            Command::Acquire
        }
    }

    fn after_query(
        &mut self,
        capabilities: Option<SurfaceCapabilities>,
        window: Extent,
    ) -> (command: Command)
        requires
            old(self)@.phase is Querying,
        ensures
            (final(self)@, command) == model::after_query(
                old(self)@,
                report_view(capabilities),
                window,
            ),
    {
        proof {
            use_type_invariant(&*self);
        }
        match plan_chain(&capabilities, window) {
            Ok(config) => {
                self.phase = Phase::Creating(config);
                Command::CreateChain(config)
            },
            Err(e) => {
                if e.transient() {
                    self.give_up_tick()
                } else {
                    self.fail(FatalError::Chain(e))
                }
            },
        }
    }

    fn after_create(
        &mut self,
        config: ChainConfig,
        result: Result<Vec<ChainImage>, CreationFailure>,
    ) -> (command: Command)
        requires
            old(self)@.phase is Creating,
        ensures
            (final(self)@, command) == model::after_create(
                old(self)@,
                config,
                match result {
                    Ok(images) => Ok(images@),
                    Err(failure) => Err(failure),
                },
            ),
    {
        proof {
            use_type_invariant(&*self);
        }
        match result {
            Ok(images) => {
                let mut dynamic_state = DynamicState::none();
                let built = frame_buffers_for_window_size(
                    &images,
                    &self.render_pass,
                    &mut dynamic_state,
                );
                match built {
                    Ok(targets) => {
                        *self = Scheduler {
                            phase: Phase::Acquiring,
                            dirty: self.dirty,
                            close_pending: self.close_pending,
                            in_flight: self.in_flight,
                            next_frame: self.next_frame,
                            render_pass: self.render_pass,
                            config,
                            images,
                            targets,
                            dynamic_state,
                        };
                        Command::Acquire
                    },
                    Err(e) => self.fail(FatalError::Targets(e)),
                }
            },
            Err(failure) => {
                if failure.transient() {
                    self.give_up_tick()
                } else {
                    self.fail(FatalError::Creation(failure))
                }
            },
        }
    }

    fn submit(&mut self, image: usize) -> (command: Command)
        ensures
            (final(self)@, command) == model::submit(old(self)@, image),
    {
        proof {
            use_type_invariant(&*self);
            lemma_frame_targets_ok(self.images@, self.render_pass);
        }
        if image < self.targets.len() {
            let target = self.targets[image];
            let viewport = full_viewport(self.images[0].extent);
            let after = self.in_flight;
            let signal = FrameToken::Frame(self.next_frame);
            self.phase = Phase::Submitting;
            Command::Submit { image, target, viewport, after, signal }
        } else {
            self.fail(FatalError::ImageOutOfRange { image })
        }
    }

    fn after_acquire(&mut self, outcome: AcquireOutcome) -> (command: Command)
        requires
            old(self)@.phase is Acquiring,
        ensures
            (final(self)@, command) == model::after_acquire(old(self)@, outcome),
    {
        proof {
            use_type_invariant(&*self);
        }
        match outcome {
            AcquireOutcome::Ready { image } => self.submit(image),
            AcquireOutcome::Suboptimal { image } => {
                self.dirty = true;
                self.submit(image)
            },
            AcquireOutcome::OutOfDate => self.give_up_tick(),
            AcquireOutcome::Failed => self.give_up_tick(),
        }
    }

    fn after_submit(&mut self, outcome: SubmitOutcome) -> (command: Command)
        requires
            old(self)@.phase is Submitting,
        ensures
            (final(self)@, command) == model::after_submit(old(self)@, outcome),
    {
        proof {
            use_type_invariant(&*self);
        }
        let serial: u64 = self.next_frame;
        // Nothing is in flight while the serial number moves on.
        self.in_flight = FrameToken::Settled;
        self.next_frame = serial_after(serial);
        match outcome {
            SubmitOutcome::Presented => {
                self.in_flight = FrameToken::Frame(serial);
            },
            SubmitOutcome::Suboptimal => {
                self.in_flight = FrameToken::Frame(serial);
                self.dirty = true;
            },
            SubmitOutcome::OutOfDate => {
                self.in_flight = FrameToken::Frame(serial);
                self.dirty = true;
            },
            SubmitOutcome::Failed => {
                self.dirty = true;
            },
        }
        self.finish_tick()
    }

    /// Takes one event and says what to do next.
    ///
    /// The new state and the command are those of the transition function
    /// [`transition`]. The state is well formed before and after.
    pub fn step(&mut self, event: Event) -> (command: Command)
        ensures
            old(self)@.wf(),
            final(self)@.wf(),
            (final(self)@, command) == transition(old(self)@, event@),
    {
        proof {
            use_type_invariant(&*self);
        }
        match self.phase {
            Phase::Closed => {
                return Command::Exit { drain: self.in_flight };
            },
            Phase::Failed(error) => {
                return Command::Abort(error);
            },
            _ => {},
        }
        match event {
            Event::Resized(_) => {
                self.dirty = true;
                Command::Wait
            },
            Event::CloseRequested => match self.phase {
                Phase::Idle => self.close(),
                _ => {
                    self.close_pending = true;
                    Command::Wait
                },
            },
            Event::RedrawReady => match self.phase {
                Phase::Idle => {
                    self.phase = Phase::Retiring;
                    Command::Retire(self.in_flight)
                },
                _ => Command::Wait,
            },
            Event::Retired => match self.phase {
                Phase::Retiring => self.after_retire(),
                _ => Command::Wait,
            },
            Event::SurfaceQueried { capabilities, window } => match self.phase {
                Phase::Querying => self.after_query(capabilities, window),
                _ => Command::Wait,
            },
            Event::ChainCreated(result) => match self.phase {
                Phase::Creating(config) => self.after_create(config, result),
                _ => Command::Wait,
            },
            Event::Acquired(outcome) => match self.phase {
                Phase::Acquiring => self.after_acquire(outcome),
                _ => Command::Wait,
            },
            Event::Submitted(outcome) => match self.phase {
                Phase::Submitting => self.after_submit(outcome),
                _ => Command::Wait,
            },
        }
    }
}

} // verus!
