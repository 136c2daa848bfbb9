//! The vocabulary between the scheduler and the code that drives it: the
//! events that are handed in, the commands that come back, and the tokens
//! that stand for work on the GPU.

use vstd::prelude::*;
use crate::geometry::{Extent, Viewport};
use crate::surface::{
    report_view, ChainConfig, ChainError, SurfaceCapabilities, SurfaceCapabilitiesView,
};
use crate::targets::{ChainImage, FrameTarget, TargetError};

verus! {

/// Stands for the completion of work that was handed to the GPU.
#[derive(Clone, Copy, Debug, PartialEq, Eq, Structural)]
pub enum FrameToken {
    /// A signal that is satisfied from the start: there is nothing to wait
    /// for.
    Settled,
    /// The completion signal of the frame with this serial number.
    Frame(u64),
}

/// The serial number that follows `n`; after the largest one, counting
/// starts again at zero.
pub open spec fn next_serial(n: u64) -> u64 {
    if n == u64::MAX {
        0
    } else {
        (n + 1) as u64
    }
}

/// Computes the serial number that follows `n`.
pub fn serial_after(n: u64) -> (m: u64)
    ensures
        m == next_serial(n),
        m != n,
{
    if n == u64::MAX {
        0
    } else {
        n + 1
    }
}

/// How an attempt to acquire the next presentable image ended.
#[derive(Clone, Copy, Debug, PartialEq, Eq, Structural)]
pub enum AcquireOutcome {
    /// The image with this index is to be drawn next.
    Ready { image: usize },
    /// As `Ready`, but the chain no longer matches the surface exactly.
    Suboptimal { image: usize },
    /// The chain no longer fits the surface; no image was acquired.
    OutOfDate,
    /// No image was acquired for another reason.
    Failed,
}

/// How submitting and presenting a frame ended.
#[derive(Clone, Copy, Debug, PartialEq, Eq, Structural)]
pub enum SubmitOutcome {
    /// The frame is on its way to the display.
    Presented,
    /// As `Presented`, but the chain no longer matches the surface exactly.
    Suboptimal,
    /// The frame was submitted and its signal stands, but presentation found
    /// that the chain no longer fits the surface.
    OutOfDate,
    /// Submission or presentation broke down: there is no signal to wait
    /// for.
    Failed,
}

/// Why the display subsystem did not create a chain.
#[derive(Clone, Copy, Debug, PartialEq, Eq, Structural)]
pub enum CreationFailure {
    /// The requested size is not one that the surface supports right now.
    UnsupportedDimensions,
    SurfaceLost,
    DeviceLost,
    /// Any other refusal.
    Rejected,
}

impl CreationFailure {
    /// True for the one refusal that is expected while a window changes its
    /// size.
    pub open spec fn is_transient(self) -> bool {
        self == CreationFailure::UnsupportedDimensions
    }

    /// Tells whether trying again later can succeed.
    pub fn transient(&self) -> (t: bool)
        ensures
            t == self.is_transient(),
    {
        match self {
            CreationFailure::UnsupportedDimensions => true,
            _ => false,
        }
    }
}

/// A condition that ends the loop abnormally.
#[derive(Clone, Copy, Debug, PartialEq, Eq, Structural)]
pub enum FatalError {
    /// No chain configuration could be chosen.
    Chain(ChainError),
    /// The display subsystem refused to create the chain.
    Creation(CreationFailure),
    /// No frame targets could be built for the new chain.
    Targets(TargetError),
    /// An image was acquired that the current chain does not have.
    ImageOutOfRange { image: usize },
}

/// What the driver of the loop reports to the scheduler.
#[derive(Debug)]
pub enum Event {
    /// The user asked to close the window.
    CloseRequested,
    /// The window was resized; the size is the one that the notification
    /// carried.
    Resized(Extent),
    /// All pending window events are handled: time for a frame.
    RedrawReady,
    /// Answer to `Command::Retire`.
    Retired,
    /// Answer to `Command::QuerySurface`: the capabilities, or `None` when
    /// they could not be queried, and the size of the window right now.
    SurfaceQueried { capabilities: Option<SurfaceCapabilities>, window: Extent },
    /// Answer to `Command::CreateChain`: the images of the new chain.
    ChainCreated(Result<Vec<ChainImage>, CreationFailure>),
    /// Answer to `Command::Acquire`.
    Acquired(AcquireOutcome),
    /// Answer to `Command::Submit`.
    Submitted(SubmitOutcome),
}

/// The mathematical content of an [`Event`].
pub enum EventView {
    CloseRequested,
    Resized(Extent),
    RedrawReady,
    Retired,
    SurfaceQueried { capabilities: Option<SurfaceCapabilitiesView>, window: Extent },
    ChainCreated(Result<Seq<ChainImage>, CreationFailure>),
    Acquired(AcquireOutcome),
    Submitted(SubmitOutcome),
}

impl View for Event {
    type V = EventView;

    open spec fn view(&self) -> EventView {
        match *self {
            Event::CloseRequested => EventView::CloseRequested,
            Event::Resized(size) => EventView::Resized(size),
            Event::RedrawReady => EventView::RedrawReady,
            Event::Retired => EventView::Retired,
            Event::SurfaceQueried { capabilities, window } => EventView::SurfaceQueried {
                capabilities: report_view(capabilities),
                window,
            },
            Event::ChainCreated(Ok(images)) => EventView::ChainCreated(Ok(images@)),
            Event::ChainCreated(Err(failure)) => EventView::ChainCreated(Err(failure)),
            Event::Acquired(outcome) => EventView::Acquired(outcome),
            Event::Submitted(outcome) => EventView::Submitted(outcome),
        }
    }
}

/// What the scheduler asks the driver of the loop to do next.
#[derive(Clone, Copy, Debug, PartialEq, Eq, Structural)]
pub enum Command {
    /// Nothing new: go on waiting for the next event.
    Wait,
    /// Poll the token, without blocking, so that what its frame held can be
    /// reclaimed; then report `Event::Retired`.
    Retire(FrameToken),
    /// Query the surface's capabilities and the window's size as they are
    /// now; then report `Event::SurfaceQueried`.
    QuerySurface,
    /// Replace the chain by one with this configuration; then report
    /// `Event::ChainCreated`.
    CreateChain(ChainConfig),
    /// Acquire the next presentable image, waiting as long as it takes; then
    /// report `Event::Acquired`.
    Acquire,
    /// Record one draw into `target` with `viewport`, submit it so that it
    /// runs after both the acquisition and `after`, present image `image`
    /// once it is drawn, let `signal` stand for the completion; then report
    /// `Event::Submitted`. The token `after` passes to the submission: the
    /// scheduler does not name it again.
    Submit {
        image: usize,
        target: FrameTarget,
        viewport: Viewport,
        after: FrameToken,
        signal: FrameToken,
    },
    /// Wait until `drain` is satisfied and leave the loop.
    Exit { drain: FrameToken },
    /// Leave the loop with an error.
    Abort(FatalError),
}

} // verus!
