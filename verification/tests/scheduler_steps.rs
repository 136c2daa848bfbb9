use frame_scheduler::geometry::{Extent, Viewport};
use frame_scheduler::model::Phase;
use frame_scheduler::protocol::{
    AcquireOutcome, Command, CreationFailure, Event, FatalError, FrameToken, SubmitOutcome,
};
use frame_scheduler::scheduler::Scheduler;
use frame_scheduler::surface::{
    ChainConfig, ChainError, CompositeAlpha, PresentMode, SupportedCompositeAlpha,
    SurfaceCapabilities,
};
use frame_scheduler::targets::{ChainImage, FrameTarget, RenderPass, TargetError};

const FORMAT: u32 = 50;

fn images(first_handle: u64, count: u64, width: u32, height: u32) -> Vec<ChainImage> {
    (0..count)
        .map(|i| ChainImage {
            handle: first_handle + i,
            extent: Extent { width, height },
            format: FORMAT,
        })
        .collect()
}

fn config(width: u32, height: u32) -> ChainConfig {
    ChainConfig {
        image_count: 2,
        format: FORMAT,
        extent: Extent { width, height },
        composite_alpha: CompositeAlpha::Opaque,
        present_mode: PresentMode::Fifo,
    }
}

fn capabilities() -> Option<SurfaceCapabilities> {
    Some(SurfaceCapabilities {
        min_image_count: 2,
        supported_composite_alpha: SupportedCompositeAlpha {
            opaque: true,
            pre_multiplied: false,
            post_multiplied: false,
            inherit: true,
        },
        supported_formats: vec![FORMAT, 44],
    })
}

/// The answer of a surface with the usual capabilities in a window of the
/// given size.
fn queried(width: u32, height: u32) -> Event {
    Event::SurfaceQueried { capabilities: capabilities(), window: Extent::new(width, height) }
}

fn started() -> Scheduler {
    Scheduler::new(config(640, 480), images(100, 2, 640, 480)).unwrap()
}

fn viewport(width: u32, height: u32) -> Viewport {
    Viewport { x: 0, y: 0, width, height, min_depth: 0, max_depth: 1 }
}

fn target(handle: u64, width: u32, height: u32) -> FrameTarget {
    FrameTarget {
        color_attachment: ChainImage { handle, extent: Extent { width, height }, format: FORMAT },
        render_pass: RenderPass { color_format: FORMAT },
    }
}

/// Runs one tick without rebuild in which image `image` is acquired and
/// presented; returns the submit command.
fn plain_frame(s: &mut Scheduler, image: usize) -> Command {
    let retire = s.step(Event::RedrawReady);
    assert!(matches!(retire, Command::Retire(_)));
    assert_eq!(s.step(Event::Retired), Command::Acquire);
    let submit = s.step(Event::Acquired(AcquireOutcome::Ready { image }));
    assert_eq!(s.step(Event::Submitted(SubmitOutcome::Presented)), Command::Wait);
    submit
}

#[test]
fn new_scheduler_is_idle_and_clean() {
    let s = started();
    assert_eq!(s.phase(), Phase::Idle);
    assert!(!s.is_dirty());
    assert!(!s.is_closing());
    assert_eq!(s.in_flight(), FrameToken::Settled);
    assert_eq!(s.render_pass(), RenderPass { color_format: FORMAT });
    assert_eq!(s.config(), config(640, 480));
    assert_eq!(s.images(), &images(100, 2, 640, 480));
    assert_eq!(s.targets(), &vec![target(100, 640, 480), target(101, 640, 480)]);
    assert_eq!(s.dynamic_state().viewports, Some(vec![viewport(640, 480)]));
}

#[test]
fn new_scheduler_rejects_chain_without_images() {
    assert_eq!(Scheduler::new(config(640, 480), vec![]).err(), Some(TargetError::NoImages));
}

#[test]
fn new_scheduler_rejects_image_of_other_format() {
    let mut list = images(1, 3, 640, 480);
    list[1].format = 44;
    assert_eq!(
        Scheduler::new(config(640, 480), list).err(),
        Some(TargetError::AttachmentMismatch { image: 2, expected: FORMAT, found: 44 })
    );
}

#[test]
fn plain_tick_retires_acquires_submits() {
    let mut s = started();
    assert_eq!(s.step(Event::RedrawReady), Command::Retire(FrameToken::Settled));
    assert_eq!(s.phase(), Phase::Retiring);
    assert_eq!(s.step(Event::Retired), Command::Acquire);
    assert_eq!(s.phase(), Phase::Acquiring);
    assert_eq!(
        s.step(Event::Acquired(AcquireOutcome::Ready { image: 1 })),
        Command::Submit {
            image: 1,
            target: target(101, 640, 480),
            viewport: viewport(640, 480),
            after: FrameToken::Settled,
            signal: FrameToken::Frame(0),
        }
    );
    assert_eq!(s.phase(), Phase::Submitting);
    assert_eq!(s.in_flight(), FrameToken::Settled);
    assert_eq!(s.step(Event::Submitted(SubmitOutcome::Presented)), Command::Wait);
    assert_eq!(s.phase(), Phase::Idle);
    assert_eq!(s.in_flight(), FrameToken::Frame(0));
    assert!(!s.is_dirty());
}

#[test]
fn each_frame_waits_for_the_frame_before() {
    let mut s = started();
    let mut previous = FrameToken::Settled;
    for n in 0..5u64 {
        let submit = plain_frame(&mut s, (n % 2) as usize);
        match submit {
            Command::Submit { after, signal, .. } => {
                assert_eq!(after, previous);
                assert_eq!(signal, FrameToken::Frame(n));
                previous = signal;
            }
            other => panic!("expected a submission, got {:?}", other),
        }
        assert_eq!(s.in_flight(), previous);
    }
}

#[test]
fn resize_only_sets_the_flag() {
    let mut s = started();
    assert_eq!(s.step(Event::Resized(Extent::new(100, 100))), Command::Wait);
    assert!(s.is_dirty());
    assert_eq!(s.phase(), Phase::Idle);
    assert_eq!(s.config(), config(640, 480));
    assert_eq!(s.dynamic_state().viewports, Some(vec![viewport(640, 480)]));
    assert_eq!(s.targets().len(), 2);
}

#[test]
fn rebuild_uses_window_size_at_rebuild_time() {
    let mut s = started();
    assert_eq!(s.step(Event::Resized(Extent::new(100, 100))), Command::Wait);
    assert_eq!(s.step(Event::Resized(Extent::new(200, 200))), Command::Wait);
    assert_eq!(s.step(Event::RedrawReady), Command::Retire(FrameToken::Settled));
    assert_eq!(s.step(Event::Retired), Command::QuerySurface);
    assert!(!s.is_dirty());
    let create = s.step(queried(200, 200));
    assert_eq!(create, Command::CreateChain(config(200, 200)));
    assert_eq!(s.phase(), Phase::Creating(config(200, 200)));
    assert_eq!(s.step(Event::ChainCreated(Ok(images(300, 2, 200, 200)))), Command::Acquire);
    assert_eq!(s.config(), config(200, 200));
    assert_eq!(s.images(), &images(300, 2, 200, 200));
    assert_eq!(s.targets(), &vec![target(300, 200, 200), target(301, 200, 200)]);
    assert_eq!(s.dynamic_state().viewports, Some(vec![viewport(200, 200)]));
    assert!(!s.is_dirty());
}

#[test]
fn rebuild_ignores_size_of_resize_notification() {
    let mut s = started();
    s.step(Event::Resized(Extent::new(100, 100)));
    s.step(Event::RedrawReady);
    s.step(Event::Retired);
    let create = s.step(queried(333, 222));
    assert_eq!(create, Command::CreateChain(config(333, 222)));
}

#[test]
fn suboptimal_acquisition_draws_and_rebuilds_next_tick() {
    let mut s = started();
    plain_frame(&mut s, 0);
    s.step(Event::RedrawReady);
    s.step(Event::Retired);
    let submit = s.step(Event::Acquired(AcquireOutcome::Suboptimal { image: 1 }));
    assert_eq!(
        submit,
        Command::Submit {
            image: 1,
            target: target(101, 640, 480),
            viewport: viewport(640, 480),
            after: FrameToken::Frame(0),
            signal: FrameToken::Frame(1),
        }
    );
    assert!(s.is_dirty());
    assert_eq!(s.step(Event::Submitted(SubmitOutcome::Presented)), Command::Wait);
    assert_eq!(s.in_flight(), FrameToken::Frame(1));
    assert!(s.is_dirty());
    assert_eq!(s.step(Event::RedrawReady), Command::Retire(FrameToken::Frame(1)));
    assert_eq!(s.step(Event::Retired), Command::QuerySurface);
}

#[test]
fn out_of_date_acquisition_submits_nothing() {
    let mut s = started();
    plain_frame(&mut s, 0);
    s.step(Event::RedrawReady);
    s.step(Event::Retired);
    assert_eq!(s.step(Event::Acquired(AcquireOutcome::OutOfDate)), Command::Wait);
    assert!(s.is_dirty());
    assert_eq!(s.phase(), Phase::Idle);
    assert_eq!(s.in_flight(), FrameToken::Frame(0));
    assert_eq!(s.step(Event::RedrawReady), Command::Retire(FrameToken::Frame(0)));
    assert_eq!(s.step(Event::Retired), Command::QuerySurface);
}

#[test]
fn failed_acquisition_submits_nothing() {
    let mut s = started();
    s.step(Event::RedrawReady);
    s.step(Event::Retired);
    assert_eq!(s.step(Event::Acquired(AcquireOutcome::Failed)), Command::Wait);
    assert!(s.is_dirty());
    assert_eq!(s.phase(), Phase::Idle);
    assert_eq!(s.in_flight(), FrameToken::Settled);
}

#[test]
fn acquired_image_outside_chain_is_fatal() {
    let mut s = started();
    s.step(Event::RedrawReady);
    s.step(Event::Retired);
    let fatal = FatalError::ImageOutOfRange { image: 2 };
    assert_eq!(s.step(Event::Acquired(AcquireOutcome::Ready { image: 2 })), Command::Abort(fatal));
    assert_eq!(s.phase(), Phase::Failed(fatal));
    assert_eq!(s.step(Event::RedrawReady), Command::Abort(fatal));
    assert_eq!(s.step(Event::CloseRequested), Command::Abort(fatal));
    assert_eq!(s.phase(), Phase::Failed(fatal));
}

#[test]
fn suboptimal_presentation_keeps_token_and_sets_flag() {
    let mut s = started();
    s.step(Event::RedrawReady);
    s.step(Event::Retired);
    s.step(Event::Acquired(AcquireOutcome::Ready { image: 0 }));
    assert_eq!(s.step(Event::Submitted(SubmitOutcome::Suboptimal)), Command::Wait);
    assert_eq!(s.in_flight(), FrameToken::Frame(0));
    assert!(s.is_dirty());
}

#[test]
fn out_of_date_presentation_keeps_token_and_sets_flag() {
    let mut s = started();
    plain_frame(&mut s, 0);
    s.step(Event::RedrawReady);
    s.step(Event::Retired);
    s.step(Event::Acquired(AcquireOutcome::Ready { image: 1 }));
    assert_eq!(s.step(Event::Submitted(SubmitOutcome::OutOfDate)), Command::Wait);
    assert_eq!(s.in_flight(), FrameToken::Frame(1));
    assert!(s.is_dirty());
    assert_eq!(s.step(Event::RedrawReady), Command::Retire(FrameToken::Frame(1)));
    assert_eq!(s.step(Event::Retired), Command::QuerySurface);
}

#[test]
fn failed_submission_settles_token_and_uses_up_serial() {
    let mut s = started();
    s.step(Event::RedrawReady);
    s.step(Event::Retired);
    s.step(Event::Acquired(AcquireOutcome::Ready { image: 0 }));
    assert_eq!(s.step(Event::Submitted(SubmitOutcome::Failed)), Command::Wait);
    assert_eq!(s.in_flight(), FrameToken::Settled);
    assert!(s.is_dirty());
    assert_eq!(s.step(Event::RedrawReady), Command::Retire(FrameToken::Settled));
    assert_eq!(s.step(Event::Retired), Command::QuerySurface);
    s.step(queried(640, 480));
    assert_eq!(s.step(Event::ChainCreated(Ok(images(5, 2, 640, 480)))), Command::Acquire);
    let submit = s.step(Event::Acquired(AcquireOutcome::Ready { image: 0 }));
    assert_eq!(
        submit,
        Command::Submit {
            image: 0,
            target: target(5, 640, 480),
            viewport: viewport(640, 480),
            after: FrameToken::Settled,
            signal: FrameToken::Frame(1),
        }
    );
}

#[test]
fn window_without_area_keeps_flag_and_retries() {
    let mut s = started();
    s.step(Event::Resized(Extent::new(0, 0)));
    s.step(Event::RedrawReady);
    assert_eq!(s.step(Event::Retired), Command::QuerySurface);
    let end = s.step(queried(0, 480));
    assert_eq!(end, Command::Wait);
    assert!(s.is_dirty());
    assert_eq!(s.phase(), Phase::Idle);
    assert_eq!(s.config(), config(640, 480));
    s.step(Event::RedrawReady);
    assert_eq!(s.step(Event::Retired), Command::QuerySurface);
    let create = s.step(queried(320, 240));
    assert_eq!(create, Command::CreateChain(config(320, 240)));
}

#[test]
fn refused_dimensions_keep_flag_and_retry() {
    let mut s = started();
    s.step(Event::Resized(Extent::new(1, 1)));
    s.step(Event::RedrawReady);
    s.step(Event::Retired);
    s.step(queried(1, 1));
    let end = s.step(Event::ChainCreated(Err(CreationFailure::UnsupportedDimensions)));
    assert_eq!(end, Command::Wait);
    assert!(s.is_dirty());
    assert_eq!(s.phase(), Phase::Idle);
    assert_eq!(s.targets(), &vec![target(100, 640, 480), target(101, 640, 480)]);
    s.step(Event::RedrawReady);
    assert_eq!(s.step(Event::Retired), Command::QuerySurface);
}

#[test]
fn unavailable_surface_is_fatal() {
    let mut s = started();
    s.step(Event::Resized(Extent::new(10, 10)));
    s.step(Event::RedrawReady);
    s.step(Event::Retired);
    let fatal = FatalError::Chain(ChainError::SurfaceUnavailable);
    let end = s.step(Event::SurfaceQueried { capabilities: None, window: Extent::new(10, 10) });
    assert_eq!(end, Command::Abort(fatal));
    assert_eq!(s.phase(), Phase::Failed(fatal));
    assert_eq!(s.step(Event::Resized(Extent::new(10, 10))), Command::Abort(fatal));
}

#[test]
fn surface_without_format_or_alpha_is_fatal() {
    let mut s = started();
    s.step(Event::Resized(Extent::new(10, 10)));
    s.step(Event::RedrawReady);
    s.step(Event::Retired);
    let mut caps = capabilities().unwrap();
    caps.supported_formats = vec![];
    let window = Extent::new(10, 10);
    let end = s.step(Event::SurfaceQueried { capabilities: Some(caps), window });
    assert_eq!(end, Command::Abort(FatalError::Chain(ChainError::NoSurfaceFormat)));

    let mut s = started();
    s.step(Event::Resized(Extent::new(10, 10)));
    s.step(Event::RedrawReady);
    s.step(Event::Retired);
    let mut caps = capabilities().unwrap();
    caps.supported_composite_alpha.opaque = false;
    caps.supported_composite_alpha.inherit = false;
    let window = Extent::new(10, 10);
    let end = s.step(Event::SurfaceQueried { capabilities: Some(caps), window });
    assert_eq!(end, Command::Abort(FatalError::Chain(ChainError::NoCompositeAlpha)));
}

#[test]
fn lost_device_during_creation_is_fatal() {
    let failures =
        [CreationFailure::DeviceLost, CreationFailure::SurfaceLost, CreationFailure::Rejected];
    for failure in failures {
        let mut s = started();
        s.step(Event::Resized(Extent::new(10, 10)));
        s.step(Event::RedrawReady);
        s.step(Event::Retired);
        s.step(queried(10, 10));
        let end = s.step(Event::ChainCreated(Err(failure)));
        assert_eq!(end, Command::Abort(FatalError::Creation(failure)));
        assert_eq!(s.phase(), Phase::Failed(FatalError::Creation(failure)));
    }
}

#[test]
fn new_chain_of_other_format_is_fatal() {
    let mut s = started();
    s.step(Event::Resized(Extent::new(10, 10)));
    s.step(Event::RedrawReady);
    s.step(Event::Retired);
    s.step(queried(10, 10));
    let mut list = images(1, 2, 10, 10);
    list[0].format = 37;
    let mismatch = TargetError::AttachmentMismatch { image: 1, expected: FORMAT, found: 37 };
    let fatal = FatalError::Targets(mismatch);
    assert_eq!(s.step(Event::ChainCreated(Ok(list))), Command::Abort(fatal));
    assert_eq!(s.targets(), &vec![target(100, 640, 480), target(101, 640, 480)]);

    let mut s = started();
    s.step(Event::Resized(Extent::new(10, 10)));
    s.step(Event::RedrawReady);
    s.step(Event::Retired);
    s.step(queried(10, 10));
    assert_eq!(
        s.step(Event::ChainCreated(Ok(vec![]))),
        Command::Abort(FatalError::Targets(TargetError::NoImages))
    );
}

#[test]
fn rebuilding_twice_with_same_size_gives_same_viewport() {
    let mut s = started();
    let mut seen = Vec::new();
    for round in 0..2u64 {
        s.step(Event::Resized(Extent::new(1, 1)));
        s.step(Event::RedrawReady);
        s.step(Event::Retired);
        s.step(queried(800, 600));
        let created = Event::ChainCreated(Ok(images(10 * round, 2, 800, 600)));
        assert_eq!(s.step(created), Command::Acquire);
        seen.push((s.dynamic_state().viewports.clone(), s.targets().len(), s.config()));
        s.step(Event::Acquired(AcquireOutcome::Ready { image: 0 }));
        s.step(Event::Submitted(SubmitOutcome::Presented));
    }
    assert_eq!(seen[0], seen[1]);
    assert_eq!(seen[0].0, Some(vec![viewport(800, 600)]));
}

#[test]
fn close_after_one_frame_drains_the_token_in_flight() {
    let mut s = started();
    plain_frame(&mut s, 0);
    assert_eq!(s.in_flight(), FrameToken::Frame(0));
    assert_eq!(s.step(Event::CloseRequested), Command::Exit { drain: FrameToken::Frame(0) });
    assert_eq!(s.phase(), Phase::Closed);
    assert_eq!(s.in_flight(), FrameToken::Settled);
    assert_eq!(s.step(Event::RedrawReady), Command::Exit { drain: FrameToken::Settled });
    assert_eq!(s.step(Event::Retired), Command::Exit { drain: FrameToken::Settled });
    assert_eq!(s.phase(), Phase::Closed);
}

#[test]
fn close_before_any_frame_has_nothing_to_drain() {
    let mut s = started();
    assert_eq!(s.step(Event::CloseRequested), Command::Exit { drain: FrameToken::Settled });
    assert_eq!(s.phase(), Phase::Closed);
}

#[test]
fn close_during_tick_waits_for_end_of_tick() {
    let mut s = started();
    plain_frame(&mut s, 0);
    s.step(Event::RedrawReady);
    s.step(Event::Retired);
    assert_eq!(s.step(Event::CloseRequested), Command::Wait);
    assert!(s.is_closing());
    assert_eq!(s.phase(), Phase::Acquiring);
    let submit = s.step(Event::Acquired(AcquireOutcome::Ready { image: 1 }));
    assert!(matches!(
        submit,
        Command::Submit { after: FrameToken::Frame(0), signal: FrameToken::Frame(1), .. }
    ));
    let end = s.step(Event::Submitted(SubmitOutcome::Presented));
    assert_eq!(end, Command::Exit { drain: FrameToken::Frame(1) });
    assert_eq!(s.phase(), Phase::Closed);
    assert_eq!(s.in_flight(), FrameToken::Settled);
}

#[test]
fn answers_out_of_turn_change_nothing() {
    let mut s = started();
    assert_eq!(s.step(Event::Retired), Command::Wait);
    assert_eq!(s.step(Event::Acquired(AcquireOutcome::Ready { image: 0 })), Command::Wait);
    assert_eq!(s.step(Event::Submitted(SubmitOutcome::Presented)), Command::Wait);
    assert_eq!(s.step(Event::ChainCreated(Ok(images(1, 2, 5, 5)))), Command::Wait);
    assert_eq!(
        s.step(queried(5, 5)),
        Command::Wait
    );
    assert_eq!(s.phase(), Phase::Idle);
    assert!(!s.is_dirty());
    assert_eq!(s.in_flight(), FrameToken::Settled);
    assert_eq!(s.images(), &images(100, 2, 640, 480));
    s.step(Event::RedrawReady);
    assert_eq!(s.step(Event::RedrawReady), Command::Wait);
    assert_eq!(s.phase(), Phase::Retiring);
}

#[test]
fn resize_during_rebuild_is_not_lost() {
    let mut s = started();
    s.step(Event::Resized(Extent::new(10, 10)));
    s.step(Event::RedrawReady);
    s.step(Event::Retired);
    assert!(!s.is_dirty());
    s.step(queried(10, 10));
    assert_eq!(s.step(Event::Resized(Extent::new(20, 20))), Command::Wait);
    assert_eq!(s.step(Event::ChainCreated(Ok(images(1, 2, 10, 10)))), Command::Acquire);
    assert!(s.is_dirty());
}
