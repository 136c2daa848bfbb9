use frame_scheduler::geometry::{DynamicState, Extent, Viewport};
use frame_scheduler::targets::{
    frame_buffers_for_window_size, ChainImage, FrameTarget, RenderPass, TargetError,
};

fn image(handle: u64, width: u32, height: u32, format: u32) -> ChainImage {
    ChainImage { handle, extent: Extent { width, height }, format }
}

#[test]
fn one_target_per_image_in_order() {
    let images = vec![image(11, 640, 480, 50), image(12, 640, 480, 50), image(13, 640, 480, 50)];
    let pass = RenderPass { color_format: 50 };
    let mut state = DynamicState::none();
    let targets = frame_buffers_for_window_size(&images, &pass, &mut state).unwrap();
    assert_eq!(
        targets,
        vec![
            FrameTarget { color_attachment: images[0], render_pass: pass },
            FrameTarget { color_attachment: images[1], render_pass: pass },
            FrameTarget { color_attachment: images[2], render_pass: pass },
        ]
    );
}

#[test]
fn viewport_covers_first_image() {
    let images = vec![image(1, 300, 200, 9), image(2, 310, 210, 9)];
    let mut state = DynamicState::none();
    frame_buffers_for_window_size(&images, &RenderPass { color_format: 9 }, &mut state).unwrap();
    assert_eq!(
        state.viewports,
        Some(vec![Viewport { x: 0, y: 0, width: 300, height: 200, min_depth: 0, max_depth: 1 }])
    );
}

#[test]
fn viewport_replaces_what_was_set_before() {
    let mut state = DynamicState {
        viewports: Some(vec![
            Viewport { x: 5, y: 5, width: 1, height: 1, min_depth: 0, max_depth: 1 },
            Viewport { x: 6, y: 6, width: 2, height: 2, min_depth: 0, max_depth: 1 },
        ]),
    };
    let images = vec![image(1, 64, 32, 3)];
    frame_buffers_for_window_size(&images, &RenderPass { color_format: 3 }, &mut state).unwrap();
    assert_eq!(
        state.viewports,
        Some(vec![Viewport { x: 0, y: 0, width: 64, height: 32, min_depth: 0, max_depth: 1 }])
    );
}

#[test]
fn no_images_is_an_error() {
    let mut state = DynamicState::none();
    let pass = RenderPass { color_format: 50 };
    let built = frame_buffers_for_window_size(&vec![], &pass, &mut state);
    assert_eq!(built, Err(TargetError::NoImages));
    assert_eq!(state.viewports, None);
}

#[test]
fn first_mismatching_image_is_reported() {
    let images = vec![image(1, 8, 8, 50), image(2, 8, 8, 44), image(3, 8, 8, 37)];
    let mut state = DynamicState::none();
    let pass = RenderPass { color_format: 50 };
    let built = frame_buffers_for_window_size(&images, &pass, &mut state);
    assert_eq!(built, Err(TargetError::AttachmentMismatch { image: 2, expected: 50, found: 44 }));
}

#[test]
fn mismatch_in_last_image_is_found() {
    let images = vec![image(1, 8, 8, 50), image(2, 8, 8, 50), image(3, 8, 8, 51)];
    let mut state = DynamicState::none();
    let pass = RenderPass { color_format: 50 };
    let built = frame_buffers_for_window_size(&images, &pass, &mut state);
    assert_eq!(built, Err(TargetError::AttachmentMismatch { image: 3, expected: 50, found: 51 }));
}

#[test]
fn failure_leaves_dynamic_state_alone() {
    let before = vec![Viewport { x: 0, y: 0, width: 77, height: 66, min_depth: 0, max_depth: 1 }];
    let mut state = DynamicState { viewports: Some(before.clone()) };
    let images = vec![image(1, 8, 8, 1)];
    let built = frame_buffers_for_window_size(&images, &RenderPass { color_format: 2 }, &mut state);
    assert_eq!(built, Err(TargetError::AttachmentMismatch { image: 1, expected: 2, found: 1 }));
    assert_eq!(state.viewports, Some(before));
}

#[test]
fn same_size_gives_same_viewport() {
    let pass = RenderPass { color_format: 50 };
    let first = vec![image(1, 1280, 720, 50), image(2, 1280, 720, 50)];
    let second = vec![image(7, 1280, 720, 50), image(8, 1280, 720, 50), image(9, 1280, 720, 50)];
    let mut a = DynamicState::none();
    let mut b = DynamicState::none();
    frame_buffers_for_window_size(&first, &pass, &mut a).unwrap();
    frame_buffers_for_window_size(&second, &pass, &mut b).unwrap();
    assert_eq!(a.viewports, b.viewports);
    let mut again = DynamicState::none();
    let t1 = frame_buffers_for_window_size(&first, &pass, &mut again).unwrap();
    let t2 = frame_buffers_for_window_size(&first, &pass, &mut again).unwrap();
    assert_eq!(t1, t2);
    assert_eq!(again.viewports, a.viewports);
}
