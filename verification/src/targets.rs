//! Frame targets: one render target per presentable image.

use vstd::prelude::*;
use crate::geometry::{full_viewport, viewport_of, DynamicState, Extent, Viewport};

verus! {

/// One image of the presentable chain, as the display subsystem handed it out.
#[derive(Clone, Copy, Debug, PartialEq, Eq, Structural)]
pub struct ChainImage {
    /// Opaque identity of the image.
    pub handle: u64,
    pub extent: Extent,
    /// Numeric code of the pixel format.
    pub format: u32,
}

/// The fixed render pass, reduced to what a target has to agree with.
#[derive(Clone, Copy, Debug, PartialEq, Eq, Structural)]
pub struct RenderPass {
    /// Numeric code of the format that the single colour attachment must have.
    pub color_format: u32,
}

/// A render target: one chain image bound as the only colour attachment of
/// the render pass.
#[derive(Clone, Copy, Debug, PartialEq, Eq, Structural)]
pub struct FrameTarget {
    pub color_attachment: ChainImage,
    pub render_pass: RenderPass,
}

/// Why a set of frame targets could not be built.
#[derive(Clone, Copy, Debug, PartialEq, Eq, Structural)]
pub enum TargetError {
    /// The chain handed out no image.
    NoImages,
    /// An image has another format than the render pass expects.
    AttachmentMismatch { image: u64, expected: u32, found: u32 },
}

/// The target that binds `image` to `render_pass`.
pub open spec fn target_of(image: ChainImage, render_pass: RenderPass) -> FrameTarget {
    FrameTarget { color_attachment: image, render_pass }
}

/// The index of the first image at or after `from` whose format differs from
/// `format`, or the number of images when there is none.
pub open spec fn first_mismatch(images: Seq<ChainImage>, format: u32, from: int) -> int
    decreases images.len() - from,
{
    if from < 0 || from >= images.len() {
        images.len() as int
    } else if images[from].format != format {
        from
    } else {
        first_mismatch(images, format, from + 1)
    }
}

/// True when every image has the format that the render pass expects.
pub open spec fn formats_agree(images: Seq<ChainImage>, render_pass: RenderPass) -> bool {
    forall|i: int|
        0 <= i < images.len() ==> (#[trigger] images[i]).format == render_pass.color_format
}

/// The targets for a list of chain images: one per image, in the same order.
pub open spec fn frame_targets(images: Seq<ChainImage>, render_pass: RenderPass) -> Result<
    Seq<FrameTarget>,
    TargetError,
> {
    let k = first_mismatch(images, render_pass.color_format, 0);
    if images.len() == 0 {
        Err(TargetError::NoImages)
    } else if k < images.len() {
        Err(
            TargetError::AttachmentMismatch {
                image: images[k].handle,
                expected: render_pass.color_format,
                found: images[k].format,
            },
        )
    } else {
        Ok(Seq::new(images.len(), |i: int| target_of(images[i], render_pass)))
    }
}

/// The viewports that go with a list of chain images: a single one, covering
/// the first image.
pub open spec fn viewports_for(images: Seq<ChainImage>) -> Seq<Viewport> {
    seq![viewport_of(images[0].extent)]
}

/// What `first_mismatch` finds is in range, differs where it points, and has
/// only images of the expected format before it.
pub proof fn lemma_first_mismatch(images: Seq<ChainImage>, format: u32, from: int)
    requires
        0 <= from <= images.len(),
    ensures
        from <= first_mismatch(images, format, from) <= images.len(),
        first_mismatch(images, format, from) < images.len() ==> images[first_mismatch(
            images,
            format,
            from,
        )].format != format,
        forall|j: int|
            from <= j < first_mismatch(images, format, from) ==> (#[trigger] images[j]).format
                == format,
    decreases images.len() - from,
{
    if from < images.len() && images[from].format == format {
        lemma_first_mismatch(images, format, from + 1);
    }
}

/// Targets are built exactly when there is an image and all formats agree.
pub proof fn lemma_frame_targets_ok(images: Seq<ChainImage>, render_pass: RenderPass)
    ensures
        frame_targets(images, render_pass) is Ok <==> images.len() > 0 && formats_agree(
            images,
            render_pass,
        ),
{
    lemma_first_mismatch(images, render_pass.color_format, 0);
}

/// Builds the render targets for a freshly created chain and points the
/// dynamic state at the new image size.
///
/// On success there is one target per image, in the order of `images`, and
/// the dynamic state holds the single viewport that covers the first image.
/// On failure the dynamic state is left as it was.
pub fn frame_buffers_for_window_size(
    images: &Vec<ChainImage>,
    render_pass: &RenderPass,
    dynamic_state: &mut DynamicState,
) -> (r: Result<Vec<FrameTarget>, TargetError>)
    ensures
        r is Ok <==> images@.len() > 0 && formats_agree(images@, *render_pass),
        match r {
            Ok(targets) => {
                &&& frame_targets(images@, *render_pass) == Ok::<Seq<FrameTarget>, TargetError>(
                    targets@,
                )
                &&& final(dynamic_state)@.viewports == Some(viewports_for(images@))
            },
            Err(e) => {
                &&& frame_targets(images@, *render_pass) == Err::<Seq<FrameTarget>, TargetError>(e)
                &&& *final(dynamic_state) == *old(dynamic_state)
            },
        },
{
    proof {
        lemma_frame_targets_ok(images@, *render_pass);
    }
    if images.len() == 0 {
        return Err(TargetError::NoImages);
    }
    let format: u32 = render_pass.color_format;
    let mut targets: Vec<FrameTarget> = Vec::new();
    let mut i: usize = 0;
    while i < images.len()
        invariant
            0 <= i <= images.len(),
            format == render_pass.color_format,
            targets@.len() == i,
            forall|j: int| 0 <= j < i ==> targets@[j] == target_of(images@[j], *render_pass),
            first_mismatch(images@, format, 0) == first_mismatch(images@, format, i as int),
        decreases images.len() - i,
    {
        let image: ChainImage = images[i];
        if image.format != format {
            return Err(
                TargetError::AttachmentMismatch {
                    image: image.handle,
                    expected: format,
                    found: image.format,
                },
            );
        }
        targets.push(FrameTarget { color_attachment: image, render_pass: *render_pass });
        i = i + 1;
    }
    let viewport: Viewport = full_viewport(images[0].extent);
    let mut viewports: Vec<Viewport> = Vec::new();
    viewports.push(viewport);
    dynamic_state.viewports = Some(viewports);
    proof {
        assert(targets@ =~= Seq::new(images@.len(), |i: int| target_of(images@[i], *render_pass)));
        assert(viewports@ =~= viewports_for(images@));
    }
    Ok(targets)
}

} // verus!
