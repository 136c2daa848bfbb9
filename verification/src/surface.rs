//! Choosing the configuration of the presentable image chain from what the
//! surface reports.

use vstd::prelude::*;
use vulkano::swapchain;
use crate::geometry::Extent;

verus! {

/// How the alpha channel of a presented image is combined with what lies
/// behind the window.
#[derive(Clone, Copy, Debug, PartialEq, Eq, Structural)]
pub enum CompositeAlpha {
    Opaque,
    PreMultiplied,
    PostMultiplied,
    Inherit,
}

/// The composite-alpha modes that a surface supports.
#[derive(Clone, Copy, Debug, PartialEq, Eq, Structural)]
pub struct SupportedCompositeAlpha {
    pub opaque: bool,
    pub pre_multiplied: bool,
    pub post_multiplied: bool,
    pub inherit: bool,
}

/// How presented images are paced against the display refresh.
#[derive(Clone, Copy, Debug, PartialEq, Eq, Structural)]
pub enum PresentMode {
    Immediate,
    Mailbox,
    Fifo,
    Relaxed,
}

/// What a surface reports about itself when it is queried.
#[derive(Clone, Debug)]
pub struct SurfaceCapabilities {
    /// The smallest number of images that a chain on this surface may have.
    pub min_image_count: u32,
    pub supported_composite_alpha: SupportedCompositeAlpha,
    /// Numeric codes of the supported pixel formats, in the order reported.
    pub supported_formats: Vec<u32>,
}

/// The mathematical content of [`SurfaceCapabilities`].
pub struct SurfaceCapabilitiesView {
    pub min_image_count: u32,
    pub supported_composite_alpha: SupportedCompositeAlpha,
    pub supported_formats: Seq<u32>,
}

impl View for SurfaceCapabilities {
    type V = SurfaceCapabilitiesView;

    open spec fn view(&self) -> SurfaceCapabilitiesView {
        SurfaceCapabilitiesView {
            min_image_count: self.min_image_count,
            supported_composite_alpha: self.supported_composite_alpha,
            supported_formats: self.supported_formats@,
        }
    }
}

/// The mathematical content of an optional capability report.
pub open spec fn report_view(report: Option<SurfaceCapabilities>) -> Option<
    SurfaceCapabilitiesView,
> {
    match report {
        Some(c) => Some(c@),
        None => None,
    }
}

/// Everything that is fixed when a chain is created.
#[derive(Clone, Copy, Debug, PartialEq, Eq, Structural)]
pub struct ChainConfig {
    pub image_count: u32,
    /// Numeric code of the pixel format of every image.
    pub format: u32,
    pub extent: Extent,
    pub composite_alpha: CompositeAlpha,
    pub present_mode: PresentMode,
}

/// Why no chain configuration could be chosen.
#[derive(Clone, Copy, Debug, PartialEq, Eq, Structural)]
pub enum ChainError {
    /// The capabilities of the surface could not be queried.
    SurfaceUnavailable,
    /// The surface supports no composite-alpha mode.
    NoCompositeAlpha,
    /// The surface supports no pixel format.
    NoSurfaceFormat,
    /// The window currently covers no pixel.
    ZeroArea,
}

impl ChainError {
    /// True for the one failure that goes away by itself: a window without
    /// area, which is expected while it is minimised.
    pub open spec fn is_transient(self) -> bool {
        self == ChainError::ZeroArea
    }

    /// Tells whether trying again later can succeed.
    pub fn transient(&self) -> (t: bool)
        ensures
            t == self.is_transient(),
    {
        match self {
            ChainError::ZeroArea => true,
            _ => false,
        }
    }
}

/// The first supported mode in the order opaque, pre-multiplied,
/// post-multiplied, inherit.
pub open spec fn first_supported(supported: SupportedCompositeAlpha) -> Option<CompositeAlpha> {
    if supported.opaque {
        Some(CompositeAlpha::Opaque)
    } else if supported.pre_multiplied {
        Some(CompositeAlpha::PreMultiplied)
    } else if supported.post_multiplied {
        Some(CompositeAlpha::PostMultiplied)
    } else if supported.inherit {
        Some(CompositeAlpha::Inherit)
    } else {
        None
    }
}

/// The configuration chosen for a capability report and the size that the
/// window has at this moment.
pub open spec fn chain_plan(report: Option<SurfaceCapabilitiesView>, window: Extent) -> Result<
    ChainConfig,
    ChainError,
> {
    match report {
        None => Err(ChainError::SurfaceUnavailable),
        Some(caps) => {
            if first_supported(caps.supported_composite_alpha) is None {
                Err(ChainError::NoCompositeAlpha)
            } else if caps.supported_formats.len() == 0 {
                Err(ChainError::NoSurfaceFormat)
            } else if window.is_zero_area() {
                Err(ChainError::ZeroArea)
            } else {
                Ok(
                    ChainConfig {
                        image_count: caps.min_image_count,
                        format: caps.supported_formats[0],
                        extent: window,
                        composite_alpha: first_supported(caps.supported_composite_alpha)->0,
                        present_mode: PresentMode::Fifo,
                    },
                )
            }
        },
    }
}

/// Trusted: builds vulkano's `SupportedCompositeAlpha` from the four flags
/// and takes the first item of its `iter()`. That iterator yields the
/// supported modes in the order opaque, pre-multiplied, post-multiplied,
/// inherit, so its first item is `first_supported`.
#[verifier::external_body]
fn first_listed_alpha(supported: SupportedCompositeAlpha) -> (r: Option<CompositeAlpha>)
    ensures
        r == first_supported(supported),
{
    let list = swapchain::SupportedCompositeAlpha {
        opaque: supported.opaque,
        pre_multiplied: supported.pre_multiplied,
        post_multiplied: supported.post_multiplied,
        inherit: supported.inherit,
    };
    match list.iter().next() {
        Some(swapchain::CompositeAlpha::Opaque) => Some(CompositeAlpha::Opaque),
        Some(swapchain::CompositeAlpha::PreMultiplied) => Some(CompositeAlpha::PreMultiplied),
        Some(swapchain::CompositeAlpha::PostMultiplied) => Some(CompositeAlpha::PostMultiplied),
        Some(swapchain::CompositeAlpha::Inherit) => Some(CompositeAlpha::Inherit),
        None => None,
    }
}

/// Decides how the chain is to be created or recreated.
///
/// `report` is what the surface answered when its capabilities were queried
/// just now, or `None` when the query failed. `window` is the size that the
/// window has now; the chain gets exactly this extent. The format is the
/// first one that the surface lists, the image count the smallest that it
/// allows, and images are presented in the order in which they were
/// submitted, paced to the display refresh.
pub fn plan_chain(report: &Option<SurfaceCapabilities>, window: Extent) -> (r: Result<
    ChainConfig,
    ChainError,
>)
    ensures
        r == chain_plan(report_view(*report), window),
{
    match report {
        None => Err(ChainError::SurfaceUnavailable),
        Some(caps) => {
            match first_listed_alpha(caps.supported_composite_alpha) {
                None => Err(ChainError::NoCompositeAlpha),
                Some(composite_alpha) => {
                    if caps.supported_formats.len() == 0 {
                        Err(ChainError::NoSurfaceFormat)
                    } else if window.has_zero_area() {
                        Err(ChainError::ZeroArea)
                    } else {
                        Ok(
                            ChainConfig {
                                image_count: caps.min_image_count,
                                format: caps.supported_formats[0],
                                extent: window,
                                composite_alpha,
                                present_mode: PresentMode::Fifo,
                            },
                        )
                    }
                },
            }
        },
    }
}

} // verus!
