//! Sizes and viewport state derived from the presentable images.
//!
//! All quantities are whole pixels. A viewport always starts at the origin
//! and spans the depth range from zero to one.

use vstd::prelude::*;

verus! {

/// A size in pixels.
#[derive(Clone, Copy, Debug, PartialEq, Eq, Structural)]
pub struct Extent {
    pub width: u32,
    pub height: u32,
}

impl Extent {
    /// True when the extent covers no pixel at all.
    pub open spec fn is_zero_area(self) -> bool {
        self.width == 0 || self.height == 0
    }

    pub fn new(width: u32, height: u32) -> (e: Extent)
        ensures
            e.width == width,
            e.height == height,
    {
        Extent { width, height }
    }

    /// Tells whether the extent covers no pixel, as a minimised window does.
    pub fn has_zero_area(&self) -> (z: bool)
        ensures
            z == self.is_zero_area(),
    {
        self.width == 0 || self.height == 0
    }
}

/// The rectangle and depth range that drawing is mapped onto.
#[derive(Clone, Copy, Debug, PartialEq, Eq, Structural)]
pub struct Viewport {
    pub x: u32,
    pub y: u32,
    pub width: u32,
    pub height: u32,
    pub min_depth: u32,
    pub max_depth: u32,
}

/// The viewport that covers a whole image of the given extent.
pub open spec fn viewport_of(extent: Extent) -> Viewport {
    Viewport { x: 0, y: 0, width: extent.width, height: extent.height, min_depth: 0, max_depth: 1 }
}

/// Computes the viewport that covers a whole image of the given extent.
pub fn full_viewport(extent: Extent) -> (v: Viewport)
    ensures
        v == viewport_of(extent),
{
    Viewport { x: 0, y: 0, width: extent.width, height: extent.height, min_depth: 0, max_depth: 1 }
}

/// The part of the pipeline state that may change between draws.
#[derive(Clone, Debug)]
pub struct DynamicState {
    pub viewports: Option<Vec<Viewport>>,
}

/// The mathematical content of a [`DynamicState`].
pub struct DynamicStateView {
    pub viewports: Option<Seq<Viewport>>,
}

impl View for DynamicState {
    type V = DynamicStateView;

    open spec fn view(&self) -> DynamicStateView {
        DynamicStateView {
            viewports: match self.viewports {
                Some(v) => Some(v@),
                None => None,
            },
        }
    }
}

impl DynamicState {
    /// A dynamic state in which nothing is set.
    pub fn none() -> (d: DynamicState)
        ensures
            d@.viewports == None::<Seq<Viewport>>,
    {
        DynamicState { viewports: None }
    }
}

} // verus!
