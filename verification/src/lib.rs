//! Decision logic of a windowed presentation loop.
//!
//! A program that draws into a window, frame after frame, has to keep three
//! things in step: the events of the window, the chain of images that the
//! display presents, and the work that the GPU has not finished yet. This
//! library holds the decisions of such a loop and nothing else. It never
//! touches a window or a GPU: the program that drives it reports what
//! happened as an [`protocol::Event`] and carries out the
//! [`protocol::Command`] that comes back.
//!
//! - [`surface`] chooses the configuration of the image chain.
//! - [`targets`] builds one render target per image of the chain.
//! - [`scheduler`] is the loop itself, one decision per event.
//! - [`model`] is the same loop as a mathematical state machine.
//! - [`guarantees`] is what holds of every run of that machine.

pub mod geometry;
pub mod guarantees;
pub mod model;
pub mod protocol;
pub mod scheduler;
pub mod surface;
pub mod targets;
