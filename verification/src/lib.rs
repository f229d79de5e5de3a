//! A verified model of a minimal one-triangle renderer.
//!
//! The executable demo (instance creation, device selection, swapchain
//! construction, command submission, presentation) lives at the edge of the
//! program; everything that can be decided from plain values is here, with a
//! contract: which queue family is chosen, which swapchain parameters are
//! assembled from the surface capabilities, when the event loop stops, and
//! what the rendered frame must contain.

pub mod device;
pub mod error;
pub mod events;
pub mod frame;
pub mod instance;
pub mod surface;
pub mod swapchain;
pub mod text;
