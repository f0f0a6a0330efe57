//! Frame-lifecycle and GPU resource-lifetime core of a small real-time
//! renderer.
//!
//! The crate models the decisions the renderer makes each frame: which
//! fence to wait on, which frame slot records commands, when the swapchain
//! must be rebuilt, and how buffer writes are bounded. The unverifiable
//! driver calls themselves are carried out by the host program, which is
//! told what to do through the values these functions return.

use vstd::prelude::*;

pub mod buffer;
pub mod descriptor_set;
pub mod device;
pub mod game_object;
pub mod model;
pub mod queue;
pub mod renderer;
pub mod swapchain;
pub mod systems;
pub mod window;

verus! {

/// How many frames may be recorded by the CPU before it must wait for the
/// GPU to retire the oldest one.
pub const MAX_FRAMES_IN_FLIGHT: usize = 2;

/// Errors surfaced by the rendering core.
///
/// `VulkanError` carries the raw driver result code reported by the host
/// program; `CompareSwapFormatsError` marks a rebuilt swapchain whose
/// image or depth format no longer matches the one the pipelines were
/// built against.
#[derive(Clone, Copy, Debug, PartialEq, Eq, Structural)]
pub enum GentooRenderError {
    VulkanError(i32),
    LoadingError,
    CompareSwapFormatsError,
}

impl GentooRenderError {
    /// Short description of the error, mirroring how it is reported.
    pub fn message(&self) -> (r: &'static str)
        ensures
            (*self is CompareSwapFormatsError) ==> r@
                == "Swapchain image or depth format has changed"@,
    {
        match self {
            GentooRenderError::VulkanError(_) => "Vulkan device error",
            GentooRenderError::LoadingError => "Unable to load the Vulkan library",
            GentooRenderError::CompareSwapFormatsError => {
                "Swapchain image or depth format has changed"
            },
        }
    }
}

} // verus!
