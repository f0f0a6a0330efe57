//! Swapchain model: the presentable image chain's configuration, its
//! per-frame synchronization bookkeeping, and the selection rules used
//! when the chain is (re)built.
//!
//! Formats, color spaces, present modes and tiling values are carried as
//! the driver's raw code numbers, so the host program converts by value
//! alone. The driver objects themselves (images, semaphores, fences) live
//! with the host program; this model tracks which frame slot owns which
//! image, which is what the synchronization protocol depends on.

use vstd::prelude::*;

use crate::GentooRenderError;
use crate::MAX_FRAMES_IN_FLIGHT;
use crate::device::FormatProperties;
use crate::device::IMAGE_TILING_OPTIMAL;
use crate::device::find_supported_format;
use crate::device::format_supports;

verus! {

/// Driver code of the 8-bit BGRA format with sRGB encoding, the preferred
/// surface format.
pub const FORMAT_B8G8R8A8_SRGB: u32 = 50;

/// Driver code of the 32-bit float depth format, the first depth
/// candidate.
pub const FORMAT_D32_SFLOAT: u32 = 126;

/// Driver code of the combined 32-bit float depth / 8-bit stencil format,
/// the fallback depth candidate.
pub const FORMAT_D32_SFLOAT_S8_UINT: u32 = 130;

/// Driver code of the sRGB non-linear color space, the preferred color
/// space.
pub const COLOR_SPACE_SRGB_NONLINEAR: u32 = 0;

/// Driver code of the always-available blocking no-tear present mode.
pub const PRESENT_MODE_FIFO: u32 = 2;

/// Feature bit a depth format must offer: usable as a depth/stencil
/// attachment.
pub const FORMAT_FEATURE_DEPTH_STENCIL_ATTACHMENT: u32 = 0x200;

/// A two-dimensional pixel extent.
#[derive(Debug, Clone, Copy, PartialEq, Eq, Structural)]
pub struct Extent2D {
    pub width: u32,
    pub height: u32,
}

impl Extent2D {
    /// A zero-area extent (a minimized window) must not become a
    /// swapchain: the host program skips rebuilding, leaving the prior
    /// swapchain untouched.
    pub fn is_zero_area(&self) -> (r: bool)
        ensures
            r <==> (self.width == 0 || self.height == 0),
    {
        self.width == 0 || self.height == 0
    }
}

/// A surface format: a pixel format paired with a color space, both as
/// driver codes.
#[derive(Debug, Clone, Copy, PartialEq, Eq, Structural)]
pub struct SurfaceFormat {
    pub format: u32,
    pub color_space: u32,
}

/// The surface capabilities the driver reports, as far as swapchain
/// construction reads them.
#[derive(Debug, Clone, Copy, PartialEq, Eq, Structural)]
pub struct SurfaceCapabilities {
    pub min_image_count: u32,
    pub max_image_count: u32,
    pub current_extent: Extent2D,
    pub min_image_extent: Extent2D,
    pub max_image_extent: Extent2D,
}

/// Everything the driver reports about what the surface supports.
#[derive(Debug, Clone)]
pub struct SwapchainSupportDetails {
    pub capabilities: SurfaceCapabilities,
    pub formats: Vec<SurfaceFormat>,
    pub present_modes: Vec<u32>,
}

/// The format/color-space pair construction prefers.
pub open spec fn preferred_surface_format(f: SurfaceFormat) -> bool {
    f.format == FORMAT_B8G8R8A8_SRGB && f.color_space == COLOR_SPACE_SRGB_NONLINEAR
}

/// `v` clamped into `[lo, hi]`: capped at `hi` first, then raised to at
/// least `lo`, so the lower bound wins should the driver ever report
/// `lo > hi`.
pub open spec fn clamped(lo: u32, hi: u32, v: u32) -> u32 {
    let capped = if v > hi {
        hi
    } else {
        v
    };
    if capped < lo {
        lo
    } else {
        capped
    }
}

/// The extent the swapchain is built with: the surface's reported current
/// extent when the driver pinned one, otherwise the window extent clamped
/// to the surface's bounds.
pub open spec fn spec_choose_extent(caps: SurfaceCapabilities, window_extent: Extent2D) -> Extent2D {
    if caps.current_extent.width != u32::MAX {
        caps.current_extent
    } else {
        Extent2D {
            width: clamped(caps.min_image_extent.width, caps.max_image_extent.width, window_extent.width),
            height: clamped(
                caps.min_image_extent.height,
                caps.max_image_extent.height,
                window_extent.height,
            ),
        }
    }
}

/// One more image than the surface's minimum, capped by the surface's
/// maximum when that cap is nonzero.
pub open spec fn spec_choose_image_count(caps: SurfaceCapabilities) -> u32 {
    if caps.max_image_count > 0 && caps.min_image_count + 1 > caps.max_image_count {
        caps.max_image_count
    } else {
        (caps.min_image_count + 1) as u32
    }
}

/// The swapchain model. Configuration fields record the choices the chain
/// was built with; `images_in_flight` records, per presentable image, the
/// frame slot whose fence last submitted work for that image (`None`
/// until an image's first use); `current_frame` is the frame slot whose
/// synchronization primitives the next submit uses.
#[derive(Debug, Clone)]
pub struct Swapchain {
    pub swapchain_image_format: u32,
    pub swapchain_color_space: u32,
    pub swapchain_depth_format: u32,
    pub present_mode: u32,
    pub swapchain_extent: Extent2D,
    pub image_count: usize,
    pub images_in_flight: Vec<Option<usize>>,
    pub current_frame: usize,
}

/// What the host program must do to submit and present one recorded
/// frame, in order: wait on the fence of `wait_prior_frame_fence` if set
/// (the image is still owned by an older in-flight frame), reset the
/// fence of slot `fence_slot`, submit the command buffer signaling that
/// fence and slot `fence_slot`'s semaphores, then present image
/// `image_index`.
#[derive(Debug, Clone, Copy, PartialEq, Eq, Structural)]
pub struct SubmitPlan {
    pub wait_prior_frame_fence: Option<usize>,
    pub fence_slot: usize,
    pub image_index: usize,
}

impl Swapchain {
    /// Model well-formedness: the frame slot is in range, there is one
    /// ownership entry per presentable image, and every recorded owner is
    /// a real frame slot.
    pub open spec fn wf(&self) -> bool {
        &&& self.current_frame < MAX_FRAMES_IN_FLIGHT
        &&& self.images_in_flight@.len() == self.image_count
        &&& forall|i: int|
            0 <= i < self.images_in_flight@.len() ==> ((#[trigger] self.images_in_flight@[i])
                matches Some(f) ==> f < MAX_FRAMES_IN_FLIGHT)
    }

    /// The configuration (everything except the synchronization
    /// bookkeeping) of two chains is the same.
    pub open spec fn same_config(self, other: Swapchain) -> bool {
        &&& self.swapchain_image_format == other.swapchain_image_format
        &&& self.swapchain_color_space == other.swapchain_color_space
        &&& self.swapchain_depth_format == other.swapchain_depth_format
        &&& self.present_mode == other.present_mode
        &&& self.swapchain_extent == other.swapchain_extent
        &&& self.image_count == other.image_count
    }

    /// Builds the model of a freshly created chain. The host program
    /// first performs the driver calls: it queries surface support,
    /// probes the depth format (`find_depth_format`), creates the chain
    /// asking for `spec_choose_image_count` images, and passes in how
    /// many images the driver actually delivered (which may exceed the
    /// request).
    pub fn new(
        support: &SwapchainSupportDetails,
        window_extent: Extent2D,
        depth_format: u32,
        image_count: usize,
    ) -> (r: Swapchain)
        requires
            support.formats@.len() > 0,
            image_count > 0,
        ensures
            r.wf(),
            r.current_frame == 0,
            r.image_count == image_count,
            forall|i: int| 0 <= i < image_count ==> r.images_in_flight@[i] is None,
            r.swapchain_depth_format == depth_format,
            r.swapchain_extent == spec_choose_extent(support.capabilities, window_extent),
            r.present_mode == PRESENT_MODE_FIFO,
            (exists|i: int|
                0 <= i < support.formats@.len() && preferred_surface_format(
                    #[trigger] support.formats@[i],
                )) ==> preferred_surface_format(
                SurfaceFormat { format: r.swapchain_image_format, color_space: r.swapchain_color_space },
            ),
            (forall|i: int|
                0 <= i < support.formats@.len() ==> !preferred_surface_format(
                    #[trigger] support.formats@[i],
                )) ==> (r.swapchain_image_format == support.formats@[0].format
                && r.swapchain_color_space == support.formats@[0].color_space),
    {
        let surface_format = Self::choose_surface_format(&support.formats);
        let present_mode = Self::choose_present_mode(&support.present_modes);
        let extent = Self::choose_extent(&support.capabilities, window_extent);
        let mut images_in_flight: Vec<Option<usize>> = Vec::new();
        let mut i: usize = 0;
        while i < image_count
            invariant
                i <= image_count,
                images_in_flight@.len() == i,
                forall|j: int| 0 <= j < i ==> images_in_flight@[j] is None,
            decreases image_count - i,
        {
            images_in_flight.push(None);
            i = i + 1;
        }
        Swapchain {
            swapchain_image_format: surface_format.format,
            swapchain_color_space: surface_format.color_space,
            swapchain_depth_format: depth_format,
            present_mode,
            swapchain_extent: extent,
            image_count,
            images_in_flight,
            current_frame: 0,
        }
    }

    /// Fails with the dedicated incompatibility error exactly when the
    /// image or depth format differs between the two chains; pipelines
    /// built against one chain only remain valid for the other on
    /// success.
    pub fn compare_swap_formats(&self, other_swapchain: &Swapchain) -> (r: Result<
        (),
        GentooRenderError,
    >)
        ensures
            r is Ok <==> (other_swapchain.swapchain_depth_format == self.swapchain_depth_format
                && other_swapchain.swapchain_image_format == self.swapchain_image_format),
            r is Err ==> r == Err::<(), GentooRenderError>(
                GentooRenderError::CompareSwapFormatsError,
            ),
    {
        if other_swapchain.swapchain_depth_format == self.swapchain_depth_format
            && other_swapchain.swapchain_image_format == self.swapchain_image_format {
            Ok(())
        } else {
            Err(GentooRenderError::CompareSwapFormatsError)
        }
    }

    /// Width of the chain's images.
    pub fn width(&self) -> (r: u32)
        ensures
            r == self.swapchain_extent.width,
    {
        self.swapchain_extent.width
    }

    /// Height of the chain's images.
    pub fn height(&self) -> (r: u32)
        ensures
            r == self.swapchain_extent.height,
    {
        self.swapchain_extent.height
    }

    /// The frame slot whose in-flight fence the host program must wait on
    /// (wait-all, infinite timeout) before acquiring the next image: this
    /// bounds the CPU's lead over the GPU at `MAX_FRAMES_IN_FLIGHT`
    /// frames.
    pub fn acquire_wait_slot(&self) -> (r: usize)
        ensures
            r == self.current_frame,
    {
        self.current_frame
    }

    /// Records the submission of one frame that drew into
    /// `image_index` and advances the frame slot.
    ///
    /// The returned plan tells the host program which fence to wait on
    /// first (set exactly when an older in-flight frame still owns the
    /// image), and with which slot's fence and semaphores to submit and
    /// present. The image's owner becomes the submitting slot, and the
    /// frame slot advances by one modulo `MAX_FRAMES_IN_FLIGHT` whatever
    /// the submission's outcome.
    pub fn submit_command_buffers(&mut self, image_index: usize) -> (r: SubmitPlan)
        requires
            old(self).wf(),
            image_index < old(self).image_count,
        ensures
            final(self).wf(),
            r.wait_prior_frame_fence == old(self).images_in_flight@[image_index as int],
            r.fence_slot == old(self).current_frame,
            r.image_index == image_index,
            final(self).images_in_flight@ == old(self).images_in_flight@.update(
                image_index as int,
                Some(old(self).current_frame),
            ),
            final(self).current_frame == (old(self).current_frame + 1) % (
            MAX_FRAMES_IN_FLIGHT as int),
            final(self).same_config(*old(self)),
    {
        let wait_prior_frame_fence = self.images_in_flight[image_index];
        let fence_slot = self.current_frame;
        self.images_in_flight.set(image_index, Some(fence_slot));
        self.current_frame = (self.current_frame + 1) % MAX_FRAMES_IN_FLIGHT;
        SubmitPlan { wait_prior_frame_fence, fence_slot, image_index }
    }

    /// Picks the preferred sRGB surface format when the surface offers
    /// it; otherwise falls back to the first offered format.
    pub fn choose_surface_format(available_formats: &Vec<SurfaceFormat>) -> (r: SurfaceFormat)
        requires
            available_formats@.len() > 0,
        ensures
            (exists|i: int|
                0 <= i < available_formats@.len() && preferred_surface_format(
                    #[trigger] available_formats@[i],
                )) ==> preferred_surface_format(r),
            (forall|i: int|
                0 <= i < available_formats@.len() ==> !preferred_surface_format(
                    #[trigger] available_formats@[i],
                )) ==> r == available_formats@[0],
    {
        let n = available_formats.len();
        let mut i: usize = 0;
        while i < n
            invariant
                n == available_formats@.len(),
                i <= n,
                forall|j: int|
                    0 <= j < i ==> !preferred_surface_format(#[trigger] available_formats@[j]),
            decreases n - i,
        {
            let f = available_formats[i];
            if f.format == FORMAT_B8G8R8A8_SRGB && f.color_space == COLOR_SPACE_SRGB_NONLINEAR {
                return f;
            }
            i = i + 1;
        }
        available_formats[0]
    }

    /// Picks the present mode: the guaranteed-available blocking no-tear
    /// mode, whether or not the surface lists it.
    pub fn choose_present_mode(available_present_modes: &Vec<u32>) -> (r: u32)
        ensures
            r == PRESENT_MODE_FIFO,
    {
        let n = available_present_modes.len();
        let mut i: usize = 0;
        while i < n
            invariant
                n == available_present_modes@.len(),
                i <= n,
            decreases n - i,
        {
            if available_present_modes[i] == PRESENT_MODE_FIFO {
                return PRESENT_MODE_FIFO;
            }
            i = i + 1;
        }
        PRESENT_MODE_FIFO
    }

    /// The extent the chain is built with; see `spec_choose_extent`.
    pub fn choose_extent(capabilities: &SurfaceCapabilities, window_extent: Extent2D) -> (r:
        Extent2D)
        ensures
            r == spec_choose_extent(*capabilities, window_extent),
    {
        if capabilities.current_extent.width != u32::MAX {
            capabilities.current_extent
        } else {
            let capped_width = if window_extent.width > capabilities.max_image_extent.width {
                capabilities.max_image_extent.width
            } else {
                window_extent.width
            };
            let width = if capped_width < capabilities.min_image_extent.width {
                capabilities.min_image_extent.width
            } else {
                capped_width
            };
            let capped_height = if window_extent.height > capabilities.max_image_extent.height {
                capabilities.max_image_extent.height
            } else {
                window_extent.height
            };
            let height = if capped_height < capabilities.min_image_extent.height {
                capabilities.min_image_extent.height
            } else {
                capped_height
            };
            Extent2D { width, height }
        }
    }

    /// How many images to request from the driver; see
    /// `spec_choose_image_count`.
    pub fn choose_image_count(capabilities: &SurfaceCapabilities) -> (r: u32)
        requires
            capabilities.min_image_count < u32::MAX,
        ensures
            r == spec_choose_image_count(*capabilities),
    {
        let image_count = capabilities.min_image_count + 1;
        if capabilities.max_image_count > 0 && image_count > capabilities.max_image_count {
            capabilities.max_image_count
        } else {
            image_count
        }
    }

    /// The fixed depth-format candidate list, most preferred first.
    pub open spec fn depth_format_candidates() -> Seq<u32> {
        seq![FORMAT_D32_SFLOAT, FORMAT_D32_SFLOAT_S8_UINT, FORMAT_D32_SFLOAT_S8_UINT]
    }

    /// Probes the depth-candidate list against the driver's feature
    /// report (one record per candidate, same order) and returns the
    /// first candidate usable as a depth/stencil attachment with optimal
    /// tiling, or `None` when the device supports none of them.
    pub fn find_depth_format(properties: &Vec<FormatProperties>) -> (r: Option<u32>)
        requires
            properties@.len() == 3,
        ensures
            r matches Some(f) ==> exists|i: int|
                0 <= i < 3 && f == Self::depth_format_candidates()[i] && format_supports(
                    properties@[i],
                    IMAGE_TILING_OPTIMAL,
                    FORMAT_FEATURE_DEPTH_STENCIL_ATTACHMENT,
                ) && (forall|j: int|
                    0 <= j < i ==> !format_supports(
                        properties@[j],
                        IMAGE_TILING_OPTIMAL,
                        FORMAT_FEATURE_DEPTH_STENCIL_ATTACHMENT,
                    )),
            r is None ==> forall|j: int|
                0 <= j < 3 ==> !format_supports(
                    properties@[j],
                    IMAGE_TILING_OPTIMAL,
                    FORMAT_FEATURE_DEPTH_STENCIL_ATTACHMENT,
                ),
    {
        let mut candidates: Vec<u32> = Vec::new();
        candidates.push(FORMAT_D32_SFLOAT);
        candidates.push(FORMAT_D32_SFLOAT_S8_UINT);
        candidates.push(FORMAT_D32_SFLOAT_S8_UINT);
        proof {
            assert(candidates@ =~= Self::depth_format_candidates());
        }
        find_supported_format(
            &candidates,
            properties,
            IMAGE_TILING_OPTIMAL,
            FORMAT_FEATURE_DEPTH_STENCIL_ATTACHMENT,
        )
    }
}

} // verus!
