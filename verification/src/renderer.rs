//! The frame lifecycle: a state machine over {Idle, FrameInProgress}
//! that owns the swapchain model, tracks the rotating frame slot, and
//! decides what the host program must do at each step of a frame.
//!
//! Per frame the host program: asks `acquire_wait_slot` which fence to
//! wait on, performs the driver's acquire call, reports the outcome to
//! `begin_frame`, records draw commands into the command buffer of the
//! returned slot, and finally lets `end_frame` produce the submit plan it
//! carries out. On a resize it rebuilds the chain and offers it to
//! `recreate_swapchain`, which only accepts a format-compatible
//! replacement.

use vstd::prelude::*;

use crate::GentooRenderError;
use crate::MAX_FRAMES_IN_FLIGHT;
use crate::swapchain::Extent2D;
use crate::swapchain::SubmitPlan;
use crate::swapchain::Swapchain;

verus! {

/// Outcome of the driver's image-acquisition call, as the host program
/// reports it. A success carries the image index the presentation engine
/// chose and its sub-optimal flag (observed, not acted upon); an
/// out-of-date surface is the one recoverable failure. Any other driver
/// error is fatal and never reaches the state machine.
#[derive(Debug, Clone, Copy, PartialEq, Eq, Structural)]
pub enum AcquireResult {
    Success { image_index: usize, suboptimal: bool },
    OutOfDate,
}

/// What the host program needs to open the render pass for the current
/// frame: which framebuffer to draw into and the extent that the clears,
/// viewport and scissor cover.
#[derive(Debug, Clone, Copy, PartialEq, Eq, Structural)]
pub struct RenderPassSetup {
    pub framebuffer_index: usize,
    pub extent: Extent2D,
}

/// The renderer: swapchain model plus frame-protocol state.
/// `current_frame_index` selects the per-slot command buffer;
/// `is_frame_started` guards the begin/end protocol.
#[derive(Debug, Clone)]
pub struct Renderer {
    pub swapchain: Swapchain,
    pub current_image_index: usize,
    pub current_frame_index: usize,
    pub is_frame_started: bool,
}

impl Renderer {
    /// Well-formedness: the swapchain model is well-formed, the frame
    /// slot is in range, and while a frame is in progress the recorded
    /// image index names a real presentable image.
    pub open spec fn wf(&self) -> bool {
        &&& self.swapchain.wf()
        &&& self.current_frame_index < MAX_FRAMES_IN_FLIGHT
        &&& self.is_frame_started ==> self.current_image_index < self.swapchain.image_count
    }

    /// The state after a successful acquisition of `image_index`.
    pub open spec fn spec_begin_frame(self, image_index: usize) -> Renderer {
        Renderer { current_image_index: image_index, is_frame_started: true, ..self }
    }

    /// How the state after one completed frame relates to the state
    /// before it: the image's owner becomes the submitting slot, both the
    /// swapchain's and the renderer's frame slots advance by one modulo
    /// `MAX_FRAMES_IN_FLIGHT`, the chain's configuration is untouched,
    /// and the machine returns to Idle.
    pub open spec fn end_frame_rel(pre: Renderer, post: Renderer) -> bool {
        &&& post.swapchain.images_in_flight@ == pre.swapchain.images_in_flight@.update(
            pre.current_image_index as int,
            Some(pre.swapchain.current_frame),
        )
        &&& post.swapchain.current_frame == (pre.swapchain.current_frame + 1) % (
        MAX_FRAMES_IN_FLIGHT as int)
        &&& post.swapchain.same_config(pre.swapchain)
        &&& post.current_image_index == pre.current_image_index
        &&& post.current_frame_index == (pre.current_frame_index + 1) % (
        MAX_FRAMES_IN_FLIGHT as int)
        &&& !post.is_frame_started
    }

    /// One whole accepted frame: a successful acquisition of
    /// `image_index` followed by a completed submission.
    pub open spec fn frame_cycle_rel(pre: Renderer, image_index: usize, post: Renderer) -> bool {
        Renderer::end_frame_rel(pre.spec_begin_frame(image_index), post)
    }

    /// The submit plan that completing the current frame produces.
    pub open spec fn spec_submit_plan(self) -> SubmitPlan {
        SubmitPlan {
            wait_prior_frame_fence: self.swapchain.images_in_flight@[self.current_image_index as int],
            fence_slot: self.swapchain.current_frame,
            image_index: self.current_image_index,
        }
    }

    /// A freshly built renderer: Idle, at frame slot 0, owning the given
    /// chain.
    pub fn new(swapchain: Swapchain) -> (r: Renderer)
        requires
            swapchain.wf(),
        ensures
            r.wf(),
            r.swapchain == swapchain,
            r.current_image_index == 0,
            r.current_frame_index == 0,
            !r.is_frame_started,
    {
        Renderer { swapchain, current_image_index: 0, current_frame_index: 0, is_frame_started: false }
    }

    /// The current frame slot; calling this with no frame in progress is
    /// a protocol violation, so the host program guards the call with
    /// `is_frame_in_progress`.
    pub fn get_frame_index(&self) -> (r: usize)
        requires
            self.is_frame_started,
        ensures
            r == self.current_frame_index,
    {
        self.current_frame_index
    }

    /// The current frame slot, or `None` when no frame is in progress:
    /// every frame-scoped read made outside a frame signals the
    /// violation here.
    pub fn try_frame_index(&self) -> (r: Option<usize>)
        ensures
            r is Some <==> self.is_frame_started,
            self.is_frame_started ==> r == Some(self.current_frame_index),
    {
        if self.is_frame_started {
            Some(self.current_frame_index)
        } else {
            None
        }
    }

    /// The image index the presentation engine chose for this frame.
    pub fn get_image_index(&self) -> (r: usize)
        ensures
            r == self.current_image_index,
    {
        self.current_image_index
    }

    /// The slot of the pre-allocated command buffer this frame records
    /// into; only meaningful while a frame is in progress.
    pub fn get_current_command_buffer(&self) -> (r: usize)
        requires
            self.is_frame_started,
        ensures
            r == self.current_frame_index,
    {
        self.current_frame_index
    }

    /// The slot of the command buffer for this frame, or `None` when no
    /// frame is in progress.
    pub fn try_current_command_buffer(&self) -> (r: Option<usize>)
        ensures
            r is Some <==> self.is_frame_started,
            self.is_frame_started ==> r == Some(self.current_frame_index),
    {
        if self.is_frame_started {
            Some(self.current_frame_index)
        } else {
            None
        }
    }

    /// Whether a frame is in progress: the guard the host program tests
    /// before any frame-scoped operation.
    pub fn is_frame_in_progress(&self) -> (r: bool)
        ensures
            r == self.is_frame_started,
    {
        self.is_frame_started
    }

    /// Starts a frame from the reported acquisition outcome. On success
    /// the machine enters FrameInProgress, records the chosen image, and
    /// returns the command-buffer slot to record into. On an out-of-date
    /// surface nothing changes and `None` says to skip this tick: the
    /// host program rebuilds the chain and offers it to
    /// `recreate_swapchain`.
    pub fn begin_frame(&mut self, acquire: AcquireResult) -> (r: Option<usize>)
        requires
            old(self).wf(),
            !old(self).is_frame_started,
            acquire matches AcquireResult::Success { image_index, .. } ==> image_index < old(
                self,
            ).swapchain.image_count,
        ensures
            final(self).wf(),
            acquire matches AcquireResult::Success { image_index, .. } ==> (*final(self) == old(
                self,
            ).spec_begin_frame(image_index) && r == Some(old(self).current_frame_index)),
            acquire is OutOfDate ==> (*final(self) == *old(self) && r is None),
    {
        match acquire {
            AcquireResult::OutOfDate => None,
            AcquireResult::Success { image_index, suboptimal: _ } => {
                self.is_frame_started = true;
                self.current_image_index = image_index;
                Some(self.current_frame_index)
            },
        }
    }

    /// Completes the frame: returns the submit plan the host program
    /// carries out (submit, present, then a device-idle wait), returns
    /// the machine to Idle, and advances the frame slot by exactly one
    /// modulo `MAX_FRAMES_IN_FLIGHT`, whichever image was acquired.
    pub fn end_frame(&mut self) -> (r: SubmitPlan)
        requires
            old(self).wf(),
            old(self).is_frame_started,
        ensures
            final(self).wf(),
            r == old(self).spec_submit_plan(),
            Renderer::end_frame_rel(*old(self), *final(self)),
            final(self).current_frame_index == (old(self).current_frame_index + 1) % (
            MAX_FRAMES_IN_FLIGHT as int),
    {
        let image_index = self.current_image_index;
        let plan = self.swapchain.submit_command_buffers(image_index);
        self.is_frame_started = false;
        self.current_frame_index = (self.current_frame_index + 1) % MAX_FRAMES_IN_FLIGHT;
        plan
    }

    /// What opening the render pass needs for this frame. The command
    /// buffer slot must be the one `begin_frame` returned this tick:
    /// using another frame's buffer is a protocol violation.
    pub fn begin_swapchain_render_pass(&self, command_buffer_slot: usize) -> (r: RenderPassSetup)
        requires
            self.is_frame_started,
            command_buffer_slot == self.current_frame_index,
        ensures
            r.framebuffer_index == self.current_image_index,
            r.extent == self.swapchain.swapchain_extent,
    {
        RenderPassSetup {
            framebuffer_index: self.current_image_index,
            extent: self.swapchain.swapchain_extent,
        }
    }

    /// What opening the render pass needs, or `None` when no frame is in
    /// progress or the command buffer belongs to another frame: the
    /// checked form of `begin_swapchain_render_pass`.
    pub fn try_begin_swapchain_render_pass(&self, command_buffer_slot: usize) -> (r: Option<
        RenderPassSetup,
    >)
        ensures
            r is Some <==> (self.is_frame_started && command_buffer_slot
                == self.current_frame_index),
            r matches Some(setup) ==> (setup.framebuffer_index == self.current_image_index
                && setup.extent == self.swapchain.swapchain_extent),
    {
        if self.is_frame_started && command_buffer_slot == self.current_frame_index {
            Some(self.begin_swapchain_render_pass(command_buffer_slot))
        } else {
            None
        }
    }

    /// Closing the render pass obeys the same discipline as opening it:
    /// only while a frame is in progress, only with this frame's command
    /// buffer. The driver call itself is the host program's.
    pub fn end_swapchain_render_pass(&self, command_buffer_slot: usize)
        requires
            self.is_frame_started,
            command_buffer_slot == self.current_frame_index,
    {
    }

    /// Replaces the chain with a freshly built one after a resize or an
    /// out-of-date surface. Succeeds exactly when the new chain's image
    /// and depth formats match the old chain's; on a mismatch the
    /// dedicated error is returned and the prior chain is kept, since the
    /// existing pipelines could not draw into the new one.
    pub fn recreate_swapchain(&mut self, new_swapchain: Swapchain) -> (r: Result<
        (),
        GentooRenderError,
    >)
        requires
            old(self).wf(),
            new_swapchain.wf(),
            !old(self).is_frame_started,
        ensures
            final(self).wf(),
            !final(self).is_frame_started,
            r is Ok <==> (new_swapchain.swapchain_image_format
                == old(self).swapchain.swapchain_image_format
                && new_swapchain.swapchain_depth_format
                == old(self).swapchain.swapchain_depth_format),
            r is Ok ==> *final(self) == (Renderer { swapchain: new_swapchain, ..*old(self) }),
            r is Err ==> (*final(self) == *old(self) && r == Err::<(), GentooRenderError>(
                GentooRenderError::CompareSwapFormatsError,
            )),
    {
        match self.swapchain.compare_swap_formats(&new_swapchain) {
            Ok(()) => {
                self.swapchain = new_swapchain;
                Ok(())
            },
            Err(e) => Err(e),
        }
    }
}

/// Law: rebuilding the swapchain and then running one full frame always
/// goes through. From any well-formed Idle renderer, installing any
/// well-formed format-compatible chain (of any nonzero extent) succeeds
/// (the success condition of `recreate_swapchain` holds), the installed
/// state accepts a begin for every image index the new chain can return,
/// and the completed cycle ends Idle and well-formed with the frame slot
/// advanced by one.
pub proof fn lemma_recreate_then_frame_cycle(
    r: Renderer,
    s: Swapchain,
    image_index: usize,
    done: Renderer,
)
    requires
        r.wf(),
        !r.is_frame_started,
        s.wf(),
        s.swapchain_extent.width > 0,
        s.swapchain_extent.height > 0,
        s.swapchain_image_format == r.swapchain.swapchain_image_format,
        s.swapchain_depth_format == r.swapchain.swapchain_depth_format,
        image_index < s.image_count,
        Renderer::frame_cycle_rel(Renderer { swapchain: s, ..r }, image_index, done),
    ensures
        (Renderer { swapchain: s, ..r }).wf(),
        !(Renderer { swapchain: s, ..r }).is_frame_started,
        (Renderer { swapchain: s, ..r }).spec_begin_frame(image_index).wf(),
        (Renderer { swapchain: s, ..r }).spec_begin_frame(image_index).is_frame_started,
        done.wf(),
        !done.is_frame_started,
        done.current_frame_index == (r.current_frame_index + 1) % (MAX_FRAMES_IN_FLIGHT as int),
{
}

/// Law: the frame slot is always in `[0, MAX_FRAMES_IN_FLIGHT)` and a
/// completed frame advances it by exactly one modulo
/// `MAX_FRAMES_IN_FLIGHT`, regardless of which image index was acquired.
pub proof fn lemma_frame_slot_advances(r: Renderer, done: Renderer)
    requires
        r.wf(),
        r.is_frame_started,
        Renderer::end_frame_rel(r, done),
    ensures
        r.current_frame_index < MAX_FRAMES_IN_FLIGHT,
        done.current_frame_index < MAX_FRAMES_IN_FLIGHT,
        done.current_frame_index == (r.current_frame_index + 1) % (MAX_FRAMES_IN_FLIGHT as int),
{
}

/// The states a renderer passes through over a run of completed frames:
/// `trace[0]` is the start, and step `k` is one full accepted frame
/// cycle that acquired image `images[k]`.
pub open spec fn frame_trace(trace: Seq<Renderer>, images: Seq<usize>) -> bool {
    &&& trace.len() == images.len() + 1
    &&& forall|k: int|
        0 <= k < images.len() ==> Renderer::frame_cycle_rel(
            #[trigger] trace[k],
            images[k],
            trace[k + 1],
        )
}

/// Law: over any run of completed frames, however long and whichever
/// image indices were acquired, well-formedness and the chain's image
/// count are preserved, and after `n` frames both frame slots stand at
/// exactly `n` past their start, modulo `MAX_FRAMES_IN_FLIGHT`.
pub proof fn lemma_frame_slot_paces_the_run(trace: Seq<Renderer>, images: Seq<usize>, n: int)
    requires
        frame_trace(trace, images),
        trace[0].wf(),
        forall|k: int|
            0 <= k < images.len() ==> #[trigger] images[k] < trace[0].swapchain.image_count,
        0 <= n < trace.len(),
    ensures
        trace[n].wf(),
        trace[n].swapchain.image_count == trace[0].swapchain.image_count,
        trace[n].current_frame_index == (trace[0].current_frame_index + n) % (
        MAX_FRAMES_IN_FLIGHT as int),
        trace[n].swapchain.current_frame == (trace[0].swapchain.current_frame + n) % (
        MAX_FRAMES_IN_FLIGHT as int),
    decreases n,
{
    if n > 0 {
        lemma_frame_slot_paces_the_run(trace, images, n - 1);
        assert(Renderer::frame_cycle_rel(trace[n - 1], images[n - 1], trace[n]));
    }
}

/// Law: the CPU cannot run more than `MAX_FRAMES_IN_FLIGHT` frames
/// ahead. Acquisition waits on the fence of slot
/// `swapchain.current_frame` (the ensures of `acquire_wait_slot`); that
/// slot differs from the starting one until `MAX_FRAMES_IN_FLIGHT`
/// cycles have completed, when it has wrapped around to its starting
/// value, so the next acquire waits on the very fence the first of those
/// frames submitted with, and blocks until that frame retires.
pub proof fn lemma_acquire_throttles_cpu(r: Renderer, i0: usize, i1: usize, a: Renderer, b: Renderer)
    requires
        r.wf(),
        !r.is_frame_started,
        i0 < r.swapchain.image_count,
        i1 < r.swapchain.image_count,
        Renderer::frame_cycle_rel(r, i0, a),
        Renderer::frame_cycle_rel(a, i1, b),
    ensures
        a.swapchain.current_frame != r.swapchain.current_frame,
        b.swapchain.current_frame == r.swapchain.current_frame,
{
}

} // verus!
