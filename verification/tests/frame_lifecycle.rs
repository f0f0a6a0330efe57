use gentoo_render::MAX_FRAMES_IN_FLIGHT;
use gentoo_render::GentooRenderError;
use gentoo_render::renderer::AcquireResult;
use gentoo_render::renderer::Renderer;
use gentoo_render::swapchain::Extent2D;
use gentoo_render::swapchain::SurfaceCapabilities;
use gentoo_render::swapchain::SurfaceFormat;
use gentoo_render::swapchain::Swapchain;
use gentoo_render::swapchain::SwapchainSupportDetails;
use gentoo_render::swapchain::COLOR_SPACE_SRGB_NONLINEAR;
use gentoo_render::swapchain::FORMAT_B8G8R8A8_SRGB;
use gentoo_render::swapchain::FORMAT_D32_SFLOAT;
use gentoo_render::swapchain::PRESENT_MODE_FIFO;

fn support(width: u32, height: u32) -> SwapchainSupportDetails {
    SwapchainSupportDetails {
        capabilities: SurfaceCapabilities {
            min_image_count: 2,
            max_image_count: 0,
            current_extent: Extent2D { width, height },
            min_image_extent: Extent2D { width: 1, height: 1 },
            max_image_extent: Extent2D { width: 4096, height: 4096 },
        },
        formats: vec![
            SurfaceFormat { format: FORMAT_B8G8R8A8_SRGB, color_space: COLOR_SPACE_SRGB_NONLINEAR },
        ],
        present_modes: vec![PRESENT_MODE_FIFO],
    }
}

fn test_swapchain(width: u32, height: u32, image_count: usize) -> Swapchain {
    Swapchain::new(
        &support(width, height),
        Extent2D { width, height },
        FORMAT_D32_SFLOAT,
        image_count,
    )
}

#[test]
fn fresh_swapchain_state() {
    let sc = test_swapchain(800, 600, 3);
    assert_eq!(sc.current_frame, 0);
    assert_eq!(sc.image_count, 3);
    assert_eq!(sc.images_in_flight, vec![None, None, None]);
    assert_eq!(sc.swapchain_image_format, FORMAT_B8G8R8A8_SRGB);
    assert_eq!(sc.swapchain_depth_format, FORMAT_D32_SFLOAT);
    assert_eq!(sc.present_mode, PRESENT_MODE_FIFO);
    assert_eq!(sc.width(), 800);
    assert_eq!(sc.height(), 600);
}

#[test]
fn frame_slot_advances_by_one_per_cycle() {
    let mut renderer = Renderer::new(test_swapchain(800, 600, 3));
    assert_eq!(renderer.current_frame_index, 0);
    for cycle in 0..6usize {
        assert!(renderer.current_frame_index < MAX_FRAMES_IN_FLIGHT);
        let expected = cycle % MAX_FRAMES_IN_FLIGHT;
        assert_eq!(renderer.current_frame_index, expected);
        let slot = renderer
            .begin_frame(AcquireResult::Success { image_index: cycle % 3, suboptimal: false })
            .expect("acquisition succeeded, a frame must start");
        assert_eq!(slot, expected);
        renderer.end_frame();
        assert_eq!(
            renderer.current_frame_index,
            (expected + 1) % MAX_FRAMES_IN_FLIGHT
        );
    }
}

#[test]
fn frame_scoped_reads_signal_outside_frame() {
    let mut renderer = Renderer::new(test_swapchain(800, 600, 2));
    assert!(!renderer.is_frame_in_progress());
    assert_eq!(renderer.try_frame_index(), None);
    assert_eq!(renderer.try_current_command_buffer(), None);
    assert!(renderer.try_begin_swapchain_render_pass(0).is_none());
    let slot = renderer
        .begin_frame(AcquireResult::Success { image_index: 0, suboptimal: false })
        .unwrap();
    assert!(renderer.is_frame_in_progress());
    assert_eq!(renderer.try_frame_index(), Some(slot));
    assert_eq!(renderer.try_current_command_buffer(), Some(slot));
    // A command buffer from another frame slot is refused too.
    assert!(renderer.try_begin_swapchain_render_pass(slot + 1).is_none());
    let setup = renderer.try_begin_swapchain_render_pass(slot).unwrap();
    assert_eq!(setup.framebuffer_index, 0);
    assert_eq!(setup.extent, Extent2D { width: 800, height: 600 });
    renderer.end_frame();
    assert_eq!(renderer.try_frame_index(), None);
}

#[test]
fn out_of_date_acquire_skips_the_tick() {
    let mut renderer = Renderer::new(test_swapchain(800, 600, 2));
    let before = renderer.clone();
    let r = renderer.begin_frame(AcquireResult::OutOfDate);
    assert!(r.is_none());
    assert!(!renderer.is_frame_in_progress());
    assert_eq!(renderer.current_frame_index, before.current_frame_index);
    assert_eq!(renderer.swapchain.current_frame, before.swapchain.current_frame);
    assert_eq!(renderer.swapchain.images_in_flight, before.swapchain.images_in_flight);
}

#[test]
fn compare_swap_formats_exact() {
    let a = test_swapchain(800, 600, 3);
    let same = test_swapchain(400, 300, 2);
    assert!(a.compare_swap_formats(&same).is_ok());

    let mut image_mismatch = test_swapchain(800, 600, 3);
    image_mismatch.swapchain_image_format = FORMAT_B8G8R8A8_SRGB + 1;
    assert_eq!(
        a.compare_swap_formats(&image_mismatch),
        Err(GentooRenderError::CompareSwapFormatsError)
    );

    let mut depth_mismatch = test_swapchain(800, 600, 3);
    depth_mismatch.swapchain_depth_format = FORMAT_D32_SFLOAT + 1;
    assert_eq!(
        a.compare_swap_formats(&depth_mismatch),
        Err(GentooRenderError::CompareSwapFormatsError)
    );
}

#[test]
fn recreate_with_compatible_chain_then_full_cycle() {
    let mut renderer = Renderer::new(test_swapchain(800, 600, 3));
    let replacement = test_swapchain(1024, 768, 3);
    assert!(!Extent2D { width: 1024, height: 768 }.is_zero_area());
    renderer
        .recreate_swapchain(replacement)
        .expect("a format-compatible chain must install");
    assert_eq!(renderer.swapchain.swapchain_extent, Extent2D { width: 1024, height: 768 });
    // One full begin/end cycle on the new chain succeeds.
    let slot = renderer
        .begin_frame(AcquireResult::Success { image_index: 2, suboptimal: false })
        .unwrap();
    let setup = renderer.begin_swapchain_render_pass(slot);
    assert_eq!(setup.extent, Extent2D { width: 1024, height: 768 });
    assert_eq!(setup.framebuffer_index, 2);
    renderer.end_swapchain_render_pass(slot);
    let plan = renderer.end_frame();
    assert_eq!(plan.image_index, 2);
    assert!(!renderer.is_frame_in_progress());
    assert_eq!(renderer.current_frame_index, 1);
}

#[test]
fn recreate_with_incompatible_chain_keeps_the_old_one() {
    let mut renderer = Renderer::new(test_swapchain(800, 600, 3));
    let before = renderer.clone();
    let mut replacement = test_swapchain(1024, 768, 3);
    replacement.swapchain_depth_format = FORMAT_D32_SFLOAT + 1;
    assert_eq!(
        renderer.recreate_swapchain(replacement),
        Err(GentooRenderError::CompareSwapFormatsError)
    );
    assert_eq!(renderer.swapchain.swapchain_extent, before.swapchain.swapchain_extent);
    assert_eq!(
        renderer.swapchain.swapchain_depth_format,
        before.swapchain.swapchain_depth_format
    );
}

#[test]
fn zero_area_extent_means_skip() {
    assert!(Extent2D { width: 0, height: 600 }.is_zero_area());
    assert!(Extent2D { width: 800, height: 0 }.is_zero_area());
    assert!(Extent2D { width: 0, height: 0 }.is_zero_area());
    assert!(!Extent2D { width: 1, height: 1 }.is_zero_area());
}

#[test]
fn acquire_throttles_after_max_frames_in_flight_cycles() {
    // MAX_FRAMES_IN_FLIGHT + 1 cycles back to back: the last acquire must
    // wait on the very fence the first frame submitted with.
    let mut renderer = Renderer::new(test_swapchain(800, 600, 3));
    let mut wait_slots = Vec::new();
    let mut fence_slots = Vec::new();
    for cycle in 0..(MAX_FRAMES_IN_FLIGHT + 1) {
        wait_slots.push(renderer.swapchain.acquire_wait_slot());
        let image_index = cycle % 3;
        renderer
            .begin_frame(AcquireResult::Success { image_index, suboptimal: false })
            .unwrap();
        let plan = renderer.end_frame();
        fence_slots.push(plan.fence_slot);
    }
    assert_eq!(wait_slots, vec![0, 1, 0]);
    assert_eq!(fence_slots, vec![0, 1, 0]);
    // The third acquire waited on the fence the first frame submitted with.
    assert_eq!(wait_slots[MAX_FRAMES_IN_FLIGHT], fence_slots[0]);
}

#[test]
fn submit_tracks_image_ownership() {
    let mut sc = test_swapchain(800, 600, 2);
    let plan0 = sc.submit_command_buffers(1);
    assert_eq!(plan0.wait_prior_frame_fence, None);
    assert_eq!(plan0.fence_slot, 0);
    assert_eq!(plan0.image_index, 1);
    assert_eq!(sc.images_in_flight, vec![None, Some(0)]);
    assert_eq!(sc.current_frame, 1);
    // The same image submitted from the next frame slot: the prior
    // owner's fence must be waited on first.
    let plan1 = sc.submit_command_buffers(1);
    assert_eq!(plan1.wait_prior_frame_fence, Some(0));
    assert_eq!(plan1.fence_slot, 1);
    assert_eq!(sc.images_in_flight, vec![None, Some(1)]);
    assert_eq!(sc.current_frame, 0);
}

#[test]
fn error_message_for_format_mismatch() {
    assert_eq!(
        GentooRenderError::CompareSwapFormatsError.message(),
        "Swapchain image or depth format has changed"
    );
}
