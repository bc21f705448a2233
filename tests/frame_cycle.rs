use koi::frame::{AcquireResult, DrawManager, DrawPhase, FenceState, PresentResult, SwapchainState};
use koi::frame::dispatch_groups;
use koi::settings::{Resolution, Settings};
use koi::swapchain::{negotiate_swapchain, Extent2D, SurfaceCapabilities, SurfaceFormat, SurfaceSupport};
use koi::device::PhysicalDeviceQueueFamilies;

fn manager(buffering: u32) -> DrawManager<u32> {
    let settings = Settings::default().resolution(Resolution::new(1920, 1080)).buffering(buffering);
    DrawManager::new(&settings)
}

/// One full draw that retires `resource`; returns the slot used and what
/// the fence wait handed back.
fn full_draw(m: &mut DrawManager<u32>, resource: u32) -> (usize, Vec<u32>) {
    let start = m.begin_draw();
    let drained: Vec<u32> = m.fence_waited().into_iter().map(|r| r.resource).collect();
    assert!(m.image_acquired(AcquireResult::Image(0)));
    m.defer_destroy(resource);
    m.submitted();
    m.done(PresentResult::Presented);
    (start.slot, drained)
}

fn pending(m: &DrawManager<u32>) -> usize {
    m.fences.iter().filter(|f| **f == FenceState::Pending).count()
}

#[test]
fn five_draws_with_double_buffering_alternate_slots() {
    let mut m = manager(2);
    let mut slots = vec![];
    let mut drained = vec![];
    for k in 0..5u32 {
        let (slot, d) = full_draw(&mut m, 100 + k);
        slots.push(slot);
        drained.push(d);
    }
    assert_eq!(slots, vec![0, 1, 0, 1, 0]);
    // The bin drained before recording is the slot about to be reused: it
    // holds exactly what the draw two frames earlier retired.
    assert_eq!(drained[0], Vec::<u32>::new());
    assert_eq!(drained[1], Vec::<u32>::new());
    assert_eq!(drained[2], vec![100]);
    assert_eq!(drained[3], vec![101]);
    assert_eq!(drained[4], vec![102]);
    assert_eq!(m.frame_count, 5);
}

#[test]
fn current_frame_index_is_counter_modulo_buffering() {
    let mut m = manager(3);
    for k in 0..10u64 {
        assert_eq!(m.get_current_frame_index() as u64, k % 3);
        full_draw(&mut m, k as u32);
    }
}

#[test]
fn retired_resource_comes_back_after_its_fence_with_its_draw_number() {
    let mut m = manager(3);
    full_draw(&mut m, 7);
    full_draw(&mut m, 8);
    full_draw(&mut m, 9);
    m.begin_draw();
    let back = m.fence_waited();
    assert_eq!(back.len(), 1);
    assert_eq!(back[0].resource, 7);
    assert_eq!(back[0].last_use, 0);
    assert_eq!(m.last_completed[0], Some(0));
}

#[test]
fn at_most_buffering_frames_in_flight() {
    let mut m = manager(3);
    for k in 0..12u32 {
        m.begin_draw();
        m.fence_waited();
        m.image_acquired(AcquireResult::Image(k % 2));
        assert!(pending(&m) < 3);
        m.submitted();
        assert!(pending(&m) <= 3);
        m.done(PresentResult::Presented);
    }
    assert_eq!(pending(&m), 3);
}

#[test]
fn resize_then_draw_rebuilds_at_clamped_extent_and_keeps_resources() {
    let mut m = manager(2);
    m.add_global(55);
    full_draw(&mut m, 1);
    m.handle_resize(Resolution::new(800, 600));
    assert_eq!(m.swapchain, SwapchainState::Stale);
    let start = m.begin_draw();
    assert_eq!(start.rebuild_swapchain, Some(Resolution::new(800, 600)));
    assert_eq!(m.swapchain, SwapchainState::Live);
    let caps = SurfaceCapabilities {
        min_image_count: 2,
        max_image_count: 3,
        min_image_extent: Extent2D { width: 1, height: 1 },
        max_image_extent: Extent2D { width: 700, height: 4096 },
        current_transform: 1,
    };
    let support = SurfaceSupport::new(caps, vec![SurfaceFormat { format: 44, color_space: 0 }], vec![2]);
    let families = PhysicalDeviceQueueFamilies { graphics_family_index: Some(0), present_family_index: Some(0) };
    let config = negotiate_swapchain(&support, &families, &start.rebuild_swapchain.unwrap(), 44, 0, 2);
    assert_eq!(config.extent, Extent2D { width: 700, height: 600 });
    // The resource bins (the allocator's state) survive the rebuild.
    assert_eq!(m.resources.global_resources.len(), 1);
    assert_eq!(m.resources.global_resources[0].resource, 55);
    assert_eq!(m.resources.frame_resources[0].len(), 1);
}

#[test]
fn stale_acquire_returns_without_advancing_or_signaling() {
    let mut m = manager(2);
    full_draw(&mut m, 1);
    let before = m.frame_count;
    let start = m.begin_draw();
    assert_eq!(start.slot, 1);
    assert!(start.wait_for_fence);
    m.fence_waited();
    assert!(!m.image_acquired(AcquireResult::Stale));
    assert_eq!(m.frame_count, before);
    assert_eq!(m.fences[1], FenceState::Unsignaled);
    assert_eq!(m.phase, DrawPhase::Idle);
    assert_eq!(m.swapchain, SwapchainState::Stale);
    // The retried draw uses the same slot, rebuilds first, and does not wait
    // on the fence that nothing will signal.
    let retry = m.begin_draw();
    assert_eq!(retry.slot, 1);
    assert!(!retry.wait_for_fence);
    assert_eq!(retry.rebuild_swapchain, Some(Resolution::new(1920, 1080)));
}

#[test]
fn stale_present_still_advances_and_requests_rebuild() {
    let mut m = manager(2);
    m.begin_draw();
    m.fence_waited();
    m.image_acquired(AcquireResult::Image(2));
    assert_eq!(m.image_index, 2);
    m.submitted();
    m.done(PresentResult::Stale);
    assert_eq!(m.frame_count, 1);
    assert_eq!(m.swapchain, SwapchainState::Stale);
    assert_eq!(m.fences[0], FenceState::Pending);
}

#[test]
fn first_draw_waits_on_presignaled_fence() {
    let mut m = manager(2);
    assert!(m.fences.iter().all(|f| *f == FenceState::Signaled));
    let start = m.begin_draw();
    assert_eq!(start.slot, 0);
    assert!(start.wait_for_fence);
    assert_eq!(start.rebuild_swapchain, None);
}

#[test]
fn shutdown_after_idle_returns_every_bin_in_order() {
    let mut m = manager(2);
    m.add_global(90);
    full_draw(&mut m, 10);
    full_draw(&mut m, 11);
    m.device_idle();
    assert!(m.fences.iter().all(|f| *f != FenceState::Pending));
    let all: Vec<u32> = m.shutdown().into_iter().map(|r| r.resource).collect();
    assert_eq!(all, vec![10, 11, 90]);
    assert_eq!(m.phase, DrawPhase::Shutdown);
    assert_eq!(m.swapchain, SwapchainState::Destroyed);
    m.handle_resize(Resolution::new(10, 10));
    assert_eq!(m.swapchain, SwapchainState::Destroyed);
}

#[test]
fn single_buffering_reuses_slot_zero() {
    let mut m = manager(1);
    assert_eq!(full_draw(&mut m, 1), (0, vec![]));
    assert_eq!(full_draw(&mut m, 2), (0, vec![1]));
    assert_eq!(full_draw(&mut m, 3), (0, vec![2]));
}

#[test]
fn dispatch_covers_the_extent() {
    assert_eq!(dispatch_groups(1920, 16), 120);
    assert_eq!(dispatch_groups(1081, 16), 68);
    assert_eq!(dispatch_groups(0, 16), 0);
    assert_eq!(dispatch_groups(1, 16), 1);
    assert_eq!(dispatch_groups(u32::MAX, 1), u32::MAX);
    assert_eq!(dispatch_groups(u32::MAX, 2), 1 << 31);
}
