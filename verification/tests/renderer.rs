use akai::pipeline_store::PipelineConfig;
use akai::renderer::Renderer;
use akai::shared::ImageLayout;
use akai::shared::TeardownStep;

#[test]
fn new_renderer_starts_at_frame_zero() {
    let r = Renderer::new(3);
    assert_eq!(r.frame_index, 0);
    assert_eq!(r.command_buffers.len(), 3);
    assert_eq!(r.image_available_semaphores.len(), 3);
    assert_eq!(r.render_finished_semaphores.len(), 3);
    assert_eq!(r.in_flight_fences.len(), 3);
    assert_eq!(r.cb_callbacks.len(), 0);
    assert_eq!(r.pipeline_store.configs.len(), 0);
}

#[test]
fn swapchain_images_are_presentable_after_construction() {
    let r = Renderer::new(2);
    assert_eq!(r.swapchain_image_layouts.len(), 2);
    for layout in &r.swapchain_image_layouts {
        assert_eq!(*layout, ImageLayout::PresentSrc);
    }
}

#[test]
fn frame_index_cycles_after_image_count_frames() {
    // Driving exactly as many frames as there are swapchain images
    // brings the frame index back to its starting value.
    let mut r = Renderer::new(3);
    assert_eq!(r.frame_index, 0);
    r.draw_frame(0);
    assert_eq!(r.frame_index, 1);
    r.draw_frame(2);
    assert_eq!(r.frame_index, 2);
    r.draw_frame(1);
    assert_eq!(r.frame_index, 0);
}

#[test]
fn frame_plan_names_the_current_slot() {
    let mut r = Renderer::new(2);
    let expected = r.current_frame_sync();
    let plan = r.draw_frame(1);
    assert_eq!(plan.slot, expected);
    assert_eq!(plan.slot.command_buffer, r.command_buffers[0]);
    assert_eq!(plan.slot.image_available_semaphore, r.image_available_semaphores[0]);
    assert_eq!(plan.slot.render_finished_semaphore, r.render_finished_semaphores[0]);
    assert_eq!(plan.slot.in_flight_fence, r.in_flight_fences[0]);
    assert_eq!(plan.image_index, 1);
    // The next plan uses the next slot round-robin.
    let plan2 = r.draw_frame(0);
    assert_eq!(plan2.slot.command_buffer, r.command_buffers[1]);
}

#[test]
fn single_slot_frame_index_stays_at_zero() {
    let mut r = Renderer::new(1);
    for _ in 0..4 {
        let plan = r.draw_frame(0);
        assert_eq!(plan.image_index, 0);
        assert_eq!(r.frame_index, 0);
    }
}

#[test]
fn deferred_callback_waits_for_its_fence() {
    let mut r = Renderer::new(2);
    let cb = r.create_command_buffer();
    let _fence = r.submit_single_time_command_buffer(cb, 42);
    assert_eq!(r.cb_callbacks.len(), 1);
    // The fence has not signaled yet: polling fires nothing, however
    // often it runs.
    for _ in 0..5 {
        let fired = r.update(&vec![false]);
        assert!(fired.is_empty());
        assert_eq!(r.cb_callbacks.len(), 1);
    }
}

#[test]
fn deferred_callback_fires_exactly_once() {
    let mut r = Renderer::new(2);
    let cb = r.create_command_buffer();
    let fence = r.submit_single_time_command_buffer(cb, 42);
    let fired = r.update(&vec![true]);
    assert_eq!(fired.len(), 1);
    assert_eq!(fired[0].callback, 42);
    assert_eq!(fired[0].command_buffer, cb);
    assert_eq!(fired[0].fence, fence);
    // The entry is gone: any number of later polls fires nothing.
    for _ in 0..5 {
        let fired_again = r.update(&vec![]);
        assert!(fired_again.is_empty());
        assert_eq!(r.cb_callbacks.len(), 0);
    }
}

#[test]
fn poll_partitions_pending_submissions() {
    let mut r = Renderer::new(2);
    let cb0 = r.create_command_buffer();
    let cb1 = r.create_command_buffer();
    let cb2 = r.create_command_buffer();
    r.submit_single_time_command_buffer(cb0, 10);
    r.submit_single_time_command_buffer(cb1, 11);
    r.submit_single_time_command_buffer(cb2, 12);
    let fired = r.update(&vec![true, false, true]);
    let mut fired_callbacks: Vec<u64> = fired.iter().map(|e| e.callback).collect();
    fired_callbacks.sort();
    assert_eq!(fired_callbacks, vec![10, 12]);
    assert_eq!(r.cb_callbacks.len(), 1);
    assert_eq!(r.cb_callbacks[0].callback, 11);
}

#[test]
fn deferred_fences_are_distinct() {
    let mut r = Renderer::new(2);
    let f0 = r.submit_single_time_command_buffer(0, 0);
    let f1 = r.submit_single_time_command_buffer(0, 0);
    let f2 = r.submit_single_time_command_buffer(0, 0);
    assert!(f0 != f1 && f1 != f2 && f0 != f2);
}

#[test]
fn teardown_waits_then_releases_in_order() {
    let r = Renderer::new(2);
    let rf = r.render_finished_semaphores.clone();
    let ia = r.image_available_semaphores.clone();
    let ff = r.in_flight_fences.clone();
    let (steps, deps) = r.destroy();
    let expected = vec![
        TeardownStep::WaitIdle,
        TeardownStep::DestroySemaphore(rf[0]),
        TeardownStep::DestroySemaphore(rf[1]),
        TeardownStep::DestroySemaphore(ia[0]),
        TeardownStep::DestroySemaphore(ia[1]),
        TeardownStep::DestroyFence(ff[0]),
        TeardownStep::DestroyFence(ff[1]),
    ];
    assert_eq!(steps, expected);
    // The renderer's own device and allocator references are released.
    assert_eq!(deps.device_owners, 0);
    assert_eq!(deps.allocator_owners, 0);
}

#[test]
fn pipeline_store_hands_out_sequential_keys() {
    let mut r = Renderer::new(1);
    let store = r.pipeline_store();
    let config = |name: &str| PipelineConfig {
        shader_path: String::from(name),
        descriptor_set_layout: 9,
        push_constant_size: 16,
        num_images: 1,
        workgroup_size: 32,
    };
    let k0 = store.insert(config("a.comp"));
    let k1 = store.insert(config("b.comp"));
    assert_eq!(k0, 0);
    assert_eq!(k1, 1);
    assert_eq!(store.get(0).shader_path, "a.comp");
    assert_eq!(store.get(1).shader_path, "b.comp");
}
