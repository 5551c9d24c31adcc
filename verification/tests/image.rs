use akai::image::Image;
use akai::renderer::Renderer;
use akai::shared::ImageLayout;
use akai::shared::SharedDeps;
use akai::shared::TeardownStep;
use akai::shared::USAGE_STORAGE;
use akai::shared::USAGE_TRANSFER_SRC;

#[test]
fn new_image_takes_a_reference_to_each_dependency() {
    let mut deps = SharedDeps::new();
    assert_eq!(deps.device_owners, 1);
    assert_eq!(deps.allocator_owners, 1);
    let img = Image::new(&mut deps, 640, 480, USAGE_STORAGE | USAGE_TRANSFER_SRC);
    assert_eq!(deps.device_owners, 2);
    assert_eq!(deps.allocator_owners, 2);
    assert_eq!(img.width, 640);
    assert_eq!(img.height, 480);
    assert_eq!(img.usage, USAGE_STORAGE | USAGE_TRANSFER_SRC);
    assert_eq!(img.layout, ImageLayout::Undefined);
}

#[test]
fn image_handles_are_distinct() {
    let mut deps = SharedDeps::new();
    let a = Image::new(&mut deps, 8, 8, USAGE_STORAGE);
    let b = Image::new(&mut deps, 8, 8, USAGE_STORAGE);
    let handles = [
        a.image, a.image_view, a.sampler, a.allocation,
        b.image, b.image_view, b.sampler, b.allocation,
    ];
    for i in 0..handles.len() {
        for j in 0..i {
            assert_ne!(handles[i], handles[j]);
        }
    }
}

#[test]
fn teardown_releases_sampler_view_allocation_image_in_order() {
    let mut deps = SharedDeps::new();
    let img = Image::new(&mut deps, 16, 16, USAGE_STORAGE);
    let expected = vec![
        TeardownStep::DestroySampler(img.sampler),
        TeardownStep::DestroyImageView(img.image_view),
        TeardownStep::FreeAllocation(img.allocation),
        TeardownStep::DestroyImage(img.image),
    ];
    let steps = img.destroy(&mut deps);
    assert_eq!(steps, expected);
}

#[test]
fn destroying_one_image_keeps_shared_dependencies_alive() {
    // Two images and the renderer share the device and allocator: after
    // one image goes away, the other owners still hold references, so
    // neither dependency may be destroyed.
    let mut r = Renderer::new(2);
    let first = Image::new(&mut r.deps, 32, 32, USAGE_STORAGE);
    let _second = Image::new(&mut r.deps, 32, 32, USAGE_STORAGE);
    assert_eq!(r.deps.device_owners, 3);
    first.destroy(&mut r.deps);
    assert_eq!(r.deps.device_owners, 2);
    assert_eq!(r.deps.allocator_owners, 2);
    assert!(r.deps.device_owners >= 1);
    assert!(r.deps.allocator_owners >= 1);
}

#[test]
fn transition_moves_the_image_between_layouts() {
    let mut r = Renderer::new(1);
    let mut img = Image::new(&mut r.deps, 32, 32, USAGE_STORAGE);
    let cb = r.create_command_buffer();
    r.transition_image(
        cb,
        &mut img,
        ImageLayout::Undefined,
        ImageLayout::General,
        0,
        0,
        0,
        0,
    );
    assert_eq!(img.layout, ImageLayout::General);
    r.transition_image(
        cb,
        &mut img,
        ImageLayout::General,
        ImageLayout::TransferSrc,
        0,
        0,
        0,
        0,
    );
    assert_eq!(img.layout, ImageLayout::TransferSrc);
}
