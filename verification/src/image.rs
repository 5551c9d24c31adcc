//! The GPU image resource: one 2-D color image together with its view,
//! its sampler and its memory allocation, holding counted shared
//! ownership of the device and allocator it was created against.

use vstd::prelude::*;

use crate::shared::SharedDeps;
use crate::shared::ImageLayout;
use crate::shared::TeardownStep;

verus! {

/// One GPU-resident 2-D color image plus its sampling view.
///
/// The image handle and its allocation are bound together: they are
/// created as a pair by [`Image::new`] and released as a pair, in a fixed
/// order, by [`Image::destroy`]. Width, height and usage are immutable
/// after creation. The image performs no synchronization of its own: it
/// starts in the undefined layout and the caller places the first
/// transition.
pub struct Image {
    pub image: u64,
    pub image_view: u64,
    pub sampler: u64,
    pub allocation: u64,
    pub width: u32,
    pub height: u32,
    pub usage: u32,
    pub layout: ImageLayout,
}

/// The ownership counts after one image released its references: the
/// image held one counted reference to the device and one to the
/// allocator, and gives both back.
pub open spec fn release_image_deps(d: SharedDeps) -> SharedDeps {
    SharedDeps {
        device_owners: (d.device_owners - 1) as u64,
        allocator_owners: (d.allocator_owners - 1) as u64,
        ..d
    }
}

/// The exact teardown sequence of one image: sampler, then view, then the
/// allocation back to the allocator, then the image handle — in that
/// order, because the device forbids destroying an image while a view or
/// a live allocation still refers to it.
pub open spec fn image_teardown(img: Image) -> Seq<TeardownStep> {
    seq![
        TeardownStep::DestroySampler(img.sampler),
        TeardownStep::DestroyImageView(img.image_view),
        TeardownStep::FreeAllocation(img.allocation),
        TeardownStep::DestroyImage(img.image),
    ]
}

impl Image {
    /// Create a new image of the given extent and usage against the
    /// shared device and allocator. Mints four fresh handles — image,
    /// view, sampler, allocation — and takes one counted reference to
    /// the device and one to the allocator. The new image starts in the
    /// undefined layout.
    pub fn new(deps: &mut SharedDeps, width: u32, height: u32, usage: u32) -> (img: Image)
        requires
            width >= 1,
            height >= 1,
            old(deps).next_handle + 4 <= u64::MAX,
            old(deps).device_owners < u64::MAX,
            old(deps).allocator_owners < u64::MAX,
        ensures
            img.image == old(deps).next_handle,
            img.image_view == old(deps).next_handle + 1,
            img.sampler == old(deps).next_handle + 2,
            img.allocation == old(deps).next_handle + 3,
            img.width == width,
            img.height == height,
            img.usage == usage,
            img.layout == ImageLayout::Undefined,
            *final(deps) == (SharedDeps {
                device_owners: (old(deps).device_owners + 1) as u64,
                allocator_owners: (old(deps).allocator_owners + 1) as u64,
                next_handle: (old(deps).next_handle + 4) as u64,
            }),
    {
        let image = deps.mint_handle();
        let image_view = deps.mint_handle();
        let sampler = deps.mint_handle();
        let allocation = deps.mint_handle();
        deps.device_owners = deps.device_owners + 1;
        deps.allocator_owners = deps.allocator_owners + 1;
        Image {
            image,
            image_view,
            sampler,
            allocation,
            width,
            height,
            usage,
            layout: ImageLayout::Undefined,
        }
    }

    /// Release the image: return the exact ordered teardown sequence for
    /// the host to execute — sampler, view, allocation, image — and give
    /// the image's counted references to the device and allocator back.
    ///
    /// The caller must only do this once the device has finished all GPU
    /// work touching the image; the model leaves that fence discipline to
    /// the frame loop.
    pub fn destroy(self, deps: &mut SharedDeps) -> (steps: Vec<TeardownStep>)
        requires
            old(deps).device_owners >= 1,
            old(deps).allocator_owners >= 1,
        ensures
            steps@ == image_teardown(self),
            *final(deps) == release_image_deps(*old(deps)),
    {
        deps.device_owners = deps.device_owners - 1;
        deps.allocator_owners = deps.allocator_owners - 1;
        let mut steps: Vec<TeardownStep> = Vec::new();
        steps.push(TeardownStep::DestroySampler(self.sampler));
        steps.push(TeardownStep::DestroyImageView(self.image_view));
        steps.push(TeardownStep::FreeAllocation(self.allocation));
        steps.push(TeardownStep::DestroyImage(self.image));
        proof {
            assert(steps@ =~= image_teardown(self));
        }
        steps
    }
}

/// Destroying an image never takes the shared device or allocator with
/// it while any other owner — another image, or the renderer — still
/// holds a reference: after the image's references are released, at
/// least one reference to each remains, so both stay alive.
pub proof fn lemma_image_destroy_preserves_shared_deps(d: SharedDeps)
    requires
        d.device_owners >= 2,
        d.allocator_owners >= 2,
    ensures
        release_image_deps(d).device_alive(),
        release_image_deps(d).allocator_alive(),
{
}

} // verus!
