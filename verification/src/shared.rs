//! Handles, image layouts, teardown steps, and the shared-ownership
//! bookkeeping for the device and allocator that every GPU resource
//! depends on.

use vstd::prelude::*;

verus! {

/// Transfer-source usage bit, with the value the GPU API gives it.
pub const USAGE_TRANSFER_SRC: u32 = 0x1;

/// Transfer-destination usage bit, with the value the GPU API gives it.
pub const USAGE_TRANSFER_DST: u32 = 0x2;

/// Storage-image usage bit, with the value the GPU API gives it.
pub const USAGE_STORAGE: u32 = 0x8;

/// The layout a GPU image is in. Certain operations demand an explicit
/// transition between layouts, so the model tracks, for every image it
/// knows, the layout the recorded commands leave it in.
#[derive(Clone, Copy, Debug, PartialEq, Eq, Structural)]
pub enum ImageLayout {
    Undefined,
    General,
    PresentSrc,
    TransferSrc,
    TransferDst,
}

/// One step of a teardown sequence. Destruction order is part of the
/// engine's contract (a view must go before its image, an allocation must
/// be freed under the allocator's lock), so teardown is returned as an
/// explicit ordered list of steps for the host to execute verbatim.
#[derive(Clone, Copy, Debug, PartialEq, Eq, Structural)]
pub enum TeardownStep {
    WaitIdle,
    DestroySampler(u64),
    DestroyImageView(u64),
    FreeAllocation(u64),
    DestroyImage(u64),
    DestroySemaphore(u64),
    DestroyFence(u64),
}

/// Ownership counts for the two dependencies every GPU resource shares:
/// the logical device and the memory allocator. Each `Image` and the
/// `Renderer` itself hold one counted reference to each; the device and
/// allocator may be destroyed only when their count reaches zero.
///
/// `next_handle` is the mint for fresh handle values: every handle this
/// model hands out is the current value of the counter, which then
/// advances, so distinct objects always receive distinct handles.
#[derive(Clone, Copy, Debug, PartialEq, Eq, Structural)]
pub struct SharedDeps {
    pub device_owners: u64,
    pub allocator_owners: u64,
    pub next_handle: u64,
}

impl SharedDeps {
    /// The device may still be used: somebody owns a reference to it.
    pub open spec fn device_alive(self) -> bool {
        self.device_owners >= 1
    }

    /// The allocator may still be used: somebody owns a reference to it.
    pub open spec fn allocator_alive(self) -> bool {
        self.allocator_owners >= 1
    }

    /// Fresh bookkeeping for a newly created device and allocator, both
    /// owned once by their creator.
    pub fn new() -> (deps: SharedDeps)
        ensures
            deps == (SharedDeps { device_owners: 1, allocator_owners: 1, next_handle: 0 }),
    {
        SharedDeps { device_owners: 1, allocator_owners: 1, next_handle: 0 }
    }

    /// Hand out a fresh handle value.
    pub fn mint_handle(&mut self) -> (h: u64)
        requires
            old(self).next_handle < u64::MAX,
        ensures
            h == old(self).next_handle,
            *final(self) == (SharedDeps {
                next_handle: (old(self).next_handle + 1) as u64,
                ..*old(self)
            }),
    {
        let h = self.next_handle;
        self.next_handle = self.next_handle + 1;
        h
    }
}

} // verus!
