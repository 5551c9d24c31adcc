//! The frame loop and the deferred one-off-submission queue.
//!
//! The renderer owns one synchronization slot per swapchain image — an
//! "image available" semaphore, a "render finished" semaphore, an
//! in-flight fence and a command buffer — and advances round-robin
//! through them, one slot per presented frame. Beside the regular cycle
//! it keeps a queue of one-off submissions, each with its own completion
//! fence and a callback token that must fire exactly once, after and
//! only after the fence reports signaled.

use vstd::prelude::*;
use vstd::arithmetic::div_mod::lemma_add_mod_noop_right;
use vstd::arithmetic::div_mod::lemma_mod_add_multiples_vanish;
use vstd::arithmetic::div_mod::lemma_small_mod;

use crate::shared::SharedDeps;
use crate::shared::ImageLayout;
use crate::shared::TeardownStep;
use crate::image::Image;
use crate::pipeline_store::PipelineStore;

verus! {

/// One pending one-off submission: the completion fence the device will
/// signal, the command buffer that was submitted, and the token of the
/// callback the host must invoke once — and only once — after the fence
/// is signaled.
#[derive(Clone, Copy, Debug, PartialEq, Eq, Structural)]
pub struct PendingSubmission {
    pub fence: u64,
    pub command_buffer: u64,
    pub callback: u64,
}

/// How many pending entries carry the fence `x`.
pub open spec fn count_fence(q: Seq<PendingSubmission>, x: u64) -> nat
    decreases q.len(),
{
    if q.len() == 0 {
        0
    } else {
        count_fence(q.drop_last(), x) + if q.last().fence == x { 1nat } else { 0nat }
    }
}

/// The entries a poll fires: those whose fence status, read in the same
/// order as the queue, is signaled.
pub open spec fn fired_of(q: Seq<PendingSubmission>, signaled: Seq<bool>) -> Seq<PendingSubmission>
    decreases q.len(),
{
    if q.len() == 0 {
        Seq::empty()
    } else {
        let rest = fired_of(q.drop_last(), signaled.drop_last());
        if signaled.last() {
            rest.push(q.last())
        } else {
            rest
        }
    }
}

/// The entries a poll keeps: those whose fence status is not signaled.
pub open spec fn kept_of(q: Seq<PendingSubmission>, signaled: Seq<bool>) -> Seq<PendingSubmission>
    decreases q.len(),
{
    if q.len() == 0 {
        Seq::empty()
    } else {
        let rest = kept_of(q.drop_last(), signaled.drop_last());
        if signaled.last() {
            rest
        } else {
            rest.push(q.last())
        }
    }
}

/// A poll only partitions the queue: every fence occurs in the fired and
/// kept parts together exactly as often as it occurred in the queue.
pub proof fn lemma_poll_partitions_counts(q: Seq<PendingSubmission>, signaled: Seq<bool>, x: u64)
    requires
        q.len() == signaled.len(),
    ensures
        count_fence(fired_of(q, signaled), x) + count_fence(kept_of(q, signaled), x)
            == count_fence(q, x),
    decreases q.len(),
{
    if q.len() > 0 {
        lemma_poll_partitions_counts(q.drop_last(), signaled.drop_last(), x);
        if signaled.last() {
            assert(fired_of(q, signaled) == fired_of(q.drop_last(), signaled.drop_last()).push(q.last()));
            assert(fired_of(q, signaled).drop_last() =~= fired_of(q.drop_last(), signaled.drop_last()));
        } else {
            assert(kept_of(q, signaled).drop_last() =~= kept_of(q.drop_last(), signaled.drop_last()));
        }
    }
}

/// Each entry of the queue lands on the side its fence status says:
/// signaled entries are fired, unsignaled entries are kept.
pub proof fn lemma_poll_routes_entry(q: Seq<PendingSubmission>, signaled: Seq<bool>, i: int)
    requires
        q.len() == signaled.len(),
        0 <= i < q.len(),
    ensures
        signaled[i] ==> fired_of(q, signaled).contains(q[i]),
        !signaled[i] ==> kept_of(q, signaled).contains(q[i]),
    decreases q.len(),
{
    if i == q.len() - 1 {
        if signaled[i] {
            let f = fired_of(q, signaled);
            assert(f.last() == q[i]);
            assert(f.contains(q[i]));
        } else {
            let k = kept_of(q, signaled);
            assert(k.last() == q[i]);
            assert(k.contains(q[i]));
        }
    } else {
        lemma_poll_routes_entry(q.drop_last(), signaled.drop_last(), i);
        assert(q.drop_last()[i] == q[i]);
        assert(signaled.drop_last()[i] == signaled[i]);
        if signaled[i] {
            let rest = fired_of(q.drop_last(), signaled.drop_last());
            let j = choose|j: int| 0 <= j < rest.len() && rest[j] == q[i];
            assert(fired_of(q, signaled)[j] == q[i]);
            assert(fired_of(q, signaled).contains(q[i]));
        } else {
            let rest = kept_of(q.drop_last(), signaled.drop_last());
            let j = choose|j: int| 0 <= j < rest.len() && rest[j] == q[i];
            assert(kept_of(q, signaled)[j] == q[i]);
            assert(kept_of(q, signaled).contains(q[i]));
        }
    }
}

/// An entry that is present counts its fence at least once.
pub proof fn lemma_contains_counts_fence(q: Seq<PendingSubmission>, e: PendingSubmission)
    requires
        q.contains(e),
    ensures
        count_fence(q, e.fence) >= 1,
    decreases q.len(),
{
    if q.last() != e {
        assert(q.drop_last().contains(e)) by {
            let i = choose|i: int| 0 <= i < q.len() && q[i] == e;
            assert(q.drop_last()[i] == e);
        }
        lemma_contains_counts_fence(q.drop_last(), e);
    }
}

/// A fence value at or above everything in the queue is not in the
/// queue. This is what makes freshly minted fences unique.
pub proof fn lemma_fresh_fence_not_counted(q: Seq<PendingSubmission>, h: u64)
    requires
        forall|k: int| 0 <= k < q.len() ==> q[k].fence < h,
    ensures
        count_fence(q, h) == 0,
    decreases q.len(),
{
    if q.len() > 0 {
        assert(forall|k: int| 0 <= k < q.len() - 1 ==> q.drop_last()[k] == q[k]);
        lemma_fresh_fence_not_counted(q.drop_last(), h);
    }
}

/// Everything a poll fires or keeps was in the queue.
pub proof fn lemma_poll_draws_from_queue(q: Seq<PendingSubmission>, signaled: Seq<bool>)
    requires
        q.len() == signaled.len(),
    ensures
        forall|e: PendingSubmission| #[trigger] fired_of(q, signaled).contains(e) ==> q.contains(e),
        forall|e: PendingSubmission| #[trigger] kept_of(q, signaled).contains(e) ==> q.contains(e),
    decreases q.len(),
{
    if q.len() > 0 {
        lemma_poll_draws_from_queue(q.drop_last(), signaled.drop_last());
        assert forall|e: PendingSubmission| #[trigger] fired_of(q, signaled).contains(e) implies q.contains(e) by {
            let f = fired_of(q, signaled);
            let rest = fired_of(q.drop_last(), signaled.drop_last());
            let i = choose|i: int| 0 <= i < f.len() && f[i] == e;
            if signaled.last() && i == f.len() - 1 {
                assert(q[q.len() - 1] == e);
            } else {
                assert(rest.contains(e));
                let j = choose|j: int| 0 <= j < q.len() - 1 && q.drop_last()[j] == e;
                assert(q[j] == e);
            }
        }
        assert forall|e: PendingSubmission| #[trigger] kept_of(q, signaled).contains(e) implies q.contains(e) by {
            let k = kept_of(q, signaled);
            let rest = kept_of(q.drop_last(), signaled.drop_last());
            let i = choose|i: int| 0 <= i < k.len() && k[i] == e;
            if !signaled.last() && i == k.len() - 1 {
                assert(q[q.len() - 1] == e);
            } else {
                assert(rest.contains(e));
                let j = choose|j: int| 0 <= j < q.len() - 1 && q.drop_last()[j] == e;
                assert(q[j] == e);
            }
        }
    }
}

/// A deferred submission's callback fires exactly when, and only when,
/// its fence reports signaled — and at most once. With every fence in
/// the queue distinct, a signaled entry appears exactly once among the
/// fired entries and never among the kept ones, so its callback runs
/// exactly once and the entry is gone; an unsignaled entry is never
/// fired and stays queued exactly once.
pub proof fn lemma_deferred_callback_fires_exactly_once(
    q: Seq<PendingSubmission>,
    signaled: Seq<bool>,
    i: int,
)
    requires
        q.len() == signaled.len(),
        0 <= i < q.len(),
        forall|x: u64| count_fence(q, x) <= 1,
    ensures
        signaled[i] ==> count_fence(fired_of(q, signaled), q[i].fence) == 1
            && count_fence(kept_of(q, signaled), q[i].fence) == 0,
        !signaled[i] ==> count_fence(kept_of(q, signaled), q[i].fence) == 1
            && count_fence(fired_of(q, signaled), q[i].fence) == 0,
{
    lemma_poll_partitions_counts(q, signaled, q[i].fence);
    lemma_poll_routes_entry(q, signaled, i);
    assert(q.contains(q[i]));
    lemma_contains_counts_fence(q, q[i]);
    if signaled[i] {
        lemma_contains_counts_fence(fired_of(q, signaled), q[i]);
    } else {
        lemma_contains_counts_fence(kept_of(q, signaled), q[i]);
    }
}

/// Once an entry is gone from the queue its fence can never fire again,
/// however many further polls run: a fence absent from the queue is
/// absent from every later fired list.
pub proof fn lemma_absent_fence_never_fires(q: Seq<PendingSubmission>, signaled: Seq<bool>, x: u64)
    requires
        q.len() == signaled.len(),
        count_fence(q, x) == 0,
    ensures
        count_fence(fired_of(q, signaled), x) == 0,
{
    lemma_poll_partitions_counts(q, signaled, x);
}

/// A host-supplied unit the frame loop drives: invoked once per frame,
/// in registration order, with the frame's command buffer and the
/// acquired swapchain image and view, it records its own pipeline
/// binds, dispatches and layout transitions, and must leave the
/// swapchain image in the presentable layout when it returns.
pub trait RenderComponent {
    /// Called once before the first frame.
    fn initialize(&mut self, renderer: &mut Renderer);

    /// Record this component's commands for one frame.
    fn render(
        &mut self,
        renderer: &mut Renderer,
        command_buffer: u64,
        swapchain_image: u64,
        swapchain_image_view: u64,
    );
}

/// The four per-frame synchronization objects of one slot.
#[derive(Clone, Copy, Debug, PartialEq, Eq, Structural)]
pub struct FrameSlot {
    pub image_available_semaphore: u64,
    pub render_finished_semaphore: u64,
    pub in_flight_fence: u64,
    pub command_buffer: u64,
}

/// Everything the host needs to run one frame after acquiring a
/// swapchain image: the slot whose fence it waited on and whose
/// semaphores and command buffer the submission uses, and the index of
/// the swapchain image to record against and present.
#[derive(Clone, Copy, Debug, PartialEq, Eq, Structural)]
pub struct FramePlan {
    pub slot: FrameSlot,
    pub image_index: usize,
}

/// The frame-drive transition on the frame index: one step forward,
/// round-robin over `n` slots.
pub open spec fn next_frame_index(i: int, n: int) -> int {
    (i + 1) % n
}

/// The frame index reached from `start` after `steps` frame-drive
/// calls over `n` slots.
pub open spec fn frame_index_after(start: int, steps: nat, n: int) -> int
    decreases steps,
{
    if steps == 0 {
        start
    } else {
        next_frame_index(frame_index_after(start, (steps - 1) as nat, n), n)
    }
}

/// Driving frames is addition modulo the slot count.
pub proof fn lemma_frame_index_linear(start: int, steps: nat, n: int)
    requires
        0 <= start < n,
    ensures
        frame_index_after(start, steps, n) == (start + steps) % n,
    decreases steps,
{
    if steps == 0 {
        lemma_small_mod(start as nat, n as nat);
    } else {
        lemma_frame_index_linear(start, (steps - 1) as nat, n);
        lemma_add_mod_noop_right(1, start + steps - 1, n);
    }
}

/// After as many frame-drive calls as there are swapchain images, the
/// frame index has cycled back to exactly where it started.
pub proof fn lemma_frame_index_cycles(start: int, n: int)
    requires
        0 <= start < n,
    ensures
        frame_index_after(start, n as nat, n) == start,
{
    lemma_frame_index_linear(start, n as nat, n);
    lemma_mod_add_multiples_vanish(start, n);
    lemma_small_mod(start as nat, n as nat);
}

/// The frame loop's state: the shared device/allocator bookkeeping, the
/// pipeline registration record, one synchronization slot per swapchain
/// image, the layout each swapchain image is in, the round-robin frame
/// index, and the queue of pending one-off submissions.
pub struct Renderer {
    pub deps: SharedDeps,
    pub pipeline_store: PipelineStore,
    pub render_finished_semaphores: Vec<u64>,
    pub image_available_semaphores: Vec<u64>,
    pub command_buffers: Vec<u64>,
    pub in_flight_fences: Vec<u64>,
    pub swapchain_image_layouts: Vec<ImageLayout>,
    pub frame_index: usize,
    pub cb_callbacks: Vec<PendingSubmission>,
}

impl Renderer {
    /// The number of swapchain images, which is also the number of
    /// synchronization slots and the bound on frames in flight.
    pub open spec fn image_count(self) -> int {
        self.image_available_semaphores@.len() as int
    }

    /// The synchronization slot at index `i`.
    pub open spec fn slot_at(self, i: int) -> FrameSlot {
        FrameSlot {
            image_available_semaphore: self.image_available_semaphores@[i],
            render_finished_semaphore: self.render_finished_semaphores@[i],
            in_flight_fence: self.in_flight_fences@[i],
            command_buffer: self.command_buffers@[i],
        }
    }

    /// Well-formedness: the four synchronization arrays and the layout
    /// array all have one entry per swapchain image, the frame index
    /// points at a slot, every pending fence was minted (so it is below
    /// the mint counter) and no two pending entries share a fence, and
    /// the renderer still holds its own reference to the device and
    /// allocator.
    pub open spec fn wf(self) -> bool {
        &&& self.image_count() >= 1
        &&& self.render_finished_semaphores@.len() == self.image_count()
        &&& self.command_buffers@.len() == self.image_count()
        &&& self.in_flight_fences@.len() == self.image_count()
        &&& self.swapchain_image_layouts@.len() == self.image_count()
        &&& self.frame_index < self.image_count()
        &&& (forall|k: int|
            0 <= k < self.cb_callbacks@.len() ==> #[trigger] self.cb_callbacks@[k].fence
                < self.deps.next_handle)
        &&& (forall|x: u64| count_fence(self.cb_callbacks@, x) <= 1)
        &&& self.deps.device_alive()
        &&& self.deps.allocator_alive()
    }

    /// Construct the frame loop's state for a swapchain of
    /// `swapchain_image_count` images: one device and allocator
    /// reference held by the renderer itself, an empty pipeline record,
    /// a command buffer, an "image available" semaphore, a "render
    /// finished" semaphore and an in-flight fence per image — with
    /// handles minted in that order — every swapchain image transitioned
    /// from undefined to the presentable layout, the frame index at
    /// zero, and no pending one-off submissions.
    pub fn new(swapchain_image_count: u32) -> (r: Renderer)
        requires
            swapchain_image_count >= 1,
        ensures
            r.wf(),
            r.image_count() == swapchain_image_count,
            r.frame_index == 0,
            r.cb_callbacks@.len() == 0,
            r.pipeline_store.configs@.len() == 0,
            forall|i: int|
                0 <= i < swapchain_image_count ==> #[trigger] r.command_buffers@[i] == i,
            forall|i: int|
                0 <= i < swapchain_image_count ==> #[trigger] r.image_available_semaphores@[i]
                    == swapchain_image_count + i,
            forall|i: int|
                0 <= i < swapchain_image_count ==> #[trigger] r.render_finished_semaphores@[i]
                    == 2 * swapchain_image_count + i,
            forall|i: int|
                0 <= i < swapchain_image_count ==> #[trigger] r.in_flight_fences@[i]
                    == 3 * swapchain_image_count + i,
            forall|i: int|
                0 <= i < swapchain_image_count ==> #[trigger] r.swapchain_image_layouts@[i]
                    == ImageLayout::PresentSrc,
            r.deps == (SharedDeps {
                device_owners: 1,
                allocator_owners: 1,
                next_handle: (4 * swapchain_image_count as int) as u64,
            }),
    {
        let mut deps = SharedDeps::new();
        let n = swapchain_image_count as usize;
        let command_buffers = mint_handles(&mut deps, n);
        let image_available_semaphores = mint_handles(&mut deps, n);
        let render_finished_semaphores = mint_handles(&mut deps, n);
        let in_flight_fences = mint_handles(&mut deps, n);

        let mut swapchain_image_layouts: Vec<ImageLayout> = Vec::new();
        let mut i: usize = 0;
        while i < n
            invariant
                i <= n,
                swapchain_image_layouts@.len() == i,
                forall|k: int|
                    0 <= k < i ==> #[trigger] swapchain_image_layouts@[k]
                        == ImageLayout::Undefined,
            decreases n - i,
        {
            swapchain_image_layouts.push(ImageLayout::Undefined);
            i = i + 1;
        }
        transition_swapchain_images(&mut swapchain_image_layouts);

        Renderer {
            deps,
            pipeline_store: PipelineStore::new(),
            render_finished_semaphores,
            image_available_semaphores,
            command_buffers,
            in_flight_fences,
            swapchain_image_layouts,
            frame_index: 0,
            cb_callbacks: Vec::new(),
        }
    }

    /// The slot the next frame-drive call will use: the host waits on
    /// its in-flight fence and acquires the next swapchain image with
    /// its "image available" semaphore before calling
    /// [`Renderer::draw_frame`].
    pub fn current_frame_sync(&self) -> (slot: FrameSlot)
        requires
            self.wf(),
        ensures
            slot == self.slot_at(self.frame_index as int),
    {
        FrameSlot {
            image_available_semaphore: self.image_available_semaphores[self.frame_index],
            render_finished_semaphore: self.render_finished_semaphores[self.frame_index],
            in_flight_fence: self.in_flight_fences[self.frame_index],
            command_buffer: self.command_buffers[self.frame_index],
        }
    }

    /// Drive one frame. `image_index` is the swapchain image the host
    /// acquired with the current slot's "image available" semaphore; it
    /// may differ from the frame index. The returned plan names the
    /// current slot — whose fence bounds how far the CPU runs ahead,
    /// whose command buffer the frame's commands are recorded into, and
    /// whose semaphores order the submission against acquisition and
    /// presentation — and the image index to present. The frame index
    /// then advances one step round-robin; nothing else changes.
    pub fn draw_frame(&mut self, image_index: usize) -> (plan: FramePlan)
        requires
            old(self).wf(),
            image_index < old(self).image_count(),
        ensures
            plan.slot == old(self).slot_at(old(self).frame_index as int),
            plan.image_index == image_index,
            final(self).frame_index as int == next_frame_index(
                old(self).frame_index as int,
                old(self).image_count(),
            ),
            *final(self) == (Renderer { frame_index: final(self).frame_index, ..*old(self) }),
            final(self).wf(),
    {
        let plan = FramePlan { slot: self.current_frame_sync(), image_index };
        let n = self.image_available_semaphores.len();
        proof {
            assert(self.frame_index < n);
        }
        self.frame_index = (self.frame_index + 1) % n;
        plan
    }

    /// Poll the pending one-off submissions. `fence_signaled` reports,
    /// for each pending entry in queue order, whether the device says
    /// its fence is signaled. Exactly the signaled entries are removed
    /// and returned for the host to act on — invoke the callback once,
    /// then release the fence — and exactly the unsignaled ones remain
    /// queued.
    pub fn update(&mut self, fence_signaled: &Vec<bool>) -> (fired: Vec<PendingSubmission>)
        requires
            old(self).wf(),
            fence_signaled@.len() == old(self).cb_callbacks@.len(),
        ensures
            fired@ == fired_of(old(self).cb_callbacks@, fence_signaled@),
            final(self).cb_callbacks@ == kept_of(old(self).cb_callbacks@, fence_signaled@),
            *final(self) == (Renderer { cb_callbacks: final(self).cb_callbacks, ..*old(self) }),
            final(self).wf(),
    {
        let ghost q = self.cb_callbacks@;
        let ghost flags = fence_signaled@;
        let mut fired: Vec<PendingSubmission> = Vec::new();
        let mut kept: Vec<PendingSubmission> = Vec::new();
        let n = self.cb_callbacks.len();
        let mut i: usize = 0;
        while i < n
            invariant
                i <= n,
                n == q.len(),
                flags.len() == q.len(),
                self.cb_callbacks@ == q,
                fence_signaled@ == flags,
                fired@ == fired_of(q.take(i as int), flags.take(i as int)),
                kept@ == kept_of(q.take(i as int), flags.take(i as int)),
            decreases n - i,
        {
            let e = self.cb_callbacks[i];
            proof {
                assert(q.take(i as int + 1).drop_last() =~= q.take(i as int));
                assert(flags.take(i as int + 1).drop_last() =~= flags.take(i as int));
                assert(q.take(i as int + 1).last() == q[i as int]);
                assert(flags.take(i as int + 1).last() == flags[i as int]);
            }
            if fence_signaled[i] {
                fired.push(e);
            } else {
                kept.push(e);
            }
            i = i + 1;
        }
        proof {
            assert(q.take(n as int) =~= q);
            assert(flags.take(n as int) =~= flags);
        }
        self.cb_callbacks = kept;
        proof {
            let new_q = kept_of(q, flags);
            lemma_poll_draws_from_queue(q, flags);
            assert forall|k: int|
                0 <= k < new_q.len() implies #[trigger] new_q[k].fence
                    < self.deps.next_handle by {
                assert(new_q.contains(new_q[k]));
                assert(q.contains(new_q[k]));
                let j = choose|j: int| 0 <= j < q.len() && q[j] == new_q[k];
                assert(q[j].fence < self.deps.next_handle);
            }
            assert forall|x: u64| count_fence(new_q, x) <= 1 by {
                lemma_poll_partitions_counts(q, flags, x);
                assert(count_fence(q, x) <= 1);
            }
            assert(self.cb_callbacks@ == new_q);
        }
        fired
    }

    /// Submit a one-off command buffer outside the per-frame cycle: a
    /// fresh completion fence is minted for it and the triple of fence,
    /// command buffer and callback token joins the pending queue, to be
    /// released by a later [`Renderer::update`] poll once the device
    /// signals the fence.
    pub fn submit_single_time_command_buffer(&mut self, command_buffer: u64, callback: u64) -> (fence:
        u64)
        requires
            old(self).wf(),
            old(self).deps.next_handle < u64::MAX,
        ensures
            fence == old(self).deps.next_handle,
            final(self).cb_callbacks@ == old(self).cb_callbacks@.push(
                (PendingSubmission { fence, command_buffer, callback }),
            ),
            *final(self) == (Renderer {
                deps: (SharedDeps {
                    next_handle: (old(self).deps.next_handle + 1) as u64,
                    ..old(self).deps
                }),
                cb_callbacks: final(self).cb_callbacks,
                ..*old(self)
            }),
            final(self).wf(),
    {
        let fence = self.deps.mint_handle();
        let entry = PendingSubmission { fence, command_buffer, callback };
        self.cb_callbacks.push(entry);
        proof {
            let q = old(self).cb_callbacks@;
            lemma_fresh_fence_not_counted(q, fence);
            assert forall|x: u64| count_fence(self.cb_callbacks@, x) <= 1 by {
                assert(self.cb_callbacks@.drop_last() =~= q);
                assert(self.cb_callbacks@.last() == entry);
                assert(count_fence(q, x) <= 1);
                assert(count_fence(self.cb_callbacks@, x) == count_fence(q, x) + if entry.fence
                    == x {
                    1nat
                } else {
                    0nat
                });
            }
        }
        fence
    }

    /// Hand out a fresh command buffer handle from the renderer's
    /// command pool.
    pub fn create_command_buffer(&mut self) -> (command_buffer: u64)
        requires
            old(self).wf(),
            old(self).deps.next_handle < u64::MAX,
        ensures
            command_buffer == old(self).deps.next_handle,
            *final(self) == (Renderer {
                deps: (SharedDeps {
                    next_handle: (old(self).deps.next_handle + 1) as u64,
                    ..old(self).deps
                }),
                ..*old(self)
            }),
            final(self).wf(),
    {
        self.deps.mint_handle()
    }

    /// The pipeline registration record, for callers that register
    /// their own pipelines.
    pub fn pipeline_store(&mut self) -> (store: &mut PipelineStore)
        ensures
            *store == old(self).pipeline_store,
            *final(self) == (Renderer { pipeline_store: *final(store), ..*old(self) }),
    {
        &mut self.pipeline_store
    }

    /// Record a layout transition barrier for `image` into
    /// `command_buffer`. The image must currently be in `old_layout`;
    /// afterwards the model tracks it as being in `new_layout` once the
    /// recorded commands execute. The stage and access masks are
    /// carried through to the recorded barrier unread.
    pub fn transition_image(
        &self,
        command_buffer: u64,
        image: &mut Image,
        old_layout: ImageLayout,
        new_layout: ImageLayout,
        src_stage_mask: u32,
        dst_stage_mask: u32,
        src_access_flags: u32,
        dst_access_flags: u32,
    )
        requires
            old(image).layout == old_layout,
        ensures
            *final(image) == (Image { layout: new_layout, ..*old(image) }),
    {
        image.layout = new_layout;
    }

    /// Tear the renderer down: wait for the device to go idle, then
    /// destroy the "render finished" semaphores, the "image available"
    /// semaphores and the in-flight fences, in that order. Returns the
    /// exact step sequence for the host to execute, together with the
    /// shared-ownership bookkeeping with the renderer's own device and
    /// allocator references released.
    pub fn destroy(self) -> (out: (Vec<TeardownStep>, SharedDeps))
        requires
            self.wf(),
        ensures
            out.0@ == renderer_teardown(self),
            out.1 == (SharedDeps {
                device_owners: (self.deps.device_owners - 1) as u64,
                allocator_owners: (self.deps.allocator_owners - 1) as u64,
                ..self.deps
            }),
    {
        let ghost this = self;
        let mut steps: Vec<TeardownStep> = Vec::new();
        steps.push(TeardownStep::WaitIdle);
        let n = self.render_finished_semaphores.len();
        let mut i: usize = 0;
        while i < n
            invariant
                i <= n,
                n == this.render_finished_semaphores@.len(),
                self == this,
                steps@ == seq![TeardownStep::WaitIdle] + this.render_finished_semaphores@.take(
                    i as int,
                ).map_values(|h: u64| TeardownStep::DestroySemaphore(h)),
            decreases n - i,
        {
            steps.push(TeardownStep::DestroySemaphore(self.render_finished_semaphores[i]));
            proof {
                let f = |h: u64| TeardownStep::DestroySemaphore(h);
                assert(this.render_finished_semaphores@.take(i as int + 1).map_values(f)
                    =~= this.render_finished_semaphores@.take(i as int).map_values(f).push(
                    f(this.render_finished_semaphores@[i as int]),
                ));
                assert(steps@ =~= seq![TeardownStep::WaitIdle]
                    + this.render_finished_semaphores@.take(i as int + 1).map_values(f));
            }
            i = i + 1;
        }
        let mut j: usize = 0;
        while j < n
            invariant
                j <= n,
                n == this.render_finished_semaphores@.len(),
                self == this,
                this.wf(),
                steps@ == seq![TeardownStep::WaitIdle]
                    + this.render_finished_semaphores@.map_values(
                    |h: u64| TeardownStep::DestroySemaphore(h),
                ) + this.image_available_semaphores@.take(j as int).map_values(
                    |h: u64| TeardownStep::DestroySemaphore(h),
                ),
            decreases n - j,
        {
            steps.push(TeardownStep::DestroySemaphore(self.image_available_semaphores[j]));
            proof {
                let f = |h: u64| TeardownStep::DestroySemaphore(h);
                assert(this.image_available_semaphores@.take(j as int + 1).map_values(f)
                    =~= this.image_available_semaphores@.take(j as int).map_values(f).push(
                    f(this.image_available_semaphores@[j as int]),
                ));
                assert(steps@ =~= seq![TeardownStep::WaitIdle]
                    + this.render_finished_semaphores@.map_values(f)
                    + this.image_available_semaphores@.take(j as int + 1).map_values(f));
            }
            j = j + 1;
        }
        let mut k: usize = 0;
        while k < n
            invariant
                k <= n,
                n == this.render_finished_semaphores@.len(),
                self == this,
                this.wf(),
                steps@ == seq![TeardownStep::WaitIdle]
                    + this.render_finished_semaphores@.map_values(
                    |h: u64| TeardownStep::DestroySemaphore(h),
                ) + this.image_available_semaphores@.map_values(
                    |h: u64| TeardownStep::DestroySemaphore(h),
                ) + this.in_flight_fences@.take(k as int).map_values(
                    |h: u64| TeardownStep::DestroyFence(h),
                ),
            decreases n - k,
        {
            steps.push(TeardownStep::DestroyFence(self.in_flight_fences[k]));
            proof {
                let f = |h: u64| TeardownStep::DestroySemaphore(h);
                let g = |h: u64| TeardownStep::DestroyFence(h);
                assert(this.in_flight_fences@.take(k as int + 1).map_values(g)
                    =~= this.in_flight_fences@.take(k as int).map_values(g).push(
                    g(this.in_flight_fences@[k as int]),
                ));
                assert(steps@ =~= seq![TeardownStep::WaitIdle]
                    + this.render_finished_semaphores@.map_values(f)
                    + this.image_available_semaphores@.map_values(f)
                    + this.in_flight_fences@.take(k as int + 1).map_values(g));
            }
            k = k + 1;
        }
        proof {
            assert(this.render_finished_semaphores@.take(n as int)
                =~= this.render_finished_semaphores@);
            assert(this.image_available_semaphores@.take(n as int)
                =~= this.image_available_semaphores@);
            assert(this.in_flight_fences@.take(n as int) =~= this.in_flight_fences@);
        }
        let released = SharedDeps {
            device_owners: self.deps.device_owners - 1,
            allocator_owners: self.deps.allocator_owners - 1,
            next_handle: self.deps.next_handle,
        };
        (steps, released)
    }
}

/// The renderer's full teardown sequence: a device idle-wait, then the
/// "render finished" semaphores, then the "image available" semaphores,
/// then the in-flight fences, each array in order.
pub open spec fn renderer_teardown(r: Renderer) -> Seq<TeardownStep> {
    seq![TeardownStep::WaitIdle] + r.render_finished_semaphores@.map_values(
        |h: u64| TeardownStep::DestroySemaphore(h),
    ) + r.image_available_semaphores@.map_values(|h: u64| TeardownStep::DestroySemaphore(h))
        + r.in_flight_fences@.map_values(|h: u64| TeardownStep::DestroyFence(h))
}

/// Mint `count` consecutive fresh handles.
fn mint_handles(deps: &mut SharedDeps, count: usize) -> (handles: Vec<u64>)
    requires
        old(deps).next_handle + count <= u64::MAX,
    ensures
        handles@.len() == count,
        forall|i: int| 0 <= i < count ==> #[trigger] handles@[i] == old(deps).next_handle + i,
        *final(deps) == (SharedDeps {
            next_handle: (old(deps).next_handle + count) as u64,
            ..*old(deps)
        }),
{
    let mut handles: Vec<u64> = Vec::new();
    let mut i: usize = 0;
    while i < count
        invariant
            i <= count,
            old(deps).next_handle + count <= u64::MAX,
            handles@.len() == i,
            forall|j: int| 0 <= j < i ==> #[trigger] handles@[j] == old(deps).next_handle + j,
            *deps == (SharedDeps {
                next_handle: (old(deps).next_handle + i) as u64,
                ..*old(deps)
            }),
        decreases count - i,
    {
        let h = deps.mint_handle();
        handles.push(h);
        i = i + 1;
    }
    handles
}

/// Transition every swapchain image from its initial undefined layout
/// to the presentable layout, as the batched startup barrier does.
fn transition_swapchain_images(layouts: &mut Vec<ImageLayout>)
    ensures
        final(layouts)@.len() == old(layouts)@.len(),
        forall|k: int|
            0 <= k < old(layouts)@.len() ==> #[trigger] final(layouts)@[k]
                == ImageLayout::PresentSrc,
{
    let n = layouts.len();
    let mut i: usize = 0;
    while i < n
        invariant
            i <= n,
            layouts@.len() == n,
            forall|k: int| 0 <= k < i ==> #[trigger] layouts@[k] == ImageLayout::PresentSrc,
        decreases n - i,
    {
        layouts.set(i, ImageLayout::PresentSrc);
        i = i + 1;
    }
}

} // verus!
