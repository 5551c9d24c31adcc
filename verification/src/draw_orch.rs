//! The declarative render-graph builder: it consumes an immutable draw
//! configuration — a list of image descriptors and a list of compute
//! passes — and produces bound state: a shared descriptor-set layout, one
//! allocated and transitioned image per descriptor, and one compiled pass
//! per declaration with its dispatch size resolved.

use vstd::prelude::*;
use vstd::arithmetic::div_mod::lemma_fundamental_div_mod;
use vstd::arithmetic::div_mod::lemma_mod_bound;

use crate::shared::SharedDeps;
use crate::shared::ImageLayout;
use crate::shared::USAGE_STORAGE;
use crate::shared::USAGE_TRANSFER_SRC;
use crate::shared::USAGE_TRANSFER_DST;
use crate::image::Image;
use crate::pipeline_store::PipelineBuildOutcome;
use crate::pipeline_store::PipelineConfig;
use crate::pipeline_store::PipelineErr;
use crate::renderer::Renderer;

verus! {

/// Edge length, in invocations, of a compute workgroup. Injected into
/// shader compilation as the `WORKGROUP_SIZE` macro and used to resolve
/// full-screen dispatch sizes.
pub const WORKGROUP_SIZE: u32 = 32;

/// Byte size of the engine's fixed push-constant block. Every pass
/// declares one push-constant range of exactly this size; the host's
/// recording layer lays its push constants out in this many bytes.
pub const PUSH_CONSTANT_SIZE: u32 = 16;

/// The usage every orchestrator-allocated image is created with:
/// storage image, transfer source and transfer destination.
pub const DRAW_IMAGE_USAGE: u32 = USAGE_STORAGE | USAGE_TRANSFER_SRC | USAGE_TRANSFER_DST;

/// A two-component unsigned vector: a resolution in pixels.
#[derive(Clone, Copy, Debug, PartialEq, Eq, Structural)]
pub struct UVec2 {
    pub x: u32,
    pub y: u32,
}

/// A three-component unsigned vector: a dispatch size in workgroups.
#[derive(Clone, Copy, Debug, PartialEq, Eq, Structural)]
pub struct UVec3 {
    pub x: u32,
    pub y: u32,
    pub z: u32,
}

/// How a pass declares its dispatch size: an explicit workgroup count,
/// or "cover the whole screen".
#[derive(Clone, Copy, Debug, PartialEq, Eq, Structural)]
pub enum DispatchConfig {
    Count(u32, u32, u32),
    FullScreen,
}

/// One declared compute pass: its shader, its dispatch declaration, and
/// the positions, in the orchestrator's image list, of the images it
/// reads and writes.
pub struct Pass {
    pub shader: String,
    pub dispatches: DispatchConfig,
    pub input_resources: Vec<u32>,
    pub output_resources: Vec<u32>,
}

/// The clear policy of one image: leave it alone, or clear it once to a
/// color. The three channel values are carried as the raw bit patterns
/// of the host's 32-bit color components; the engine never interprets
/// them, it hands them to the recorded clear verbatim.
#[derive(Clone, Copy, Debug, PartialEq, Eq, Structural)]
pub enum ClearConfig {
    NoClear,
    Color(u32, u32, u32),
}

/// One declared image: its clear policy.
#[derive(Clone, Copy, Debug, PartialEq, Eq, Structural)]
pub struct ImageConfig {
    pub clear: ClearConfig,
}

/// The host's whole declarative drawing configuration: ordered passes
/// over an ordered pool of images. Never mutated after being read; the
/// orchestrator is its sole consumer.
pub struct DrawConfig {
    pub passes: Vec<Pass>,
    pub images: Vec<ImageConfig>,
}

/// A compiled pass: its resolved dispatch size in workgroups, the image
/// indices it reads and writes copied verbatim from its declaration,
/// and its key into the pipeline store.
pub struct ShaderPass {
    pub dispatches: UVec3,
    pub in_images: Vec<u32>,
    pub out_images: Vec<u32>,
    pub pipeline_handle: usize,
}

/// An allocated image together with the clear policy its declaration
/// asked for, applied once during frame construction.
pub struct ImageResource {
    pub image: Image,
    pub clear: ClearConfig,
}

/// The shared descriptor-set layout: a single binding holding an array
/// of `descriptor_count` storage images, visible to the compute and
/// fragment stages, so that every pass binds the same layout.
#[derive(Clone, Copy, Debug, PartialEq, Eq, Structural)]
pub struct DescriptorSetLayout {
    pub handle: u64,
    pub descriptor_count: u32,
}

/// All render state built from one draw configuration.
pub struct DrawOrchestrator {
    pub compute_descriptor_set_layout: DescriptorSetLayout,
    pub image_resources: Vec<ImageResource>,
    pub passes: Vec<ShaderPass>,
}

/// Every resource index a pass declares — output and input alike — must
/// name a position in the image list.
pub open spec fn pass_indices_valid(p: Pass, image_count: int) -> bool {
    &&& forall|k: int|
        0 <= k < p.output_resources@.len() ==> (#[trigger] p.output_resources@[k]) < image_count
    &&& forall|k: int|
        0 <= k < p.input_resources@.len() ==> (#[trigger] p.input_resources@[k]) < image_count
}

/// A draw configuration is consistent when every pass's resource
/// indices stay inside the image list.
pub open spec fn config_indices_valid(c: DrawConfig) -> bool {
    forall|p: int|
        0 <= p < c.passes@.len() ==> pass_indices_valid(
            #[trigger] c.passes@[p],
            c.images@.len() as int,
        )
}

/// An explicit dispatch declaration with every component at least one;
/// full-screen declarations are always positive.
pub open spec fn dispatch_config_positive(c: DispatchConfig) -> bool {
    match c {
        DispatchConfig::Count(x, y, z) => x >= 1 && y >= 1 && z >= 1,
        DispatchConfig::FullScreen => true,
    }
}

/// The number of workgroups needed to cover `x` pixels: `x` divided by
/// the workgroup edge, rounded up.
pub open spec fn ceil_div_workgroup(x: int) -> int {
    if x % (WORKGROUP_SIZE as int) == 0 {
        x / (WORKGROUP_SIZE as int)
    } else {
        x / (WORKGROUP_SIZE as int) + 1
    }
}

/// The dispatch size of a pass that covers the whole screen: the
/// resolution divided by the workgroup edge and rounded up in x and y,
/// one layer in z.
pub open spec fn full_screen_dispatch(resolution: UVec2) -> UVec3 {
    UVec3 {
        x: ceil_div_workgroup(resolution.x as int) as u32,
        y: ceil_div_workgroup(resolution.y as int) as u32,
        z: 1,
    }
}

/// The dispatch size a declaration resolves to: an explicit count
/// verbatim, or the full-screen size.
pub open spec fn resolve_dispatch(c: DispatchConfig, resolution: UVec2) -> UVec3 {
    match c {
        DispatchConfig::Count(x, y, z) => UVec3 { x, y, z },
        DispatchConfig::FullScreen => full_screen_dispatch(resolution),
    }
}

/// The image the orchestrator allocates at position `i` of the image
/// list, its four handles minted consecutively after the layout handle
/// at `base`, already transitioned to the general layout.
pub open spec fn allocated_image(base: int, i: int, resolution: UVec2) -> Image {
    Image {
        image: (base + 1 + 4 * i) as u64,
        image_view: (base + 2 + 4 * i) as u64,
        sampler: (base + 3 + 4 * i) as u64,
        allocation: (base + 4 + 4 * i) as u64,
        width: resolution.x,
        height: resolution.y,
        usage: DRAW_IMAGE_USAGE,
        layout: ImageLayout::General,
    }
}

/// The pipeline configuration registered for one declared pass: its
/// shader, the shared layout, the fixed push-constant range, and the
/// two injected macros.
pub open spec fn pipeline_config_for_pass(p: Pass, layout: u64, image_count: u32) -> PipelineConfig {
    PipelineConfig {
        shader_path: p.shader,
        descriptor_set_layout: layout,
        push_constant_size: PUSH_CONSTANT_SIZE,
        num_images: image_count,
        workgroup_size: WORKGROUP_SIZE,
    }
}

/// Every reported pipeline build succeeded.
pub open spec fn all_built(s: Seq<PipelineBuildOutcome>) -> bool {
    forall|i: int| 0 <= i < s.len() ==> (#[trigger] s[i]) is Built
}

/// Position `i` holds the first reported failure.
pub open spec fn is_first_failure(s: Seq<PipelineBuildOutcome>, i: int) -> bool {
    &&& 0 <= i < s.len()
    &&& s[i] is Failed
    &&& forall|j: int| 0 <= j < i ==> (#[trigger] s[j]) is Built
}

impl DrawConfig {
    /// Check that every pass's output and input resource indices name a
    /// position in the image list. A violation is a configuration error
    /// in the host's graph; the host must treat it as fatal and build
    /// nothing from the configuration.
    pub fn indices_in_range(&self) -> (r: bool)
        ensures
            r == config_indices_valid(*self),
    {
        let image_count = self.images.len();
        let n = self.passes.len();
        let mut p: usize = 0;
        while p < n
            invariant
                p <= n,
                n == self.passes@.len(),
                image_count == self.images@.len(),
                forall|q: int|
                    0 <= q < p ==> pass_indices_valid(
                        #[trigger] self.passes@[q],
                        image_count as int,
                    ),
            decreases n - p,
        {
            let pass = &self.passes[p];
            let n_out = pass.output_resources.len();
            let mut k: usize = 0;
            while k < n_out
                invariant
                    k <= n_out,
                    n_out == pass.output_resources@.len(),
                    image_count == self.images@.len(),
                    pass == &self.passes@[p as int],
                    p < self.passes@.len(),
                    forall|j: int|
                        0 <= j < k ==> (#[trigger] pass.output_resources@[j]) < image_count,
                decreases n_out - k,
            {
                if pass.output_resources[k] as usize >= image_count {
                    proof {
                        assert(!pass_indices_valid(self.passes@[p as int], image_count as int));
                    }
                    return false;
                }
                k = k + 1;
            }
            let n_in = pass.input_resources.len();
            let mut k2: usize = 0;
            while k2 < n_in
                invariant
                    k2 <= n_in,
                    n_in == pass.input_resources@.len(),
                    image_count == self.images@.len(),
                    pass == &self.passes@[p as int],
                    p < self.passes@.len(),
                    forall|j: int|
                        0 <= j < k2 ==> (#[trigger] pass.input_resources@[j]) < image_count,
                decreases n_in - k2,
            {
                if pass.input_resources[k2] as usize >= image_count {
                    proof {
                        assert(!pass_indices_valid(self.passes@[p as int], image_count as int));
                    }
                    return false;
                }
                k2 = k2 + 1;
            }
            p = p + 1;
        }
        true
    }
}

/// The exec counterpart of [`ceil_div_workgroup`]: workgroups needed to
/// cover `x` pixels.
pub fn div_ceil_by_workgroup(x: u32) -> (r: u32)
    ensures
        r as int == ceil_div_workgroup(x as int),
{
    let d = x / WORKGROUP_SIZE;
    if x % WORKGROUP_SIZE == 0 {
        d
    } else {
        d + 1
    }
}

/// The full-screen dispatch size is the exact ceiling of the resolution
/// over the workgroup edge: it covers the screen, its predecessor does
/// not, and it is at least one workgroup in every dimension.
pub proof fn lemma_full_screen_covers(x: u32)
    requires
        x >= 1,
    ensures
        ceil_div_workgroup(x as int) >= 1,
        WORKGROUP_SIZE * ceil_div_workgroup(x as int) >= x,
        WORKGROUP_SIZE * (ceil_div_workgroup(x as int) - 1) < x,
{
    let w = WORKGROUP_SIZE as int;
    lemma_fundamental_div_mod(x as int, w);
    lemma_mod_bound(x as int, w);
}

/// Every dispatch size the orchestrator resolves is at least one
/// workgroup in each dimension, provided the declaration's explicit
/// counts are positive and the resolution is nonzero.
pub proof fn lemma_resolved_dispatch_positive(c: DispatchConfig, resolution: UVec2)
    requires
        resolution.x >= 1,
        resolution.y >= 1,
        dispatch_config_positive(c),
    ensures
        resolve_dispatch(c, resolution).x >= 1,
        resolve_dispatch(c, resolution).y >= 1,
        resolve_dispatch(c, resolution).z >= 1,
{
    match c {
        DispatchConfig::Count(x, y, z) => {
        },
        DispatchConfig::FullScreen => {
            lemma_full_screen_covers(resolution.x);
            lemma_full_screen_covers(resolution.y);
        },
    }
}

/// Every explicit dispatch count in the configuration is positive.
pub open spec fn config_dispatches_positive(c: DrawConfig) -> bool {
    forall|i: int|
        0 <= i < c.passes@.len() ==> dispatch_config_positive(
            (#[trigger] c.passes@[i]).dispatches,
        )
}

/// For a valid configuration — positive explicit counts, nonzero
/// resolution — every pass's resolved dispatch size has all three
/// components at least one.
pub proof fn lemma_config_dispatches_resolve_positive(c: DrawConfig, resolution: UVec2)
    requires
        resolution.x >= 1,
        resolution.y >= 1,
        config_dispatches_positive(c),
    ensures
        forall|i: int|
            0 <= i < c.passes@.len() ==> {
                let d = resolve_dispatch((#[trigger] c.passes@[i]).dispatches, resolution);
                d.x >= 1 && d.y >= 1 && d.z >= 1
            },
{
    assert forall|i: int| 0 <= i < c.passes@.len() implies {
        let d = resolve_dispatch((#[trigger] c.passes@[i]).dispatches, resolution);
        d.x >= 1 && d.y >= 1 && d.z >= 1
    } by {
        lemma_resolved_dispatch_positive(c.passes@[i].dispatches, resolution);
    }
}

/// Copy a vector of indices.
fn clone_u32_vec(v: &Vec<u32>) -> (r: Vec<u32>)
    ensures
        r@ == v@,
{
    let mut r: Vec<u32> = Vec::new();
    let n = v.len();
    let mut i: usize = 0;
    while i < n
        invariant
            i <= n,
            n == v@.len(),
            r@ == v@.take(i as int),
        decreases n - i,
    {
        r.push(v[i]);
        proof {
            assert(v@.take(i as int + 1) =~= v@.take(i as int).push(v@[i as int]));
        }
        i = i + 1;
    }
    proof {
        assert(v@.take(n as int) =~= v@);
    }
    r
}

impl DrawOrchestrator {
    /// Build the orchestrator's bound state from a draw configuration
    /// whose resource indices have been validated.
    ///
    /// `pipeline_build_outcomes` reports, pass by pass, what the host's
    /// shader-compilation collaborator did for the pass's pipeline. If
    /// any build failed, the first failure's error is returned and the
    /// renderer is left untouched: nothing is registered and no image
    /// is allocated. Otherwise the builder:
    ///
    /// 1. creates the shared descriptor-set layout, a single binding
    ///    holding one storage image per declared image;
    /// 2. allocates one image per declaration at the given resolution,
    ///    recording its clear policy;
    /// 3. transitions every image, in one batched command buffer, from
    ///    the undefined to the general layout, so the pool is usable
    ///    before any pass runs;
    /// 4. registers one pipeline per pass — shader, shared layout,
    ///    fixed push-constant range, and the `NUM_IMAGES` and
    ///    `WORKGROUP_SIZE` macro values — and resolves the pass's
    ///    dispatch size, an explicit count verbatim or the full-screen
    ///    ceiling.
    #[verifier::loop_isolation(false)]
    pub fn new(
        renderer: &mut Renderer,
        resolution: UVec2,
        draw_config: &DrawConfig,
        pipeline_build_outcomes: &Vec<PipelineBuildOutcome>,
    ) -> (result: Result<DrawOrchestrator, PipelineErr>)
        requires
            old(renderer).wf(),
            resolution.x >= 1,
            resolution.y >= 1,
            config_indices_valid(*draw_config),
            pipeline_build_outcomes@.len() == draw_config.passes@.len(),
            draw_config.images@.len() <= u32::MAX,
            old(renderer).deps.next_handle + 2 + 4 * draw_config.images@.len() <= u64::MAX,
            old(renderer).deps.device_owners + draw_config.images@.len() <= u64::MAX,
            old(renderer).deps.allocator_owners + draw_config.images@.len() <= u64::MAX,
        ensures
            result is Ok <==> all_built(pipeline_build_outcomes@),
            result matches Err(e) ==> *final(renderer) == *old(renderer) && (exists|i: int|
                is_first_failure(pipeline_build_outcomes@, i) && e == pipeline_build_outcomes@[i]
                    ->Failed_0),
            result matches Ok(orch) ==> ({
                let base = old(renderer).deps.next_handle as int;
                let n_images = draw_config.images@.len() as int;
                let n_passes = draw_config.passes@.len() as int;
                let old_keys = old(renderer).pipeline_store.configs@.len() as int;
                &&& orch.compute_descriptor_set_layout == (DescriptorSetLayout {
                    handle: base as u64,
                    descriptor_count: n_images as u32,
                })
                &&& orch.image_resources@.len() == n_images
                &&& (forall|i: int|
                    0 <= i < n_images ==> (#[trigger] orch.image_resources@[i]).image
                        == allocated_image(base, i, resolution))
                &&& (forall|i: int|
                    0 <= i < n_images ==> (#[trigger] orch.image_resources@[i]).clear
                        == draw_config.images@[i].clear)
                &&& orch.passes@.len() == n_passes
                &&& (forall|i: int|
                    0 <= i < n_passes ==> (#[trigger] orch.passes@[i]).dispatches
                        == resolve_dispatch(draw_config.passes@[i].dispatches, resolution))
                &&& (forall|i: int|
                    0 <= i < n_passes ==> (#[trigger] orch.passes@[i]).in_images@
                        == draw_config.passes@[i].input_resources@)
                &&& (forall|i: int|
                    0 <= i < n_passes ==> (#[trigger] orch.passes@[i]).out_images@
                        == draw_config.passes@[i].output_resources@)
                &&& (forall|i: int|
                    0 <= i < n_passes ==> (#[trigger] orch.passes@[i]).pipeline_handle
                        == old_keys + i)
                &&& final(renderer).pipeline_store.configs@.len() == old_keys + n_passes
                &&& (forall|i: int|
                    0 <= i < n_passes ==> #[trigger] final(renderer).pipeline_store.configs@[
                        old_keys + i] == pipeline_config_for_pass(
                        draw_config.passes@[i],
                        base as u64,
                        n_images as u32,
                    ))
                &&& (forall|i: int|
                    0 <= i < old_keys ==> #[trigger] final(renderer).pipeline_store.configs@[i]
                        == old(renderer).pipeline_store.configs@[i])
                &&& final(renderer).deps == (SharedDeps {
                    device_owners: (old(renderer).deps.device_owners + n_images) as u64,
                    allocator_owners: (old(renderer).deps.allocator_owners + n_images) as u64,
                    next_handle: (base + 2 + 4 * n_images) as u64,
                })
                &&& *final(renderer) == (Renderer {
                    deps: final(renderer).deps,
                    pipeline_store: final(renderer).pipeline_store,
                    ..*old(renderer)
                })
                &&& final(renderer).wf()
            }),
    {
        let ghost base = old(renderer).deps.next_handle as int;
        let ghost old_keys = old(renderer).pipeline_store.configs@.len() as int;
        let image_count = draw_config.images.len();
        let n_passes = draw_config.passes.len();

        // Any reported pipeline failure aborts the build before any
        // state is touched; the first failure wins, as the pass list is
        // compiled in order.
        let n_outcomes = pipeline_build_outcomes.len();
        let mut oi: usize = 0;
        while oi < n_outcomes
            invariant
                oi <= n_outcomes,
                n_outcomes == pipeline_build_outcomes@.len(),
                forall|j: int| 0 <= j < oi ==> (#[trigger] pipeline_build_outcomes@[j]) is Built,
            decreases n_outcomes - oi,
        {
            match &pipeline_build_outcomes[oi] {
                PipelineBuildOutcome::Failed(e) => {
                    proof {
                        assert(is_first_failure(pipeline_build_outcomes@, oi as int));
                        assert(!all_built(pipeline_build_outcomes@));
                    }
                    return Err(e.clone());
                },
                PipelineBuildOutcome::Built => {
                },
            }
            oi = oi + 1;
        }
        proof {
            assert(all_built(pipeline_build_outcomes@));
        }

        // Shared descriptor-set layout: one binding, an array of
        // `image_count` storage images.
        let layout_handle = renderer.deps.mint_handle();
        let compute_descriptor_set_layout = DescriptorSetLayout {
            handle: layout_handle,
            descriptor_count: image_count as u32,
        };

        // One image per declaration, each recording its clear policy.
        let mut image_resources: Vec<ImageResource> = Vec::new();
        let mut i: usize = 0;
        while i < image_count
            invariant
                i <= image_count,
                image_count == draw_config.images@.len(),
                old(renderer).deps.next_handle + 2 + 4 * draw_config.images@.len() <= u64::MAX,
                old(renderer).deps.device_owners + draw_config.images@.len() <= u64::MAX,
                old(renderer).deps.allocator_owners + draw_config.images@.len() <= u64::MAX,
                resolution.x >= 1,
                resolution.y >= 1,
                image_resources@.len() == i,
                forall|k: int|
                    0 <= k < i ==> (#[trigger] image_resources@[k]).image == (Image {
                        layout: ImageLayout::Undefined,
                        ..allocated_image(base, k, resolution)
                    }),
                forall|k: int|
                    0 <= k < i ==> (#[trigger] image_resources@[k]).clear
                        == draw_config.images@[k].clear,
                *renderer == (Renderer {
                    deps: (SharedDeps {
                        device_owners: (old(renderer).deps.device_owners + i) as u64,
                        allocator_owners: (old(renderer).deps.allocator_owners + i) as u64,
                        next_handle: (base + 1 + 4 * i) as u64,
                    }),
                    ..*old(renderer)
                }),
            decreases image_count - i,
        {
            let clear = draw_config.images[i].clear;
            let image = Image::new(&mut renderer.deps, resolution.x, resolution.y, DRAW_IMAGE_USAGE);
            image_resources.push(ImageResource { image, clear });
            i = i + 1;
        }

        // Transition the whole pool, in one batched command buffer,
        // from undefined to the general read/write layout.
        proof {
            assert(renderer.wf());
        }
        let image_command_buffer = renderer.create_command_buffer();
        let mut t: usize = 0;
        while t < image_count
            invariant
                t <= image_count,
                image_count == image_resources@.len(),
                resolution.x >= 1,
                resolution.y >= 1,
                forall|k: int|
                    0 <= k < image_count ==> (#[trigger] image_resources@[k]).clear
                        == draw_config.images@[k].clear,
                forall|k: int|
                    t <= k < image_count ==> (#[trigger] image_resources@[k]).image == (Image {
                        layout: ImageLayout::Undefined,
                        ..allocated_image(base, k, resolution)
                    }),
                forall|k: int|
                    0 <= k < t ==> (#[trigger] image_resources@[k]).image == allocated_image(
                        base,
                        k,
                        resolution,
                    ),
            decreases image_count - t,
        {
            renderer.transition_image(
                image_command_buffer,
                &mut image_resources[t].image,
                ImageLayout::Undefined,
                ImageLayout::General,
                0,
                0,
                0,
                0,
            );
            t = t + 1;
        }

        // One pipeline registration and one resolved dispatch size per
        // declared pass.
        let full_screen = UVec3 {
            x: div_ceil_by_workgroup(resolution.x),
            y: div_ceil_by_workgroup(resolution.y),
            z: 1,
        };
        let mut passes: Vec<ShaderPass> = Vec::new();
        let mut pi: usize = 0;
        while pi < n_passes
            invariant
                pi <= n_passes,
                n_passes == draw_config.passes@.len(),
                image_count == draw_config.images@.len(),
                image_count <= u32::MAX,
                full_screen == full_screen_dispatch(resolution),
                passes@.len() == pi,
                forall|j: int|
                    0 <= j < pi ==> (#[trigger] passes@[j]).dispatches == resolve_dispatch(
                        draw_config.passes@[j].dispatches,
                        resolution,
                    ),
                forall|j: int|
                    0 <= j < pi ==> (#[trigger] passes@[j]).in_images@
                        == draw_config.passes@[j].input_resources@,
                forall|j: int|
                    0 <= j < pi ==> (#[trigger] passes@[j]).out_images@
                        == draw_config.passes@[j].output_resources@,
                forall|j: int|
                    0 <= j < pi ==> (#[trigger] passes@[j]).pipeline_handle == old_keys + j,
                renderer.pipeline_store.configs@.len() == old_keys + pi,
                forall|j: int|
                    0 <= j < pi ==> #[trigger] renderer.pipeline_store.configs@[old_keys + j]
                        == pipeline_config_for_pass(
                        draw_config.passes@[j],
                        base as u64,
                        image_count as u32,
                    ),
                forall|j: int|
                    0 <= j < old_keys ==> #[trigger] renderer.pipeline_store.configs@[j] == old(
                        renderer,
                    ).pipeline_store.configs@[j],
                *renderer == (Renderer {
                    deps: (SharedDeps {
                        device_owners: (old(renderer).deps.device_owners + image_count) as u64,
                        allocator_owners: (old(renderer).deps.allocator_owners
                            + image_count) as u64,
                        next_handle: (base + 2 + 4 * image_count) as u64,
                    }),
                    pipeline_store: renderer.pipeline_store,
                    ..*old(renderer)
                }),
            decreases n_passes - pi,
        {
            let p = &draw_config.passes[pi];
            let config = PipelineConfig {
                shader_path: p.shader.clone(),
                descriptor_set_layout: layout_handle,
                push_constant_size: PUSH_CONSTANT_SIZE,
                num_images: image_count as u32,
                workgroup_size: WORKGROUP_SIZE,
            };
            let key = renderer.pipeline_store.insert(config);
            let dispatches = match p.dispatches {
                DispatchConfig::Count(x, y, z) => UVec3 { x, y, z },
                DispatchConfig::FullScreen => full_screen,
            };
            let in_images = clone_u32_vec(&p.input_resources);
            let out_images = clone_u32_vec(&p.output_resources);
            passes.push(ShaderPass { dispatches, in_images, out_images, pipeline_handle: key });
            pi = pi + 1;
        }

        proof {
            assert(renderer.wf());
        }
        Ok(DrawOrchestrator { compute_descriptor_set_layout, image_resources, passes })
    }
}

} // verus!
