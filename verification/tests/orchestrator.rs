use akai::draw_orch::ClearConfig;
use akai::draw_orch::DispatchConfig;
use akai::draw_orch::DrawConfig;
use akai::draw_orch::DrawOrchestrator;
use akai::draw_orch::ImageConfig;
use akai::draw_orch::Pass;
use akai::draw_orch::UVec2;
use akai::draw_orch::div_ceil_by_workgroup;
use akai::pipeline_store::PipelineBuildOutcome;
use akai::pipeline_store::PipelineErr;
use akai::renderer::Renderer;
use akai::shared::ImageLayout;

fn image_configs(n: usize) -> Vec<ImageConfig> {
    let mut v = Vec::new();
    for _ in 0..n {
        v.push(ImageConfig { clear: ClearConfig::NoClear });
    }
    v
}

fn pass(dispatches: DispatchConfig, inputs: Vec<u32>, outputs: Vec<u32>) -> Pass {
    Pass {
        shader: String::from("shader.comp"),
        dispatches,
        input_resources: inputs,
        output_resources: outputs,
    }
}

fn built(n: usize) -> Vec<PipelineBuildOutcome> {
    let mut v = Vec::new();
    for _ in 0..n {
        v.push(PipelineBuildOutcome::Built);
    }
    v
}

#[test]
fn full_screen_dispatch_is_ceiling_of_resolution() {
    let mut r = Renderer::new(2);
    let config = DrawConfig {
        passes: vec![pass(DispatchConfig::FullScreen, vec![], vec![0])],
        images: image_configs(1),
    };
    assert!(config.indices_in_range());
    let orch = DrawOrchestrator::new(&mut r, UVec2 { x: 1000, y: 1000 }, &config, &built(1))
        .unwrap();
    assert_eq!(orch.passes.len(), 1);
    assert_eq!(orch.passes[0].dispatches.x, 32);
    assert_eq!(orch.passes[0].dispatches.y, 32);
    assert_eq!(orch.passes[0].dispatches.z, 1);
}

#[test]
fn explicit_dispatch_count_is_kept_verbatim() {
    let mut r = Renderer::new(2);
    let config = DrawConfig {
        passes: vec![pass(DispatchConfig::Count(5, 6, 7), vec![], vec![])],
        images: image_configs(1),
    };
    let orch = DrawOrchestrator::new(&mut r, UVec2 { x: 800, y: 600 }, &config, &built(1))
        .unwrap();
    assert_eq!(orch.passes[0].dispatches.x, 5);
    assert_eq!(orch.passes[0].dispatches.y, 6);
    assert_eq!(orch.passes[0].dispatches.z, 7);
}

#[test]
fn workgroup_ceiling_exact_values() {
    assert_eq!(div_ceil_by_workgroup(1), 1);
    assert_eq!(div_ceil_by_workgroup(31), 1);
    assert_eq!(div_ceil_by_workgroup(32), 1);
    assert_eq!(div_ceil_by_workgroup(33), 2);
    assert_eq!(div_ceil_by_workgroup(1000), 32);
    assert_eq!(div_ceil_by_workgroup(1024), 32);
    assert_eq!(div_ceil_by_workgroup(1025), 33);
}

#[test]
fn one_image_per_image_config() {
    let mut r = Renderer::new(2);
    let config = DrawConfig { passes: vec![], images: image_configs(3) };
    let orch = DrawOrchestrator::new(&mut r, UVec2 { x: 64, y: 64 }, &config, &built(0))
        .unwrap();
    assert_eq!(orch.image_resources.len(), 3);
}

#[test]
fn out_of_range_output_index_is_rejected() {
    // A single pass writing output index 5 while only 3 images exist is
    // an inconsistent graph: the validator must refuse it before any
    // GPU object is created.
    let config = DrawConfig {
        passes: vec![pass(DispatchConfig::FullScreen, vec![], vec![5])],
        images: image_configs(3),
    };
    assert!(!config.indices_in_range());
}

#[test]
fn out_of_range_input_index_is_rejected() {
    let config = DrawConfig {
        passes: vec![pass(DispatchConfig::FullScreen, vec![9], vec![0])],
        images: image_configs(3),
    };
    assert!(!config.indices_in_range());
}

#[test]
fn in_range_indices_are_accepted() {
    let config = DrawConfig {
        passes: vec![pass(DispatchConfig::FullScreen, vec![0, 1], vec![2])],
        images: image_configs(3),
    };
    assert!(config.indices_in_range());
}

#[test]
fn empty_pass_list_is_valid() {
    let config = DrawConfig { passes: vec![], images: image_configs(0) };
    assert!(config.indices_in_range());
}

#[test]
fn any_index_is_invalid_against_an_empty_image_list() {
    // With no images at all, even index 0 is out of range; the bounds
    // check must not wrap around on the empty list.
    let config = DrawConfig {
        passes: vec![pass(DispatchConfig::FullScreen, vec![], vec![0])],
        images: image_configs(0),
    };
    assert!(!config.indices_in_range());
}

#[test]
fn empty_configuration_builds_an_empty_orchestrator() {
    let mut r = Renderer::new(2);
    let config = DrawConfig { passes: vec![], images: image_configs(0) };
    let orch = DrawOrchestrator::new(&mut r, UVec2 { x: 64, y: 64 }, &config, &built(0))
        .unwrap();
    assert_eq!(orch.image_resources.len(), 0);
    assert_eq!(orch.passes.len(), 0);
    assert_eq!(orch.compute_descriptor_set_layout.descriptor_count, 0);
}

#[test]
fn zero_passes_still_leaves_images_usable() {
    // With no passes at all the build must still succeed and leave
    // every image transitioned out of the undefined layout.
    let mut r = Renderer::new(3);
    let config = DrawConfig { passes: vec![], images: image_configs(4) };
    let orch = DrawOrchestrator::new(&mut r, UVec2 { x: 128, y: 128 }, &config, &built(0))
        .unwrap();
    assert_eq!(orch.image_resources.len(), 4);
    for res in &orch.image_resources {
        assert_eq!(res.image.layout, ImageLayout::General);
        assert_ne!(res.image.layout, ImageLayout::Undefined);
    }
}

#[test]
fn pipeline_failure_surfaces_as_error() {
    let mut r = Renderer::new(2);
    let config = DrawConfig {
        passes: vec![
            pass(DispatchConfig::FullScreen, vec![], vec![0]),
            pass(DispatchConfig::FullScreen, vec![], vec![0]),
        ],
        images: image_configs(1),
    };
    let outcomes = vec![
        PipelineBuildOutcome::Built,
        PipelineBuildOutcome::Failed(PipelineErr { message: String::from("bad shader") }),
    ];
    let err = DrawOrchestrator::new(&mut r, UVec2 { x: 64, y: 64 }, &config, &outcomes)
        .err()
        .unwrap();
    assert_eq!(err.message(), "bad shader");
    // Nothing was registered or allocated.
    assert_eq!(r.pipeline_store.configs.len(), 0);
    assert_eq!(r.deps.device_owners, 1);
    assert_eq!(r.deps.allocator_owners, 1);
}

#[test]
fn first_pipeline_failure_wins() {
    let mut r = Renderer::new(2);
    let config = DrawConfig {
        passes: vec![
            pass(DispatchConfig::FullScreen, vec![], vec![]),
            pass(DispatchConfig::FullScreen, vec![], vec![]),
        ],
        images: image_configs(1),
    };
    let outcomes = vec![
        PipelineBuildOutcome::Failed(PipelineErr { message: String::from("first") }),
        PipelineBuildOutcome::Failed(PipelineErr { message: String::from("second") }),
    ];
    let err = DrawOrchestrator::new(&mut r, UVec2 { x: 64, y: 64 }, &config, &outcomes)
        .err()
        .unwrap();
    assert_eq!(err.message(), "first");
}

#[test]
fn pipelines_are_registered_with_injected_macros() {
    let mut r = Renderer::new(2);
    let config = DrawConfig {
        passes: vec![
            pass(DispatchConfig::FullScreen, vec![0], vec![1]),
            pass(DispatchConfig::Count(1, 1, 1), vec![], vec![2]),
        ],
        images: image_configs(3),
    };
    let orch = DrawOrchestrator::new(&mut r, UVec2 { x: 640, y: 480 }, &config, &built(2))
        .unwrap();
    assert_eq!(r.pipeline_store.configs.len(), 2);
    assert_eq!(orch.passes[0].pipeline_handle, 0);
    assert_eq!(orch.passes[1].pipeline_handle, 1);
    for c in &r.pipeline_store.configs {
        assert_eq!(c.shader_path, "shader.comp");
        assert_eq!(c.num_images, 3);
        assert_eq!(c.workgroup_size, 32);
        assert_eq!(c.descriptor_set_layout, orch.compute_descriptor_set_layout.handle);
    }
    assert_eq!(orch.compute_descriptor_set_layout.descriptor_count, 3);
}

#[test]
fn pass_image_indices_are_recorded_verbatim() {
    let mut r = Renderer::new(2);
    let config = DrawConfig {
        passes: vec![pass(DispatchConfig::FullScreen, vec![2, 0], vec![1, 2])],
        images: image_configs(3),
    };
    let orch = DrawOrchestrator::new(&mut r, UVec2 { x: 64, y: 64 }, &config, &built(1))
        .unwrap();
    assert_eq!(orch.passes[0].in_images, vec![2, 0]);
    assert_eq!(orch.passes[0].out_images, vec![1, 2]);
}

#[test]
fn clear_policy_is_carried_per_image() {
    let mut r = Renderer::new(2);
    let red = ClearConfig::Color(1.0f32.to_bits(), 0.0f32.to_bits(), 0.25f32.to_bits());
    let config = DrawConfig {
        passes: vec![],
        images: vec![
            ImageConfig { clear: red },
            ImageConfig { clear: ClearConfig::NoClear },
        ],
    };
    let orch = DrawOrchestrator::new(&mut r, UVec2 { x: 64, y: 64 }, &config, &built(0))
        .unwrap();
    assert_eq!(orch.image_resources[0].clear, red);
    assert_eq!(orch.image_resources[1].clear, ClearConfig::NoClear);
}

#[test]
fn images_share_the_renderer_dependencies() {
    let mut r = Renderer::new(2);
    let config = DrawConfig { passes: vec![], images: image_configs(2) };
    let _orch = DrawOrchestrator::new(&mut r, UVec2 { x: 64, y: 64 }, &config, &built(0))
        .unwrap();
    // The renderer's own reference plus one per allocated image.
    assert_eq!(r.deps.device_owners, 3);
    assert_eq!(r.deps.allocator_owners, 3);
}
