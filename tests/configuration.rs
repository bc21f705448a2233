use koi::descriptor::{
    DescriptorPoolError, DescriptorSetAllocator, DescriptorSetLayoutBuilder, DescriptorSetPoolSizeRatio,
    DescriptorType, LayoutBinding,
};
use koi::pipeline::{BlendMode, CompareOp, CullMode, EntryPoint, FrontFace, PipelineBuilder, PolygonMode, PrimitiveTopology, ShaderStage, FORMAT_UNDEFINED};
use koi::renderer::{Handle, Renderer};
use koi::resources::ResourceAllocator;
use koi::settings::{Resolution, Settings};

fn same_state(a: &PipelineBuilder, b: &PipelineBuilder) {
    let (x, y) = (a.build(), b.build());
    assert_eq!(x.shader_stages, y.shader_stages);
    assert_eq!(x.topology, y.topology);
    assert_eq!(x.polygon_mode, y.polygon_mode);
    assert_eq!(x.cull_mode, y.cull_mode);
    assert_eq!(x.front_face, y.front_face);
    assert_eq!(x.blend_mode, y.blend_mode);
    assert_eq!(x.single_sample, y.single_sample);
    assert_eq!(x.depth, y.depth);
    assert_eq!(x.pipeline_layout, y.pipeline_layout);
    assert_eq!(x.color_attachment_formats, y.color_attachment_formats);
    assert_eq!(x.depth_attachment_format, y.depth_attachment_format);
}

#[test]
fn pipeline_defaults_are_explicit() {
    let s = PipelineBuilder::default().build();
    assert!(s.shader_stages.is_empty());
    assert_eq!(s.topology, PrimitiveTopology::TriangleList);
    assert_eq!(s.polygon_mode, PolygonMode::Fill);
    assert_eq!(s.cull_mode, CullMode::Off);
    assert_eq!(s.front_face, FrontFace::CounterClockwise);
    assert_eq!(s.blend_mode, BlendMode::Disabled);
    assert!(s.single_sample);
    assert!(!s.depth.test_enable);
    assert_eq!(s.pipeline_layout, 0);
    assert!(s.color_attachment_formats.is_empty());
    assert_eq!(s.depth_attachment_format, FORMAT_UNDEFINED);
}

#[test]
fn pipeline_calls_on_different_settings_commute() {
    let a = PipelineBuilder::default()
        .pipeline_layout(5)
        .shaders(10, Some(11))
        .input_topology(PrimitiveTopology::TriangleList)
        .polygon_mode(PolygonMode::Line)
        .cull_mode(CullMode::Back, FrontFace::Clockwise)
        .multisampling()
        .blending_alpha_blend()
        .depth_stencil_state(true, CompareOp::GreaterOrEqual)
        .color_attachment_formats(&vec![97])
        .depth_attachment_format(126);
    let b = PipelineBuilder::default()
        .depth_attachment_format(126)
        .color_attachment_formats(&vec![97])
        .depth_stencil_state(true, CompareOp::GreaterOrEqual)
        .blending_alpha_blend()
        .multisampling()
        .cull_mode(CullMode::Back, FrontFace::Clockwise)
        .polygon_mode(PolygonMode::Line)
        .input_topology(PrimitiveTopology::TriangleList)
        .shaders(10, Some(11))
        .pipeline_layout(5);
    same_state(&a, &b);
    let s = a.build();
    assert_eq!(s.color_attachment_formats, vec![97]);
    assert_eq!(s.depth_attachment_format, 126);
    assert_eq!(s.blend_mode, BlendMode::AlphaBlend);
    assert!(s.depth.test_enable && s.depth.write_enable);
    assert_eq!(s.depth.compare_op, CompareOp::GreaterOrEqual);
    assert_eq!(s.shader_stages[0].stage, ShaderStage::Vertex);
    assert_eq!(s.shader_stages[0].module, 10);
    assert_eq!(s.shader_stages[0].entry_point, EntryPoint::MainVs);
    assert_eq!(s.shader_stages[1].stage, ShaderStage::Fragment);
    assert_eq!(s.shader_stages[1].module, 11);
    assert_eq!(s.shader_stages[1].entry_point, EntryPoint::MainFs);
}

#[test]
fn pipeline_last_write_wins_on_the_same_setting() {
    let a = PipelineBuilder::default().blending_additive().blending_disabled().blending_alpha_blend();
    assert_eq!(a.build().blend_mode, BlendMode::AlphaBlend);
    let b = PipelineBuilder::default().blending_alpha_blend().blending_additive();
    assert_eq!(b.build().blend_mode, BlendMode::Additive);
    let c = PipelineBuilder::default()
        .input_topology(PrimitiveTopology::LineList)
        .input_topology(PrimitiveTopology::PointList);
    assert_eq!(c.build().topology, PrimitiveTopology::PointList);
    let d = PipelineBuilder::default().color_attachment_formats(&vec![1, 2]).color_attachment_formats(&vec![3]);
    assert_eq!(d.build().color_attachment_formats, vec![3]);
}

#[test]
fn fragment_stage_falls_back_to_vertex_module_and_clear_resets() {
    let a = PipelineBuilder::default().shaders(4, None).blending_additive();
    let s = a.build();
    assert_eq!(s.shader_stages[1].module, 4);
    same_state(&a.clone().clear(), &PipelineBuilder::default());
}

#[test]
fn layout_builder_shares_one_stage_mask() {
    let mut b = DescriptorSetLayoutBuilder::default()
        .add_binding(0, DescriptorType::StorageImage)
        .add_binding(1, DescriptorType::UniformBuffer);
    let built = b.build(0x20);
    assert_eq!(
        built,
        vec![
            LayoutBinding { binding: 0, descriptor_type: DescriptorType::StorageImage, descriptor_count: 1, stage_flags: 0x20 },
            LayoutBinding { binding: 1, descriptor_type: DescriptorType::UniformBuffer, descriptor_count: 1, stage_flags: 0x20 },
        ]
    );
    // A second build replaces the mask rather than adding to it.
    let again = b.build(0x1);
    assert_eq!(again[0].stage_flags, 0x1);
    assert_eq!(again[1].stage_flags, 0x1);
    assert_eq!(b.bindings[0].stage_flags, 0x1);
    b.clear();
    assert!(b.bindings.is_empty());
}

#[test]
fn pool_sizes_scale_with_max_sets() {
    let ratios = vec![
        DescriptorSetPoolSizeRatio::new(DescriptorType::StorageImage, 1, 1),
        DescriptorSetPoolSizeRatio::new(DescriptorType::UniformBuffer, 1, 3),
        DescriptorSetPoolSizeRatio::new(DescriptorType::Sampler, u32::MAX, 1),
    ];
    let pool = DescriptorSetAllocator::new(10, &ratios);
    assert_eq!(pool.pool_sizes[0].descriptor_count, 10);
    assert_eq!(pool.pool_sizes[1].descriptor_count, 3);
    assert_eq!(pool.pool_sizes[2].descriptor_count, u32::MAX);
    assert_eq!(pool.pool_sizes[1].descriptor_type, DescriptorType::UniformBuffer);
}

#[test]
fn pool_exhaustion_fails_whole_draw_and_reset_refills() {
    let mut pool = DescriptorSetAllocator::new(3, &vec![]);
    assert_eq!(pool.allocate(2), Ok(()));
    assert_eq!(pool.allocate(2), Err(DescriptorPoolError::PoolExhausted));
    assert_eq!(pool.allocated, 2);
    assert_eq!(pool.allocate(1), Ok(()));
    assert_eq!(pool.allocate(1), Err(DescriptorPoolError::PoolExhausted));
    pool.reset_pool();
    assert_eq!(pool.allocate(3), Ok(()));
}

#[test]
fn bins_keep_order_and_drain_separately() {
    let mut a: ResourceAllocator<&str> = ResourceAllocator::new(2);
    a.add(Some(0), "a0");
    a.add(None, "g");
    a.add(Some(1), "b0");
    a.add(Some(0), "a1");
    assert_eq!(a.drop_frame_resources(0), vec!["a0", "a1"]);
    assert!(a.drop_frame_resources(0).is_empty());
    a.add(Some(0), "a2");
    assert_eq!(a.drop(), vec!["a2", "b0", "g"]);
    assert!(a.global_resources.is_empty());
    assert_eq!(a.frame_resources.len(), 2);
}

#[test]
fn settings_defaults_and_builders() {
    let r = Resolution::default();
    assert_eq!((r.width, r.height), (1920, 1080));
    let s = Settings::default();
    assert_eq!(s.buffering, 0);
    let s = s.resolution(Resolution::new(800, 600)).buffering(3);
    assert_eq!(s.resolution, Resolution::new(800, 600));
    assert_eq!(s.buffering, 3);
}

struct Recorder {
    settings: Settings,
    resizes: Vec<(u32, u32)>,
    draws: u32,
    scenes: Vec<u32>,
}

impl Renderer for Recorder {
    type Context = ();
    type Scene = u32;
    type Overlay = u32;

    fn new(_context: (), settings: Settings) -> Self {
        Recorder { settings, resizes: vec![], draws: 0, scenes: vec![] }
    }

    fn load_scene(&mut self, scene: &u32) {
        self.scenes.push(*scene);
    }

    fn handle_resize(&mut self, resolution: &Resolution) {
        self.resizes.push((resolution.width, resolution.height));
    }

    fn draw(&mut self, overlay: &mut u32) {
        *overlay += 1;
        self.draws += 1;
    }
}

#[test]
fn handle_forwards_to_the_backend() {
    let mut h: Handle<Recorder> = Handle::new((), 2);
    assert_eq!(h.api.settings.buffering, 2);
    assert_eq!(h.api.settings.resolution, Resolution::new(1920, 1080));
    h.handle_resize(800, 600);
    h.load_scene(&7);
    let mut overlay = 0;
    h.draw(&mut overlay);
    assert_eq!(h.api.resizes, vec![(800, 600)]);
    assert_eq!(h.api.scenes, vec![7]);
    assert_eq!((h.api.draws, overlay), (1, 1));
}
