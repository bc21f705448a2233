//! Graphics pipeline configuration. `PipelineBuilder` is a value: each
//! configuring call returns a new builder with one group of settings
//! replaced, and `build` turns it into the immutable `PipelineState` that a
//! pipeline object is created from. Defaults are explicit (see `default`).

use vstd::prelude::*;

verus! {

#[derive(Clone, Copy, Debug, PartialEq, Eq, Structural)]
pub enum PrimitiveTopology {
    PointList,
    LineList,
    LineStrip,
    TriangleList,
    TriangleStrip,
    TriangleFan,
}

#[derive(Clone, Copy, Debug, PartialEq, Eq, Structural)]
pub enum PolygonMode {
    Fill,
    Line,
    Point,
}

#[derive(Clone, Copy, Debug, PartialEq, Eq, Structural)]
pub enum CullMode {
    Off,
    Front,
    Back,
    FrontAndBack,
}

#[derive(Clone, Copy, Debug, PartialEq, Eq, Structural)]
pub enum FrontFace {
    CounterClockwise,
    Clockwise,
}

#[derive(Clone, Copy, Debug, PartialEq, Eq, Structural)]
pub enum CompareOp {
    Never,
    Less,
    Equal,
    LessOrEqual,
    Greater,
    NotEqual,
    GreaterOrEqual,
    Always,
}

/// How fragment colours combine with the attachment: no blending, additive
/// (`src * src_alpha + dst`), or alpha blending
/// (`src * src_alpha + dst * (1 - src_alpha)`); alpha is `src` in the
/// blending modes. All write every colour component.
#[derive(Clone, Copy, Debug, PartialEq, Eq, Structural)]
pub enum BlendMode {
    Disabled,
    Additive,
    AlphaBlend,
}

/// The depth test: whether it runs, whether it writes, and its comparison.
/// Bounds and stencil tests are always off.
#[derive(Clone, Copy, Debug, PartialEq, Eq, Structural)]
pub struct DepthState {
    pub test_enable: bool,
    pub write_enable: bool,
    pub compare_op: CompareOp,
}

#[derive(Clone, Copy, Debug, PartialEq, Eq, Structural)]
pub enum ShaderStage {
    Vertex,
    Fragment,
    Compute,
}

/// A shader's entry point: `main_vs`, `main_fs` or `main_cs`.
#[derive(Clone, Copy, Debug, PartialEq, Eq, Structural)]
pub enum EntryPoint {
    MainVs,
    MainFs,
    MainCs,
}

/// One shader stage: a shader module (its raw handle) and entry point.
#[derive(Clone, Copy, Debug, PartialEq, Eq, Structural)]
pub struct ShaderStageInfo {
    pub stage: ShaderStage,
    pub module: u64,
    pub entry_point: EntryPoint,
}

/// The raw value of the undefined image format.
pub const FORMAT_UNDEFINED: i32 = 0;

/// The mathematical content of a builder or of a built pipeline state.
pub ghost struct PipelineDesc {
    pub shader_stages: Seq<ShaderStageInfo>,
    pub topology: PrimitiveTopology,
    pub polygon_mode: PolygonMode,
    pub cull_mode: CullMode,
    pub front_face: FrontFace,
    pub blend_mode: BlendMode,
    pub single_sample: bool,
    pub depth: DepthState,
    pub pipeline_layout: u64,
    pub color_attachment_formats: Seq<i32>,
    pub depth_attachment_format: i32,
}

/// A pipeline configuration being put together. Primitive restart is always
/// disabled, lines are one pixel wide, and sample shading, alpha to coverage
/// and alpha to one are off.
#[derive(Clone, Debug)]
pub struct PipelineBuilder {
    pub shader_stages: Vec<ShaderStageInfo>,
    pub topology: PrimitiveTopology,
    pub polygon_mode: PolygonMode,
    pub cull_mode: CullMode,
    pub front_face: FrontFace,
    pub blend_mode: BlendMode,
    /// Whether multisampling was configured (one sample per pixel).
    pub single_sample: bool,
    pub depth: DepthState,
    /// The raw handle of the pipeline layout; zero for none.
    pub pipeline_layout: u64,
    pub color_attachment_formats: Vec<i32>,
    pub depth_attachment_format: i32,
}

/// A built graphics pipeline configuration; it does not change once built.
#[derive(Clone, Debug)]
pub struct PipelineState {
    pub shader_stages: Vec<ShaderStageInfo>,
    pub topology: PrimitiveTopology,
    pub polygon_mode: PolygonMode,
    pub cull_mode: CullMode,
    pub front_face: FrontFace,
    pub blend_mode: BlendMode,
    pub single_sample: bool,
    pub depth: DepthState,
    pub pipeline_layout: u64,
    pub color_attachment_formats: Vec<i32>,
    pub depth_attachment_format: i32,
}

impl View for PipelineBuilder {
    type V = PipelineDesc;

    open spec fn view(&self) -> PipelineDesc {
        PipelineDesc {
            shader_stages: self.shader_stages@,
            topology: self.topology,
            polygon_mode: self.polygon_mode,
            cull_mode: self.cull_mode,
            front_face: self.front_face,
            blend_mode: self.blend_mode,
            single_sample: self.single_sample,
            depth: self.depth,
            pipeline_layout: self.pipeline_layout,
            color_attachment_formats: self.color_attachment_formats@,
            depth_attachment_format: self.depth_attachment_format,
        }
    }
}

impl View for PipelineState {
    type V = PipelineDesc;

    open spec fn view(&self) -> PipelineDesc {
        PipelineDesc {
            shader_stages: self.shader_stages@,
            topology: self.topology,
            polygon_mode: self.polygon_mode,
            cull_mode: self.cull_mode,
            front_face: self.front_face,
            blend_mode: self.blend_mode,
            single_sample: self.single_sample,
            depth: self.depth,
            pipeline_layout: self.pipeline_layout,
            color_attachment_formats: self.color_attachment_formats@,
            depth_attachment_format: self.depth_attachment_format,
        }
    }
}

/// One configuring call, with its arguments.
pub ghost enum Setting {
    Layout(u64),
    Shaders(u64, Option<u64>),
    Topology(PrimitiveTopology),
    Polygon(PolygonMode),
    Culling(CullMode, FrontFace),
    Multisampling,
    Blending(BlendMode),
    ColorFormats(Seq<i32>),
    DepthFormat(i32),
    Depth(bool, CompareOp),
}

/// The group of settings a call writes; calls of different groups do not
/// conflict.
pub open spec fn setting_group(s: Setting) -> int {
    match s {
        Setting::Layout(_) => 0,
        Setting::Shaders(_, _) => 1,
        Setting::Topology(_) => 2,
        Setting::Polygon(_) => 3,
        Setting::Culling(_, _) => 4,
        Setting::Multisampling => 5,
        Setting::Blending(_) => 6,
        Setting::ColorFormats(_) => 7,
        Setting::DepthFormat(_) => 8,
        Setting::Depth(_, _) => 9,
    }
}

/// The vertex stage, then the fragment stage (from the vertex module when
/// no fragment module is given).
pub open spec fn graphics_stages(vertex: u64, fragment: Option<u64>) -> Seq<ShaderStageInfo> {
    seq![
        ShaderStageInfo { stage: ShaderStage::Vertex, module: vertex, entry_point: EntryPoint::MainVs },
        ShaderStageInfo {
            stage: ShaderStage::Fragment,
            module: match fragment {
                Some(f) => f,
                None => vertex,
            },
            entry_point: EntryPoint::MainFs,
        },
    ]
}

/// What a configuring call does to a configuration: it replaces the
/// settings of its group and keeps the rest.
pub open spec fn apply_setting(d: PipelineDesc, s: Setting) -> PipelineDesc {
    PipelineDesc {
        shader_stages: match s {
            Setting::Shaders(v, f) => graphics_stages(v, f),
            _ => d.shader_stages,
        },
        topology: match s {
            Setting::Topology(t) => t,
            _ => d.topology,
        },
        polygon_mode: match s {
            Setting::Polygon(p) => p,
            _ => d.polygon_mode,
        },
        cull_mode: match s {
            Setting::Culling(c, _) => c,
            _ => d.cull_mode,
        },
        front_face: match s {
            Setting::Culling(_, f) => f,
            _ => d.front_face,
        },
        blend_mode: match s {
            Setting::Blending(b) => b,
            _ => d.blend_mode,
        },
        single_sample: match s {
            Setting::Multisampling => true,
            _ => d.single_sample,
        },
        depth: match s {
            Setting::Depth(w, op) => DepthState { test_enable: true, write_enable: w, compare_op: op },
            _ => d.depth,
        },
        pipeline_layout: match s {
            Setting::Layout(l) => l,
            _ => d.pipeline_layout,
        },
        color_attachment_formats: match s {
            Setting::ColorFormats(f) => f,
            _ => d.color_attachment_formats,
        },
        depth_attachment_format: match s {
            Setting::DepthFormat(f) => f,
            _ => d.depth_attachment_format,
        },
    }
}

/// The configuration a new (or cleared) builder holds.
pub open spec fn default_desc() -> PipelineDesc {
    PipelineDesc {
        shader_stages: seq![],
        topology: PrimitiveTopology::TriangleList,
        polygon_mode: PolygonMode::Fill,
        cull_mode: CullMode::Off,
        front_face: FrontFace::CounterClockwise,
        blend_mode: BlendMode::Disabled,
        single_sample: true,
        depth: DepthState { test_enable: false, write_enable: false, compare_op: CompareOp::Always },
        pipeline_layout: 0,
        color_attachment_formats: seq![],
        depth_attachment_format: FORMAT_UNDEFINED,
    }
}

/// Configuring calls of different groups commute; of the same group, the
/// later one wins.
pub proof fn lemma_settings_commute_or_override(d: PipelineDesc, s1: Setting, s2: Setting)
    ensures
        setting_group(s1) != setting_group(s2) ==> apply_setting(apply_setting(d, s1), s2)
            == apply_setting(apply_setting(d, s2), s1),
        setting_group(s1) == setting_group(s2) ==> apply_setting(apply_setting(d, s1), s2)
            == apply_setting(d, s2),
{
}

impl Default for PipelineBuilder {
    /// Triangle lists, filled polygons, no culling, counter-clockwise front
    /// faces, no blending, one sample per pixel, no depth test, no layout
    /// and no attachments.
    fn default() -> (r: PipelineBuilder)
        ensures
            r@ == default_desc(),
    {
        let r = PipelineBuilder {
            shader_stages: Vec::new(),
            topology: PrimitiveTopology::TriangleList,
            polygon_mode: PolygonMode::Fill,
            cull_mode: CullMode::Off,
            front_face: FrontFace::CounterClockwise,
            blend_mode: BlendMode::Disabled,
            single_sample: true,
            depth: DepthState { test_enable: false, write_enable: false, compare_op: CompareOp::Always },
            pipeline_layout: 0,
            color_attachment_formats: Vec::new(),
            depth_attachment_format: FORMAT_UNDEFINED,
        };
        proof {
            assert(r@ =~= default_desc());
        }
        r
    }
}

impl PipelineBuilder {
    /// Back to the defaults.
    pub fn clear(self) -> (r: PipelineBuilder)
        ensures
            r@ == default_desc(),
    {
        PipelineBuilder::default()
    }

    pub fn pipeline_layout(self, layout: u64) -> (r: PipelineBuilder)
        ensures
            r@ == apply_setting(self@, Setting::Layout(layout)),
    {
        PipelineBuilder { pipeline_layout: layout, ..self }
    }

    /// A vertex stage and a fragment stage; the fragment stage uses the
    /// vertex module when no fragment module is given.
    pub fn shaders(self, vertex: u64, fragment: Option<u64>) -> (r: PipelineBuilder)
        ensures
            r@ == apply_setting(self@, Setting::Shaders(vertex, fragment)),
    {
        let fragment_module = match fragment {
            Some(f) => f,
            None => vertex,
        };
        let mut shader_stages: Vec<ShaderStageInfo> = Vec::new();
        shader_stages.push(
            ShaderStageInfo { stage: ShaderStage::Vertex, module: vertex, entry_point: EntryPoint::MainVs },
        );
        shader_stages.push(
            ShaderStageInfo {
                stage: ShaderStage::Fragment,
                module: fragment_module,
                entry_point: EntryPoint::MainFs,
            },
        );
        proof {
            assert(shader_stages@ =~= graphics_stages(vertex, fragment));
        }
        let r = PipelineBuilder { shader_stages, ..self };
        proof {
            assert(r@ =~= apply_setting(self@, Setting::Shaders(vertex, fragment)));
        }
        r
    }

    pub fn input_topology(self, topology: PrimitiveTopology) -> (r: PipelineBuilder)
        ensures
            r@ == apply_setting(self@, Setting::Topology(topology)),
    {
        PipelineBuilder { topology, ..self }
    }

    pub fn polygon_mode(self, polygon_mode: PolygonMode) -> (r: PipelineBuilder)
        ensures
            r@ == apply_setting(self@, Setting::Polygon(polygon_mode)),
    {
        PipelineBuilder { polygon_mode, ..self }
    }

    pub fn cull_mode(self, cull_mode: CullMode, front_face: FrontFace) -> (r: PipelineBuilder)
        ensures
            r@ == apply_setting(self@, Setting::Culling(cull_mode, front_face)),
    {
        PipelineBuilder { cull_mode, front_face, ..self }
    }

    /// One sample per pixel, without sample shading or alpha to coverage.
    pub fn multisampling(self) -> (r: PipelineBuilder)
        ensures
            r@ == apply_setting(self@, Setting::Multisampling),
    {
        PipelineBuilder { single_sample: true, ..self }
    }

    pub fn blending_disabled(self) -> (r: PipelineBuilder)
        ensures
            r@ == apply_setting(self@, Setting::Blending(BlendMode::Disabled)),
    {
        PipelineBuilder { blend_mode: BlendMode::Disabled, ..self }
    }

    pub fn blending_additive(self) -> (r: PipelineBuilder)
        ensures
            r@ == apply_setting(self@, Setting::Blending(BlendMode::Additive)),
    {
        PipelineBuilder { blend_mode: BlendMode::Additive, ..self }
    }

    pub fn blending_alpha_blend(self) -> (r: PipelineBuilder)
        ensures
            r@ == apply_setting(self@, Setting::Blending(BlendMode::AlphaBlend)),
    {
        PipelineBuilder { blend_mode: BlendMode::AlphaBlend, ..self }
    }

    pub fn color_attachment_formats(self, formats: &Vec<i32>) -> (r: PipelineBuilder)
        ensures
            r@ == apply_setting(self@, Setting::ColorFormats(formats@)),
    {
        let mut copied: Vec<i32> = Vec::new();
        let mut i: usize = 0;
        while i < formats.len()
            invariant
                i <= formats@.len(),
                copied@ == formats@.subrange(0, i as int),
            decreases formats@.len() - i,
        {
            copied.push(formats[i]);
            i += 1;
            proof {
                assert(copied@ =~= formats@.subrange(0, i as int));
            }
        }
        proof {
            assert(copied@ =~= formats@);
        }
        let r = PipelineBuilder { color_attachment_formats: copied, ..self };
        proof {
            assert(r@ =~= apply_setting(self@, Setting::ColorFormats(formats@)));
        }
        r
    }

    pub fn depth_attachment_format(self, format: i32) -> (r: PipelineBuilder)
        ensures
            r@ == apply_setting(self@, Setting::DepthFormat(format)),
    {
        PipelineBuilder { depth_attachment_format: format, ..self }
    }

    /// Enables the depth test with the given comparison and writes.
    pub fn depth_stencil_state(self, depth_write_enable: bool, depth_compare_op: CompareOp) -> (r:
        PipelineBuilder)
        ensures
            r@ == apply_setting(self@, Setting::Depth(depth_write_enable, depth_compare_op)),
    {
        PipelineBuilder {
            depth: DepthState {
                test_enable: true,
                write_enable: depth_write_enable,
                compare_op: depth_compare_op,
            },
            ..self
        }
    }

    /// The pipeline state this configuration describes: the same content,
    /// whatever order the configuring calls came in.
    pub fn build(&self) -> (r: PipelineState)
        ensures
            r@ == self@,
    {
        let mut shader_stages: Vec<ShaderStageInfo> = Vec::new();
        let mut i: usize = 0;
        while i < self.shader_stages.len()
            invariant
                i <= self.shader_stages@.len(),
                shader_stages@ == self.shader_stages@.subrange(0, i as int),
            decreases self.shader_stages@.len() - i,
        {
            shader_stages.push(self.shader_stages[i]);
            i += 1;
            proof {
                assert(shader_stages@ =~= self.shader_stages@.subrange(0, i as int));
            }
        }
        let mut color_attachment_formats: Vec<i32> = Vec::new();
        let mut j: usize = 0;
        while j < self.color_attachment_formats.len()
            invariant
                j <= self.color_attachment_formats@.len(),
                color_attachment_formats@ == self.color_attachment_formats@.subrange(0, j as int),
            decreases self.color_attachment_formats@.len() - j,
        {
            color_attachment_formats.push(self.color_attachment_formats[j]);
            j += 1;
            proof {
                assert(color_attachment_formats@ =~= self.color_attachment_formats@.subrange(
                    0,
                    j as int,
                ));
            }
        }
        proof {
            assert(shader_stages@ =~= self.shader_stages@);
            assert(color_attachment_formats@ =~= self.color_attachment_formats@);
        }
        let r = PipelineState {
            shader_stages,
            topology: self.topology,
            polygon_mode: self.polygon_mode,
            cull_mode: self.cull_mode,
            front_face: self.front_face,
            blend_mode: self.blend_mode,
            single_sample: self.single_sample,
            depth: self.depth,
            pipeline_layout: self.pipeline_layout,
            color_attachment_formats,
            depth_attachment_format: self.depth_attachment_format,
        };
        proof {
            assert(r@ =~= self@);
        }
        r
    }
}

/// Equal configurations build equal pipeline states: same attachment
/// formats, topology and blend mode among the rest.
pub proof fn lemma_build_deterministic(b1: PipelineBuilder, b2: PipelineBuilder, s1: PipelineState, s2: PipelineState)
    requires
        b1@ == b2@,
        s1@ == b1@,
        s2@ == b2@,
    ensures
        s1@ == s2@,
        s1.color_attachment_formats@ == s2.color_attachment_formats@,
        s1.depth_attachment_format == s2.depth_attachment_format,
        s1.topology == s2.topology,
        s1.blend_mode == s2.blend_mode,
{
}

} // verus!
