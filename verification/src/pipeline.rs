//! Compiled GPU programs: what is asked of the driver to build one, what
//! stands for it afterwards, and what is given back when it goes.

use vstd::prelude::*;
use crate::memory::GpuHandle;
use crate::memory::GpuResource;
use crate::memory::TeardownStep;
use crate::resources::ResourceId;
use crate::vk::Extent2D;
use crate::vk::PIPELINE_BIND_POINT_COMPUTE;
use crate::vk::PIPELINE_BIND_POINT_GRAPHICS;
use crate::vk::SAMPLE_COUNT_1;
use crate::vk::SHADER_STAGE_COMPUTE;

verus! {

pub const SHADER_STAGE_VERTEX: u32 = 0x1;
pub const SHADER_STAGE_FRAGMENT: u32 = 0x10;
pub const PRIMITIVE_TOPOLOGY_TRIANGLE_LIST: i32 = 3;
pub const POLYGON_MODE_FILL: i32 = 0;
pub const CULL_MODE_BACK: u32 = 0x2;
pub const FRONT_FACE_CLOCKWISE: i32 = 1;
pub const COLOR_COMPONENT_RGBA: u32 = 0xf;
pub const BLEND_FACTOR_ZERO: i32 = 0;
pub const BLEND_FACTOR_ONE: i32 = 1;
pub const BLEND_OP_ADD: i32 = 0;
pub const LOGIC_OP_COPY: i32 = 3;
pub const COMPARE_OP_ALWAYS: i32 = 7;
pub const DYNAMIC_STATE_VIEWPORT: i32 = 0;
pub const DYNAMIC_STATE_SCISSOR: i32 = 1;
/// The bit pattern of the single-precision number one.
pub const ONE_BITS: u32 = 0x3f80_0000;

/// The part of the GPU a pipeline runs on.
#[derive(Clone, Copy, PartialEq, Eq, Structural, Debug)]
pub enum BindPoint {
    Graphics,
    Compute,
}

impl BindPoint {
    /// The driver's code for the bind point.
    pub open spec fn code(self) -> i32 {
        match self {
            BindPoint::Graphics => PIPELINE_BIND_POINT_GRAPHICS,
            BindPoint::Compute => PIPELINE_BIND_POINT_COMPUTE,
        }
    }

    /// Gives the driver's code for the bind point.
    pub fn raw(self) -> (code: i32)
        ensures
            code == self.code(),
    {
        match self {
            BindPoint::Graphics => PIPELINE_BIND_POINT_GRAPHICS,
            BindPoint::Compute => PIPELINE_BIND_POINT_COMPUTE,
        }
    }
}

/// Why a pipeline could not be built.
#[derive(Clone, PartialEq, Eq, Debug)]
pub enum PipelineErr {
    /// The shader source did not compile; the text is the compiler's report.
    ShaderCompilation(String),
    /// The shader source could not be read.
    SourceUnavailable(String),
    /// The registry holds as many pipelines as it can.
    StoreFull,
    /// A reload was given another number of builds than it has pipelines to rebuild.
    BuildCountMismatch,
}

impl PipelineErr {
    /// The report the error carries, where it carries one.
    pub fn message(&self) -> (text: Option<&String>)
        ensures
            text == (match *self {
                PipelineErr::ShaderCompilation(report) => Some(&report),
                PipelineErr::SourceUnavailable(report) => Some(&report),
                PipelineErr::StoreFull => None,
                PipelineErr::BuildCountMismatch => None,
            }),
    {
        match self {
            PipelineErr::ShaderCompilation(report) => Some(report),
            PipelineErr::SourceUnavailable(report) => Some(report),
            PipelineErr::StoreFull => None,
            PipelineErr::BuildCountMismatch => None,
        }
    }
}

/// A range of push-constant bytes and the shader stages that read it.
#[derive(Clone, Copy, PartialEq, Eq, Structural, Debug)]
pub struct PushConstantRange {
    pub stage_flags: u32,
    pub offset: u32,
    pub size: u32,
}

/// One programmable stage of a pipeline; every stage enters at `main`.
#[derive(Clone, Copy, PartialEq, Eq, Structural, Debug)]
pub struct ShaderStage {
    pub stage: u32,
    pub module: u64,
}

/// What the driver is told when a pipeline layout is created.
#[derive(Clone, PartialEq, Eq, Debug)]
pub struct PipelineLayoutCreateInfo {
    pub set_layouts: Vec<u64>,
    pub push_constant_ranges: Vec<PushConstantRange>,
}

/// What the driver is told when a compute pipeline is created.
#[derive(Clone, Copy, PartialEq, Eq, Structural, Debug)]
pub struct ComputePipelineCreateInfo {
    pub stage: ShaderStage,
    pub layout: u64,
}

/// What a command needs to know of the pipeline it works with.
pub trait Pipeline: GpuResource {
    spec fn native(&self) -> u64;

    spec fn native_layout(&self) -> u64;

    spec fn point(&self) -> BindPoint;

    /// The native pipeline.
    fn handle(&self) -> (raw: u64)
        ensures
            raw == self.native(),
    ;

    /// The part of the GPU the pipeline runs on.
    fn bind_point(&self) -> (point: BindPoint)
        ensures
            point == self.point(),
    ;

    /// The native pipeline layout.
    fn layout(&self) -> (raw: u64)
        ensures
            raw == self.native_layout(),
    ;
}

/// A compute pipeline as a mathematical value.
pub struct ComputePipelineView {
    pub resource: ResourceId,
    pub pipeline: u64,
    pub pipeline_layout: u64,
    pub descriptor_set_layouts: Seq<u64>,
}

/// A compiled compute program and its layout.
#[derive(Clone, PartialEq, Eq, Debug)]
pub struct ComputePipeline {
    pub resource: ResourceId,
    pub pipeline: u64,
    pub pipeline_layout: u64,
    /// The descriptor-set layouts the pipeline layout was made from.
    pub descriptor_set_layouts: Vec<u64>,
}

impl View for ComputePipeline {
    type V = ComputePipelineView;

    open spec fn view(&self) -> ComputePipelineView {
        ComputePipelineView {
            resource: self.resource,
            pipeline: self.pipeline,
            pipeline_layout: self.pipeline_layout,
            descriptor_set_layouts: self.descriptor_set_layouts@,
        }
    }
}

impl ComputePipeline {
    /// The layout request for the given descriptor-set layouts and push constants.
    pub fn layout_info(
        descriptor_set_layouts: Vec<u64>,
        push_constant_ranges: Vec<PushConstantRange>,
    ) -> (info: PipelineLayoutCreateInfo)
        ensures
            info.set_layouts == descriptor_set_layouts,
            info.push_constant_ranges == push_constant_ranges,
    {
        PipelineLayoutCreateInfo { set_layouts: descriptor_set_layouts, push_constant_ranges }
    }

    /// The creation request for a compute pipeline of one compute stage.
    pub fn create_info(module: u64, layout: u64) -> (info: ComputePipelineCreateInfo)
        ensures
            info == (ComputePipelineCreateInfo {
                stage: ShaderStage { stage: SHADER_STAGE_COMPUTE, module },
                layout,
            }),
    {
        ComputePipelineCreateInfo { stage: ShaderStage { stage: SHADER_STAGE_COMPUTE, module }, layout }
    }

    /// A compute pipeline that was built.
    pub fn new(
        resource: ResourceId,
        pipeline: u64,
        pipeline_layout: u64,
        descriptor_set_layouts: Vec<u64>,
    ) -> (made: Self)
        ensures
            made@ == (ComputePipelineView {
                resource,
                pipeline,
                pipeline_layout,
                descriptor_set_layouts: descriptor_set_layouts@,
            }),
    {
        ComputePipeline { resource, pipeline, pipeline_layout, descriptor_set_layouts }
    }

    /// Another handle to the same pipeline.
    pub fn clone(&self) -> (copy: Self)
        ensures
            copy@ == self@,
    {
        ComputePipeline {
            resource: self.resource,
            pipeline: self.pipeline,
            pipeline_layout: self.pipeline_layout,
            descriptor_set_layouts: self.descriptor_set_layouts.clone(),
        }
    }
}

impl GpuResource for ComputePipeline {
    open spec fn resource_id(&self) -> ResourceId {
        self.resource
    }

    fn reference(&self) -> (id: ResourceId) {
        self.resource
    }
}

impl Pipeline for ComputePipeline {
    open spec fn native(&self) -> u64 {
        self.pipeline
    }

    open spec fn native_layout(&self) -> u64 {
        self.pipeline_layout
    }

    open spec fn point(&self) -> BindPoint {
        BindPoint::Compute
    }

    fn handle(&self) -> (raw: u64) {
        self.pipeline
    }

    fn bind_point(&self) -> (point: BindPoint) {
        BindPoint::Compute
    }

    fn layout(&self) -> (raw: u64) {
        self.pipeline_layout
    }
}

impl GpuHandle for ComputePipeline {
    /// The pipeline goes first, then its layout.
    open spec fn teardown_steps(&self) -> Seq<TeardownStep> {
        seq![
            TeardownStep::DestroyPipeline(self.pipeline),
            TeardownStep::DestroyPipelineLayout(self.pipeline_layout),
        ]
    }

    fn teardown(self) -> (steps: Vec<TeardownStep>) {
        let mut steps: Vec<TeardownStep> = Vec::new();
        steps.push(TeardownStep::DestroyPipeline(self.pipeline));
        steps.push(TeardownStep::DestroyPipelineLayout(self.pipeline_layout));
        proof {
            assert(steps@ =~= self.teardown_steps());
        }
        steps
    }
}

/// How colours written by the fragment stage reach the attachment.
#[derive(Clone, Copy, PartialEq, Eq, Structural, Debug)]
pub struct ColorBlendState {
    pub blend_enable: bool,
    pub color_write_mask: u32,
    pub src_color_blend_factor: i32,
    pub dst_color_blend_factor: i32,
    pub color_blend_op: i32,
    pub src_alpha_blend_factor: i32,
    pub dst_alpha_blend_factor: i32,
    pub alpha_blend_op: i32,
    pub logic_op_enable: bool,
    pub logic_op: i32,
}

/// Depth and stencil testing.
#[derive(Clone, Copy, PartialEq, Eq, Structural, Debug)]
pub struct DepthStencilState {
    pub depth_test_enable: bool,
    pub depth_write_enable: bool,
    pub depth_compare_op: i32,
    pub depth_bounds_test_enable: bool,
    pub stencil_test_enable: bool,
}

/// The fixed-function settings of a graphics pipeline.
#[derive(Clone, Copy, PartialEq, Eq, Structural, Debug)]
pub struct GraphicsPipelineState {
    pub vertex_stage: ShaderStage,
    pub fragment_stage: ShaderStage,
    pub render_pass: u64,
    pub layout: u64,
    pub rasterization_samples: u32,
    /// The viewport and scissor the pipeline starts with; both are set anew
    /// while recording.
    pub initial_area: Extent2D,
    pub topology: i32,
    pub primitive_restart_enable: bool,
    pub polygon_mode: i32,
    pub cull_mode: u32,
    pub front_face: i32,
    /// The line width as the bits of a single-precision number.
    pub line_width_bits: u32,
    pub color_blend: ColorBlendState,
    pub depth_stencil: DepthStencilState,
    pub dynamic_viewport: bool,
    pub dynamic_scissor: bool,
}

/// Filled back-face-culled triangles, written without blending or depth
/// testing, with viewport and scissor left to the recording.
pub open spec fn opaque_triangles(
    vertex_module: u64,
    fragment_module: u64,
    render_pass: u64,
    layout: u64,
) -> GraphicsPipelineState {
    GraphicsPipelineState {
        vertex_stage: ShaderStage { stage: SHADER_STAGE_VERTEX, module: vertex_module },
        fragment_stage: ShaderStage { stage: SHADER_STAGE_FRAGMENT, module: fragment_module },
        render_pass,
        layout,
        rasterization_samples: SAMPLE_COUNT_1,
        initial_area: Extent2D { width: 512, height: 512 },
        topology: PRIMITIVE_TOPOLOGY_TRIANGLE_LIST,
        primitive_restart_enable: false,
        polygon_mode: POLYGON_MODE_FILL,
        cull_mode: CULL_MODE_BACK,
        front_face: FRONT_FACE_CLOCKWISE,
        line_width_bits: ONE_BITS,
        color_blend: ColorBlendState {
            blend_enable: false,
            color_write_mask: COLOR_COMPONENT_RGBA,
            src_color_blend_factor: BLEND_FACTOR_ONE,
            dst_color_blend_factor: BLEND_FACTOR_ZERO,
            color_blend_op: BLEND_OP_ADD,
            src_alpha_blend_factor: BLEND_FACTOR_ONE,
            dst_alpha_blend_factor: BLEND_FACTOR_ZERO,
            alpha_blend_op: BLEND_OP_ADD,
            logic_op_enable: false,
            logic_op: LOGIC_OP_COPY,
        },
        depth_stencil: DepthStencilState {
            depth_test_enable: false,
            depth_write_enable: false,
            depth_compare_op: COMPARE_OP_ALWAYS,
            depth_bounds_test_enable: false,
            stencil_test_enable: false,
        },
        dynamic_viewport: true,
        dynamic_scissor: true,
    }
}

/// A compiled graphics program and its layout.
#[derive(Clone, Copy, PartialEq, Eq, Structural, Debug)]
pub struct GraphicsPipeline {
    pub resource: ResourceId,
    pub pipeline: u64,
    pub pipeline_layout: u64,
}

impl GraphicsPipeline {
    /// The creation request for a graphics pipeline of a vertex and a
    /// fragment stage.
    pub fn state(vertex_module: u64, fragment_module: u64, render_pass: u64, layout: u64) -> (state:
        GraphicsPipelineState)
        ensures
            state == opaque_triangles(vertex_module, fragment_module, render_pass, layout),
    {
        GraphicsPipelineState {
            vertex_stage: ShaderStage { stage: SHADER_STAGE_VERTEX, module: vertex_module },
            fragment_stage: ShaderStage { stage: SHADER_STAGE_FRAGMENT, module: fragment_module },
            render_pass,
            layout,
            rasterization_samples: SAMPLE_COUNT_1,
            initial_area: Extent2D { width: 512, height: 512 },
            topology: PRIMITIVE_TOPOLOGY_TRIANGLE_LIST,
            primitive_restart_enable: false,
            polygon_mode: POLYGON_MODE_FILL,
            cull_mode: CULL_MODE_BACK,
            front_face: FRONT_FACE_CLOCKWISE,
            line_width_bits: ONE_BITS,
            color_blend: ColorBlendState {
                blend_enable: false,
                color_write_mask: COLOR_COMPONENT_RGBA,
                src_color_blend_factor: BLEND_FACTOR_ONE,
                dst_color_blend_factor: BLEND_FACTOR_ZERO,
                color_blend_op: BLEND_OP_ADD,
                src_alpha_blend_factor: BLEND_FACTOR_ONE,
                dst_alpha_blend_factor: BLEND_FACTOR_ZERO,
                alpha_blend_op: BLEND_OP_ADD,
                logic_op_enable: false,
                logic_op: LOGIC_OP_COPY,
            },
            depth_stencil: DepthStencilState {
                depth_test_enable: false,
                depth_write_enable: false,
                depth_compare_op: COMPARE_OP_ALWAYS,
                depth_bounds_test_enable: false,
                stencil_test_enable: false,
            },
            dynamic_viewport: true,
            dynamic_scissor: true,
        }
    }

    /// A graphics pipeline that was built.
    pub fn new(resource: ResourceId, pipeline: u64, pipeline_layout: u64) -> (made: Self)
        ensures
            made == (GraphicsPipeline { resource, pipeline, pipeline_layout }),
    {
        GraphicsPipeline { resource, pipeline, pipeline_layout }
    }
}

impl GpuResource for GraphicsPipeline {
    open spec fn resource_id(&self) -> ResourceId {
        self.resource
    }

    fn reference(&self) -> (id: ResourceId) {
        self.resource
    }
}

impl Pipeline for GraphicsPipeline {
    open spec fn native(&self) -> u64 {
        self.pipeline
    }

    open spec fn native_layout(&self) -> u64 {
        self.pipeline_layout
    }

    open spec fn point(&self) -> BindPoint {
        BindPoint::Graphics
    }

    fn handle(&self) -> (raw: u64) {
        self.pipeline
    }

    fn bind_point(&self) -> (point: BindPoint) {
        BindPoint::Graphics
    }

    fn layout(&self) -> (raw: u64) {
        self.pipeline_layout
    }
}

impl GpuHandle for GraphicsPipeline {
    /// The pipeline goes first, then its layout.
    open spec fn teardown_steps(&self) -> Seq<TeardownStep> {
        seq![
            TeardownStep::DestroyPipeline(self.pipeline),
            TeardownStep::DestroyPipelineLayout(self.pipeline_layout),
        ]
    }

    fn teardown(self) -> (steps: Vec<TeardownStep>) {
        let mut steps: Vec<TeardownStep> = Vec::new();
        steps.push(TeardownStep::DestroyPipeline(self.pipeline));
        steps.push(TeardownStep::DestroyPipelineLayout(self.pipeline_layout));
        proof {
            assert(steps@ =~= self.teardown_steps());
        }
        steps
    }
}

} // verus!
