//! The description of the render pipeline: shader stages, the vertex buffer
//! layout and the fixed rasterization, blend and topology state.

use crate::swap_chain::PixelFormat;
use vstd::prelude::*;

verus! {

/// The kind of a shader.
#[derive(Clone, Copy, Debug, PartialEq, Eq, Structural)]
pub enum ShaderStage {
    Vertex,
    Fragment,
    Compute,
}

/// The format of one vertex attribute: two or three 32-bit floats.
#[derive(Clone, Copy, Debug, PartialEq, Eq, Structural)]
pub enum VertexFormat {
    Float2,
    Float3,
}

/// One attribute of the vertex buffer: where in a record it starts, what it
/// holds, and the shader location that reads it.
#[derive(Clone, Copy, Debug, PartialEq, Eq, Structural)]
pub struct VertexAttribute {
    pub offset: u32,
    pub format: VertexFormat,
    pub attribute_index: u32,
}

/// How the vertex buffer advances.
#[derive(Clone, Copy, Debug, PartialEq, Eq, Structural)]
pub enum InputStepMode {
    Vertex,
    Instance,
}

/// The layout of the one vertex buffer: position, normal, texture
/// coordinate.
#[derive(Clone, Copy, Debug, PartialEq, Eq)]
pub struct VertexBufferLayout {
    pub stride: u32,
    pub step_mode: InputStepMode,
    pub attributes: [VertexAttribute; 3],
}

/// Which winding is the front of a triangle.
#[derive(Clone, Copy, Debug, PartialEq, Eq, Structural)]
pub enum FrontFace {
    CounterClockwise,
    Clockwise,
}

/// Which faces are culled.
#[derive(Clone, Copy, Debug, PartialEq, Eq, Structural)]
pub enum CullMode {
    Off,
    Front,
    Back,
}

/// Rasterization state. The two float fields hold bit patterns.
#[derive(Clone, Copy, Debug, PartialEq, Eq, Structural)]
pub struct RasterizationState {
    pub front_face: FrontFace,
    pub cull_mode: CullMode,
    pub depth_bias: i32,
    pub depth_bias_slope_scale: u32,
    pub depth_bias_clamp: u32,
}

/// A factor of the blend equation.
#[derive(Clone, Copy, Debug, PartialEq, Eq, Structural)]
pub enum BlendFactor {
    Zero,
    One,
}

/// The operator of the blend equation.
#[derive(Clone, Copy, Debug, PartialEq, Eq, Structural)]
pub enum BlendOperation {
    Add,
}

/// The blend equation of one channel group.
#[derive(Clone, Copy, Debug, PartialEq, Eq, Structural)]
pub struct BlendState {
    pub src_factor: BlendFactor,
    pub dst_factor: BlendFactor,
    pub operation: BlendOperation,
}

/// The one color target of the pipeline.
#[derive(Clone, Copy, Debug, PartialEq, Eq, Structural)]
pub struct ColorTarget {
    pub format: PixelFormat,
    pub color: BlendState,
    pub alpha: BlendState,
    pub write_mask: u32,
}

/// How vertices are assembled.
#[derive(Clone, Copy, Debug, PartialEq, Eq, Structural)]
pub enum PrimitiveTopology {
    TriangleList,
}

/// The width of an index.
#[derive(Clone, Copy, Debug, PartialEq, Eq, Structural)]
pub enum IndexFormat {
    Uint16,
    Uint32,
}

/// Everything the pipeline is built from, bar the shader bytecode. It has
/// no method that changes it.
#[derive(Clone, Copy, Debug, PartialEq, Eq)]
pub struct PipelineState {
    /// Number of bindings in the one bind-group layout.
    pub bindings: u32,
    pub vertex_stage: ShaderStage,
    pub fragment_stage: ShaderStage,
    pub rasterization: RasterizationState,
    pub topology: PrimitiveTopology,
    pub color_target: ColorTarget,
    pub depth_stencil: bool,
    pub index_format: IndexFormat,
    pub vertex_buffer: VertexBufferLayout,
    pub sample_count: u32,
}

/// Bytes in one vertex record: eight floats.
pub const VERTEX_STRIDE: u32 = 32;

/// Every channel of the color write mask.
pub const WRITE_ALL: u32 = 15;

/// Bytes that an attribute of the format takes.
pub open spec fn format_bytes(format: VertexFormat) -> int {
    match format {
        VertexFormat::Float2 => 8,
        VertexFormat::Float3 => 12,
    }
}

/// The attributes follow one another without gap or overlap, in the order
/// of their shader locations, and fill the stride.
pub open spec fn tightly_packed(layout: VertexBufferLayout) -> bool {
    let a = layout.attributes@;
    &&& a[0].offset == 0
    &&& forall|k: int| 0 <= k < 3 ==> (#[trigger] a[k]).attribute_index == k
    &&& forall|k: int|
        0 <= k < 2 ==> a[k + 1].offset == (#[trigger] a[k]).offset + format_bytes(a[k].format)
    &&& layout.stride == a[2].offset + format_bytes(a[2].format)
}

/// The blend equation that writes the source and drops the destination.
pub open spec fn replace_blend() -> BlendState {
    BlendState {
        src_factor: BlendFactor::One,
        dst_factor: BlendFactor::Zero,
        operation: BlendOperation::Add,
    }
}

/// The attributes of a vertex record: position at 0, normal at 12, texture
/// coordinate at 24.
pub open spec fn vertex_attributes() -> Seq<VertexAttribute> {
    seq![
        VertexAttribute { offset: 0, format: VertexFormat::Float3, attribute_index: 0 },
        VertexAttribute { offset: 12, format: VertexFormat::Float3, attribute_index: 1 },
        VertexAttribute { offset: 24, format: VertexFormat::Float2, attribute_index: 2 },
    ]
}

/// The fixed rasterization state: no culling, no depth bias.
pub open spec fn fixed_rasterization() -> RasterizationState {
    RasterizationState {
        front_face: FrontFace::Clockwise,
        cull_mode: CullMode::Off,
        depth_bias: 0,
        depth_bias_slope_scale: 0,
        depth_bias_clamp: 0,
    }
}

/// The pipeline for a color target of `format`, but for the vertex buffer.
pub open spec fn is_pipeline_for(p: PipelineState, format: PixelFormat) -> bool {
    &&& p.bindings == 0
    &&& p.vertex_stage == ShaderStage::Vertex
    &&& p.fragment_stage == ShaderStage::Fragment
    &&& p.rasterization == fixed_rasterization()
    &&& p.topology == PrimitiveTopology::TriangleList
    &&& p.color_target == (ColorTarget {
        format,
        color: replace_blend(),
        alpha: replace_blend(),
        write_mask: WRITE_ALL,
    })
    &&& !p.depth_stencil
    &&& p.index_format == IndexFormat::Uint16
    &&& p.sample_count == 1
    &&& p.vertex_buffer.stride == VERTEX_STRIDE
    &&& p.vertex_buffer.step_mode == InputStepMode::Vertex
    &&& p.vertex_buffer.attributes@ == vertex_attributes()
}

impl VertexFormat {
    /// Bytes that an attribute of the format takes.
    pub fn size(&self) -> (n: u32)
        ensures
            n == format_bytes(*self),
    {
        match self {
            VertexFormat::Float2 => 8,
            VertexFormat::Float3 => 12,
        }
    }
}

impl BlendState {
    /// The blend equation that writes the source and drops the destination.
    pub fn replace() -> (b: BlendState)
        ensures
            b == replace_blend(),
    {
        BlendState {
            src_factor: BlendFactor::One,
            dst_factor: BlendFactor::Zero,
            operation: BlendOperation::Add,
        }
    }
}

impl VertexBufferLayout {
    /// The layout of the interleaved vertex records, tightly packed.
    pub fn interleaved() -> (layout: VertexBufferLayout)
        ensures
            layout.stride == VERTEX_STRIDE,
            layout.step_mode == InputStepMode::Vertex,
            layout.attributes@ == vertex_attributes(),
            tightly_packed(layout),
    {
        let position = VertexAttribute { offset: 0, format: VertexFormat::Float3, attribute_index: 0 };
        let normal = VertexAttribute {
            offset: position.offset + position.format.size(),
            format: VertexFormat::Float3,
            attribute_index: 1,
        };
        let texcoord = VertexAttribute {
            offset: normal.offset + normal.format.size(),
            format: VertexFormat::Float2,
            attribute_index: 2,
        };
        let layout = VertexBufferLayout {
            stride: texcoord.offset + texcoord.format.size(),
            step_mode: InputStepMode::Vertex,
            attributes: [position, normal, texcoord],
        };
        assert(layout.attributes@ =~= vertex_attributes());
        layout
    }
}

impl PipelineState {
    /// Assembles the pipeline state for a color target of `format`. The
    /// result depends on `format` alone.
    pub fn build(format: PixelFormat) -> (p: PipelineState)
        ensures
            is_pipeline_for(p, format),
            tightly_packed(p.vertex_buffer),
    {
        PipelineState {
            bindings: 0,
            vertex_stage: ShaderStage::Vertex,
            fragment_stage: ShaderStage::Fragment,
            rasterization: RasterizationState {
                front_face: FrontFace::Clockwise,
                cull_mode: CullMode::Off,
                depth_bias: 0,
                depth_bias_slope_scale: 0,
                depth_bias_clamp: 0,
            },
            topology: PrimitiveTopology::TriangleList,
            color_target: ColorTarget {
                format,
                color: BlendState::replace(),
                alpha: BlendState::replace(),
                write_mask: WRITE_ALL,
            },
            depth_stencil: false,
            index_format: IndexFormat::Uint16,
            vertex_buffer: VertexBufferLayout::interleaved(),
            sample_count: 1,
        }
    }
}

/// Two pipelines built for the same format agree in every field.
pub proof fn lemma_pipeline_is_determined(p: PipelineState, q: PipelineState, format: PixelFormat)
    requires
        is_pipeline_for(p, format),
        is_pipeline_for(q, format),
    ensures
        p.bindings == q.bindings,
        p.vertex_stage == q.vertex_stage,
        p.fragment_stage == q.fragment_stage,
        p.rasterization == q.rasterization,
        p.topology == q.topology,
        p.color_target == q.color_target,
        p.depth_stencil == q.depth_stencil,
        p.index_format == q.index_format,
        p.sample_count == q.sample_count,
        p.vertex_buffer.stride == q.vertex_buffer.stride,
        p.vertex_buffer.step_mode == q.vertex_buffer.step_mode,
        p.vertex_buffer.attributes@ == q.vertex_buffer.attributes@,
{
}

} // verus!
