//! Pipeline state: descriptor types, shader and pipeline stage flags, and
//! the fixed-function rasterizer, comparison and blend vocabularies.

use vstd::prelude::*;

use crate::error::ConvError;
use crate::vk;

verus! {

// ---------------------------------------------------------------------------
// Descriptor types
// ---------------------------------------------------------------------------

/// The internal descriptor-type vocabulary.
#[derive(Clone, Copy, Debug, PartialEq, Eq, Structural)]
pub enum DescriptorType {
    Sampler,
    SampledImage,
    StorageImage,
    UniformTexelBuffer,
    StorageTexelBuffer,
    UniformBuffer,
    StorageBuffer,
    InputAttachment,
}

/// The internal descriptor type for each external code.  The combined
/// image-sampler and the dynamic buffer variants are legal externally but
/// not yet translated; any code beyond the documented domain is invalid
/// input.
pub open spec fn spec_map_descriptor_type(ty: u32) -> Result<DescriptorType, ConvError> {
    if ty == vk::VK_DESCRIPTOR_TYPE_SAMPLER {
        Ok(DescriptorType::Sampler)
    } else if ty == vk::VK_DESCRIPTOR_TYPE_SAMPLED_IMAGE {
        Ok(DescriptorType::SampledImage)
    } else if ty == vk::VK_DESCRIPTOR_TYPE_STORAGE_IMAGE {
        Ok(DescriptorType::StorageImage)
    } else if ty == vk::VK_DESCRIPTOR_TYPE_UNIFORM_TEXEL_BUFFER {
        Ok(DescriptorType::UniformTexelBuffer)
    } else if ty == vk::VK_DESCRIPTOR_TYPE_STORAGE_TEXEL_BUFFER {
        Ok(DescriptorType::StorageTexelBuffer)
    } else if ty == vk::VK_DESCRIPTOR_TYPE_UNIFORM_BUFFER {
        Ok(DescriptorType::UniformBuffer)
    } else if ty == vk::VK_DESCRIPTOR_TYPE_STORAGE_BUFFER {
        Ok(DescriptorType::StorageBuffer)
    } else if ty == vk::VK_DESCRIPTOR_TYPE_INPUT_ATTACHMENT {
        Ok(DescriptorType::InputAttachment)
    } else if ty == vk::VK_DESCRIPTOR_TYPE_COMBINED_IMAGE_SAMPLER || ty
        == vk::VK_DESCRIPTOR_TYPE_UNIFORM_BUFFER_DYNAMIC || ty
        == vk::VK_DESCRIPTOR_TYPE_STORAGE_BUFFER_DYNAMIC {
        Err(ConvError::NotYetSupported)
    } else {
        Err(ConvError::InvalidInput)
    }
}

/// Translate an external descriptor-type code into the internal descriptor
/// type.
pub fn map_descriptor_type(ty: u32) -> (r: Result<DescriptorType, ConvError>)
    ensures
        r == spec_map_descriptor_type(ty),
{
    if ty == vk::VK_DESCRIPTOR_TYPE_SAMPLER {
        Ok(DescriptorType::Sampler)
    } else if ty == vk::VK_DESCRIPTOR_TYPE_SAMPLED_IMAGE {
        Ok(DescriptorType::SampledImage)
    } else if ty == vk::VK_DESCRIPTOR_TYPE_STORAGE_IMAGE {
        Ok(DescriptorType::StorageImage)
    } else if ty == vk::VK_DESCRIPTOR_TYPE_UNIFORM_TEXEL_BUFFER {
        Ok(DescriptorType::UniformTexelBuffer)
    } else if ty == vk::VK_DESCRIPTOR_TYPE_STORAGE_TEXEL_BUFFER {
        Ok(DescriptorType::StorageTexelBuffer)
    } else if ty == vk::VK_DESCRIPTOR_TYPE_UNIFORM_BUFFER {
        Ok(DescriptorType::UniformBuffer)
    } else if ty == vk::VK_DESCRIPTOR_TYPE_STORAGE_BUFFER {
        Ok(DescriptorType::StorageBuffer)
    } else if ty == vk::VK_DESCRIPTOR_TYPE_INPUT_ATTACHMENT {
        Ok(DescriptorType::InputAttachment)
    } else if ty == vk::VK_DESCRIPTOR_TYPE_COMBINED_IMAGE_SAMPLER || ty
        == vk::VK_DESCRIPTOR_TYPE_UNIFORM_BUFFER_DYNAMIC || ty
        == vk::VK_DESCRIPTOR_TYPE_STORAGE_BUFFER_DYNAMIC {
        Err(ConvError::NotYetSupported)
    } else {
        Err(ConvError::InvalidInput)
    }
}

// ---------------------------------------------------------------------------
// Shader stage bitmasks
// ---------------------------------------------------------------------------

/// External shader-stage bits inside the documented domain; the highest bit
/// is outside it.
pub const SHADER_STAGE_RECOGNIZED_MASK: u32 = 0x7FFF_FFFF;

/// External shader-stage bits outside the documented domain.
pub const SHADER_STAGE_UNRECOGNIZED_MASK: u32 = 0x8000_0000;

/// The internal shader-stage set.  The `graphics` and `all` members stand
/// for the two external group masks, which cover several single-stage bits
/// at once: a many-to-one relationship, so they are set whenever any bit of
/// their group is.
#[derive(Clone, Copy, Debug, PartialEq, Eq, Structural)]
pub struct ShaderStages {
    pub vertex: bool,
    pub hull: bool,
    pub domain: bool,
    pub geometry: bool,
    pub fragment: bool,
    pub compute: bool,
    pub graphics: bool,
    pub all: bool,
}

/// The internal stage set for an external shader-stage mask: one flag per
/// single-stage bit, the group flags whenever any bit of their group is
/// set, and invalid input for a mask reaching outside the documented
/// domain.
pub open spec fn spec_map_stage_flags(stages: u32) -> Result<ShaderStages, ConvError> {
    if stages & SHADER_STAGE_UNRECOGNIZED_MASK != 0 {
        Err(ConvError::InvalidInput)
    } else {
        Ok(
            ShaderStages {
                vertex: stages & vk::VK_SHADER_STAGE_VERTEX_BIT != 0,
                hull: stages & vk::VK_SHADER_STAGE_TESSELLATION_CONTROL_BIT != 0,
                domain: stages & vk::VK_SHADER_STAGE_TESSELLATION_EVALUATION_BIT != 0,
                geometry: stages & vk::VK_SHADER_STAGE_GEOMETRY_BIT != 0,
                fragment: stages & vk::VK_SHADER_STAGE_FRAGMENT_BIT != 0,
                compute: stages & vk::VK_SHADER_STAGE_COMPUTE_BIT != 0,
                graphics: stages & vk::VK_SHADER_STAGE_ALL_GRAPHICS != 0,
                all: stages & vk::VK_SHADER_STAGE_ALL != 0,
            },
        )
    }
}

/// Translate an external shader-stage mask into the internal stage set.
pub fn map_stage_flags(stages: u32) -> (r: Result<ShaderStages, ConvError>)
    ensures
        r == spec_map_stage_flags(stages),
{
    if stages & SHADER_STAGE_UNRECOGNIZED_MASK != 0 {
        Err(ConvError::InvalidInput)
    } else {
        Ok(
            ShaderStages {
                vertex: stages & vk::VK_SHADER_STAGE_VERTEX_BIT != 0,
                hull: stages & vk::VK_SHADER_STAGE_TESSELLATION_CONTROL_BIT != 0,
                domain: stages & vk::VK_SHADER_STAGE_TESSELLATION_EVALUATION_BIT != 0,
                geometry: stages & vk::VK_SHADER_STAGE_GEOMETRY_BIT != 0,
                fragment: stages & vk::VK_SHADER_STAGE_FRAGMENT_BIT != 0,
                compute: stages & vk::VK_SHADER_STAGE_COMPUTE_BIT != 0,
                graphics: stages & vk::VK_SHADER_STAGE_ALL_GRAPHICS != 0,
                all: stages & vk::VK_SHADER_STAGE_ALL != 0,
            },
        )
    }
}

/// Law: a shader-stage mask translates exactly when it stays inside the
/// documented domain, and each single-stage flag then follows its own bit.
pub proof fn lemma_stage_flags_accumulation(stages: u32)
    ensures
        spec_map_stage_flags(stages) is Ok <==> stages & SHADER_STAGE_RECOGNIZED_MASK == stages,
        (spec_map_stage_flags(stages) matches Ok(s) ==> ((s.vertex <==> stages
            & vk::VK_SHADER_STAGE_VERTEX_BIT != 0) && (s.hull <==> stages
            & vk::VK_SHADER_STAGE_TESSELLATION_CONTROL_BIT != 0) && (s.domain <==> stages
            & vk::VK_SHADER_STAGE_TESSELLATION_EVALUATION_BIT != 0) && (s.geometry <==> stages
            & vk::VK_SHADER_STAGE_GEOMETRY_BIT != 0) && (s.fragment <==> stages
            & vk::VK_SHADER_STAGE_FRAGMENT_BIT != 0) && (s.compute <==> stages
            & vk::VK_SHADER_STAGE_COMPUTE_BIT != 0) && (s.graphics <==> stages
            & vk::VK_SHADER_STAGE_ALL_GRAPHICS != 0) && (s.all <==> stages
            & vk::VK_SHADER_STAGE_ALL != 0))),
{
    assert(stages & 0x8000_0000u32 == 0 <==> stages & 0x7FFF_FFFFu32 == stages) by (bit_vector);
}

/// Law: a shader-stage mask holding any bit outside the documented domain
/// fails; no bit is silently dropped.
pub proof fn lemma_stage_flags_rejects_unrecognized(stages: u32)
    requires
        stages & SHADER_STAGE_RECOGNIZED_MASK != stages,
    ensures
        spec_map_stage_flags(stages) is Err,
{
    lemma_stage_flags_accumulation(stages);
}

// ---------------------------------------------------------------------------
// Pipeline stage bitmasks
// ---------------------------------------------------------------------------

/// External pipeline-stage bits this backend accounts for: every bit up to
/// and including the host bit.
pub const PIPELINE_STAGE_SUPPORTED_MASK: u32 = 0x7FFF;

/// External pipeline-stage bits at or above the first unaccounted position,
/// the group masks among them: legal externally, not yet translated.
pub const PIPELINE_STAGE_UNSUPPORTED_MASK: u32 = 0xFFFF_8000;

/// The internal pipeline-stage set.  The external and internal numbering of
/// the accounted bits is kept in lockstep by explicit convention, so the
/// set is carried as its bits; `wf` bounds them to the accounted range.
#[derive(Clone, Copy, Debug, PartialEq, Eq, Structural)]
pub struct PipelineStages {
    pub bits: u32,
}

impl PipelineStages {
    pub open spec fn wf(self) -> bool {
        self.bits & PIPELINE_STAGE_UNSUPPORTED_MASK == 0
    }
}

/// The internal stage set for an external pipeline-stage mask: the identity
/// reinterpretation on the accounted bits, and not-yet-supported as soon as
/// any bit at or above the first unaccounted position is set.
pub open spec fn spec_map_pipeline_stage_flags(stages: u32) -> Result<PipelineStages, ConvError> {
    if stages & PIPELINE_STAGE_UNSUPPORTED_MASK != 0 {
        Err(ConvError::NotYetSupported)
    } else {
        Ok((PipelineStages { bits: stages }))
    }
}

/// Translate an external pipeline-stage mask into the internal stage set.
pub fn map_pipeline_stage_flags(stages: u32) -> (r: Result<PipelineStages, ConvError>)
    ensures
        r == spec_map_pipeline_stage_flags(stages),
        (r matches Ok(s) ==> s.wf() && s.bits == stages),
{
    if stages & PIPELINE_STAGE_UNSUPPORTED_MASK != 0 {
        Err(ConvError::NotYetSupported)
    } else {
        proof {
            assert(stages & 0xFFFF_8000u32 == 0 ==> stages & 0x7FFFu32 == stages) by (bit_vector);
        }
        Ok(PipelineStages { bits: stages })
    }
}

/// Law: a pipeline-stage mask translates exactly when it stays inside the
/// accounted range, and the translation is then the identity on its bits.
pub proof fn lemma_pipeline_stage_identity(stages: u32)
    ensures
        spec_map_pipeline_stage_flags(stages) is Ok <==> stages & PIPELINE_STAGE_SUPPORTED_MASK
            == stages,
        (spec_map_pipeline_stage_flags(stages) matches Ok(s) ==> s.bits == stages),
{
    assert(stages & 0xFFFF_8000u32 == 0 <==> stages & 0x7FFFu32 == stages) by (bit_vector);
}

// ---------------------------------------------------------------------------
// Rasterizer state
// ---------------------------------------------------------------------------

/// The internal polygon rasterization mode.  The external line mode carries
/// a line width beside the mode code; the width is no part of the mode's
/// identity and stays with the caller.
#[derive(Clone, Copy, Debug, PartialEq, Eq, Structural)]
pub enum PolygonMode {
    Fill,
    Line,
    Point,
}

pub open spec fn spec_map_polygon_mode(mode: u32) -> Result<PolygonMode, ConvError> {
    if mode == vk::VK_POLYGON_MODE_FILL {
        Ok(PolygonMode::Fill)
    } else if mode == vk::VK_POLYGON_MODE_LINE {
        Ok(PolygonMode::Line)
    } else if mode == vk::VK_POLYGON_MODE_POINT {
        Ok(PolygonMode::Point)
    } else {
        Err(ConvError::InvalidInput)
    }
}

/// Translate an external polygon-mode code; any code outside the table is
/// invalid input.
pub fn map_polygon_mode(mode: u32) -> (r: Result<PolygonMode, ConvError>)
    ensures
        r == spec_map_polygon_mode(mode),
{
    if mode == vk::VK_POLYGON_MODE_FILL {
        Ok(PolygonMode::Fill)
    } else if mode == vk::VK_POLYGON_MODE_LINE {
        Ok(PolygonMode::Line)
    } else if mode == vk::VK_POLYGON_MODE_POINT {
        Ok(PolygonMode::Point)
    } else {
        Err(ConvError::InvalidInput)
    }
}

/// Which faces the rasterizer culls.
#[derive(Clone, Copy, Debug, PartialEq, Eq, Structural)]
pub enum CullFace {
    Front,
    Back,
}

/// The internal cull selection for an external cull-mode value: `None` for
/// no culling, one face for the two single-face values, not-yet-supported
/// for culling both faces, and invalid input beyond the domain.
pub open spec fn spec_map_cull_face(cull: u32) -> Result<Option<CullFace>, ConvError> {
    if cull == vk::VK_CULL_MODE_NONE {
        Ok(None)
    } else if cull == vk::VK_CULL_MODE_FRONT_BIT {
        Ok(Some(CullFace::Front))
    } else if cull == vk::VK_CULL_MODE_BACK_BIT {
        Ok(Some(CullFace::Back))
    } else if cull == vk::VK_CULL_MODE_FRONT_AND_BACK {
        Err(ConvError::NotYetSupported)
    } else {
        Err(ConvError::InvalidInput)
    }
}

/// Translate an external cull-mode value into the internal cull selection.
pub fn map_cull_face(cull: u32) -> (r: Result<Option<CullFace>, ConvError>)
    ensures
        r == spec_map_cull_face(cull),
{
    if cull == vk::VK_CULL_MODE_NONE {
        Ok(None)
    } else if cull == vk::VK_CULL_MODE_FRONT_BIT {
        Ok(Some(CullFace::Front))
    } else if cull == vk::VK_CULL_MODE_BACK_BIT {
        Ok(Some(CullFace::Back))
    } else if cull == vk::VK_CULL_MODE_FRONT_AND_BACK {
        Err(ConvError::NotYetSupported)
    } else {
        Err(ConvError::InvalidInput)
    }
}

/// Which winding order counts as front-facing.
#[derive(Clone, Copy, Debug, PartialEq, Eq, Structural)]
pub enum FrontFace {
    CounterClockwise,
    Clockwise,
}

pub open spec fn spec_map_front_face(face: u32) -> Result<FrontFace, ConvError> {
    if face == vk::VK_FRONT_FACE_COUNTER_CLOCKWISE {
        Ok(FrontFace::CounterClockwise)
    } else if face == vk::VK_FRONT_FACE_CLOCKWISE {
        Ok(FrontFace::Clockwise)
    } else {
        Err(ConvError::InvalidInput)
    }
}

/// Translate an external front-face code; any code outside the table is
/// invalid input.
pub fn map_front_face(face: u32) -> (r: Result<FrontFace, ConvError>)
    ensures
        r == spec_map_front_face(face),
{
    if face == vk::VK_FRONT_FACE_COUNTER_CLOCKWISE {
        Ok(FrontFace::CounterClockwise)
    } else if face == vk::VK_FRONT_FACE_CLOCKWISE {
        Ok(FrontFace::Clockwise)
    } else {
        Err(ConvError::InvalidInput)
    }
}

// ---------------------------------------------------------------------------
// Primitive topologies
// ---------------------------------------------------------------------------

/// The internal primitive vocabulary; the patch-list variant carries the
/// patch control-point count.
#[derive(Clone, Copy, Debug, PartialEq, Eq, Structural)]
pub enum Primitive {
    PointList,
    LineList,
    LineStrip,
    TriangleList,
    TriangleStrip,
    LineListAdjacency,
    LineStripAdjacency,
    TriangleListAdjacency,
    TriangleStripAdjacency,
    PatchList(u32),
}

/// The internal primitive for each external topology code.  The
/// triangle-fan topology is legal externally but not supported by this
/// backend; any code beyond the documented domain is invalid input.
pub open spec fn spec_map_primitive_topology(topology: u32, patch_size: u32) -> Result<
    Primitive,
    ConvError,
> {
    if topology == vk::VK_PRIMITIVE_TOPOLOGY_POINT_LIST {
        Ok(Primitive::PointList)
    } else if topology == vk::VK_PRIMITIVE_TOPOLOGY_LINE_LIST {
        Ok(Primitive::LineList)
    } else if topology == vk::VK_PRIMITIVE_TOPOLOGY_LINE_STRIP {
        Ok(Primitive::LineStrip)
    } else if topology == vk::VK_PRIMITIVE_TOPOLOGY_TRIANGLE_LIST {
        Ok(Primitive::TriangleList)
    } else if topology == vk::VK_PRIMITIVE_TOPOLOGY_TRIANGLE_STRIP {
        Ok(Primitive::TriangleStrip)
    } else if topology == vk::VK_PRIMITIVE_TOPOLOGY_TRIANGLE_FAN {
        Err(ConvError::NotYetSupported)
    } else if topology == vk::VK_PRIMITIVE_TOPOLOGY_LINE_LIST_WITH_ADJACENCY {
        Ok(Primitive::LineListAdjacency)
    } else if topology == vk::VK_PRIMITIVE_TOPOLOGY_LINE_STRIP_WITH_ADJACENCY {
        Ok(Primitive::LineStripAdjacency)
    } else if topology == vk::VK_PRIMITIVE_TOPOLOGY_TRIANGLE_LIST_WITH_ADJACENCY {
        Ok(Primitive::TriangleListAdjacency)
    } else if topology == vk::VK_PRIMITIVE_TOPOLOGY_TRIANGLE_STRIP_WITH_ADJACENCY {
        Ok(Primitive::TriangleStripAdjacency)
    } else if topology == vk::VK_PRIMITIVE_TOPOLOGY_PATCH_LIST {
        Ok(Primitive::PatchList(patch_size))
    } else {
        Err(ConvError::InvalidInput)
    }
}

/// Translate an external topology code, carrying the patch size into the
/// patch-list primitive.
pub fn map_primitive_topology(topology: u32, patch_size: u32) -> (r: Result<Primitive, ConvError>)
    ensures
        r == spec_map_primitive_topology(topology, patch_size),
{
    if topology == vk::VK_PRIMITIVE_TOPOLOGY_POINT_LIST {
        Ok(Primitive::PointList)
    } else if topology == vk::VK_PRIMITIVE_TOPOLOGY_LINE_LIST {
        Ok(Primitive::LineList)
    } else if topology == vk::VK_PRIMITIVE_TOPOLOGY_LINE_STRIP {
        Ok(Primitive::LineStrip)
    } else if topology == vk::VK_PRIMITIVE_TOPOLOGY_TRIANGLE_LIST {
        Ok(Primitive::TriangleList)
    } else if topology == vk::VK_PRIMITIVE_TOPOLOGY_TRIANGLE_STRIP {
        Ok(Primitive::TriangleStrip)
    } else if topology == vk::VK_PRIMITIVE_TOPOLOGY_TRIANGLE_FAN {
        Err(ConvError::NotYetSupported)
    } else if topology == vk::VK_PRIMITIVE_TOPOLOGY_LINE_LIST_WITH_ADJACENCY {
        Ok(Primitive::LineListAdjacency)
    } else if topology == vk::VK_PRIMITIVE_TOPOLOGY_LINE_STRIP_WITH_ADJACENCY {
        Ok(Primitive::LineStripAdjacency)
    } else if topology == vk::VK_PRIMITIVE_TOPOLOGY_TRIANGLE_LIST_WITH_ADJACENCY {
        Ok(Primitive::TriangleListAdjacency)
    } else if topology == vk::VK_PRIMITIVE_TOPOLOGY_TRIANGLE_STRIP_WITH_ADJACENCY {
        Ok(Primitive::TriangleStripAdjacency)
    } else if topology == vk::VK_PRIMITIVE_TOPOLOGY_PATCH_LIST {
        Ok(Primitive::PatchList(patch_size))
    } else {
        Err(ConvError::InvalidInput)
    }
}

// ---------------------------------------------------------------------------
// Comparison operations
// ---------------------------------------------------------------------------

/// The internal comparison vocabulary.
#[derive(Clone, Copy, Debug, PartialEq, Eq, Structural)]
pub enum Comparison {
    Never,
    Less,
    Equal,
    LessEqual,
    Greater,
    NotEqual,
    GreaterEqual,
    Always,
}

pub open spec fn spec_map_compare_op(op: u32) -> Result<Comparison, ConvError> {
    if op == vk::VK_COMPARE_OP_NEVER {
        Ok(Comparison::Never)
    } else if op == vk::VK_COMPARE_OP_LESS {
        Ok(Comparison::Less)
    } else if op == vk::VK_COMPARE_OP_EQUAL {
        Ok(Comparison::Equal)
    } else if op == vk::VK_COMPARE_OP_LESS_OR_EQUAL {
        Ok(Comparison::LessEqual)
    } else if op == vk::VK_COMPARE_OP_GREATER {
        Ok(Comparison::Greater)
    } else if op == vk::VK_COMPARE_OP_NOT_EQUAL {
        Ok(Comparison::NotEqual)
    } else if op == vk::VK_COMPARE_OP_GREATER_OR_EQUAL {
        Ok(Comparison::GreaterEqual)
    } else if op == vk::VK_COMPARE_OP_ALWAYS {
        Ok(Comparison::Always)
    } else {
        Err(ConvError::InvalidInput)
    }
}

/// Translate an external comparison code; any code outside the table is
/// invalid input.
pub fn map_compare_op(op: u32) -> (r: Result<Comparison, ConvError>)
    ensures
        r == spec_map_compare_op(op),
{
    if op == vk::VK_COMPARE_OP_NEVER {
        Ok(Comparison::Never)
    } else if op == vk::VK_COMPARE_OP_LESS {
        Ok(Comparison::Less)
    } else if op == vk::VK_COMPARE_OP_EQUAL {
        Ok(Comparison::Equal)
    } else if op == vk::VK_COMPARE_OP_LESS_OR_EQUAL {
        Ok(Comparison::LessEqual)
    } else if op == vk::VK_COMPARE_OP_GREATER {
        Ok(Comparison::Greater)
    } else if op == vk::VK_COMPARE_OP_NOT_EQUAL {
        Ok(Comparison::NotEqual)
    } else if op == vk::VK_COMPARE_OP_GREATER_OR_EQUAL {
        Ok(Comparison::GreaterEqual)
    } else if op == vk::VK_COMPARE_OP_ALWAYS {
        Ok(Comparison::Always)
    } else {
        Err(ConvError::InvalidInput)
    }
}

// ---------------------------------------------------------------------------
// Color component masks
// ---------------------------------------------------------------------------

/// External color-component bits with an internal counterpart.
pub const COLOR_COMPONENT_MAPPED_MASK: u32 = 0xF;

/// External color-component bits outside the documented domain.
pub const COLOR_COMPONENT_UNRECOGNIZED_MASK: u32 = 0xFFFF_FFF0;

/// The internal color-write mask: one flag per color channel.
#[derive(Clone, Copy, Debug, PartialEq, Eq, Structural)]
pub struct ColorMask {
    pub red: bool,
    pub green: bool,
    pub blue: bool,
    pub alpha: bool,
}

/// The internal color mask for an external component mask: one flag per
/// channel bit; any bit outside the documented domain is invalid input.
pub open spec fn spec_map_color_components(mask: u32) -> Result<ColorMask, ConvError> {
    if mask & COLOR_COMPONENT_UNRECOGNIZED_MASK != 0 {
        Err(ConvError::InvalidInput)
    } else {
        Ok(
            ColorMask {
                red: mask & vk::VK_COLOR_COMPONENT_R_BIT != 0,
                green: mask & vk::VK_COLOR_COMPONENT_G_BIT != 0,
                blue: mask & vk::VK_COLOR_COMPONENT_B_BIT != 0,
                alpha: mask & vk::VK_COLOR_COMPONENT_A_BIT != 0,
            },
        )
    }
}

/// Translate an external color-component mask into the internal color-write
/// mask.
pub fn map_color_components(mask: u32) -> (r: Result<ColorMask, ConvError>)
    ensures
        r == spec_map_color_components(mask),
{
    if mask & COLOR_COMPONENT_UNRECOGNIZED_MASK != 0 {
        Err(ConvError::InvalidInput)
    } else {
        Ok(
            ColorMask {
                red: mask & vk::VK_COLOR_COMPONENT_R_BIT != 0,
                green: mask & vk::VK_COLOR_COMPONENT_G_BIT != 0,
                blue: mask & vk::VK_COLOR_COMPONENT_B_BIT != 0,
                alpha: mask & vk::VK_COLOR_COMPONENT_A_BIT != 0,
            },
        )
    }
}

/// Law: a color-component mask translates exactly when it holds only
/// channel bits, and the translated mask then holds exactly the channels
/// whose bit is set.
pub proof fn lemma_color_components_accumulation(mask: u32)
    ensures
        spec_map_color_components(mask) is Ok <==> mask & COLOR_COMPONENT_MAPPED_MASK == mask,
        (spec_map_color_components(mask) matches Ok(c) ==> ((c.red <==> mask
            & vk::VK_COLOR_COMPONENT_R_BIT != 0) && (c.green <==> mask
            & vk::VK_COLOR_COMPONENT_G_BIT != 0) && (c.blue <==> mask
            & vk::VK_COLOR_COMPONENT_B_BIT != 0) && (c.alpha <==> mask
            & vk::VK_COLOR_COMPONENT_A_BIT != 0))),
{
    assert(mask & 0xFFFF_FFF0u32 == 0 <==> mask & 0xFu32 == mask) by (bit_vector);
}

/// Law: a color-component mask holding any bit outside the channel table
/// fails; no bit is silently dropped.
pub proof fn lemma_color_components_rejects_unrecognized(mask: u32)
    requires
        mask & COLOR_COMPONENT_MAPPED_MASK != mask,
    ensures
        spec_map_color_components(mask) is Err,
{
    lemma_color_components_accumulation(mask);
}

// ---------------------------------------------------------------------------
// Blend, logic and stencil operations
// ---------------------------------------------------------------------------

/// The internal logic-operation vocabulary: a capability gap with no cases
/// distinguished yet, so no translation ever produces a value of it.
#[derive(Clone, Copy, Debug, PartialEq, Eq, Structural)]
pub struct LogicOp;

/// The internal stencil-operation vocabulary: a capability gap with no
/// cases distinguished yet, so no translation ever produces a value of it.
#[derive(Clone, Copy, Debug, PartialEq, Eq, Structural)]
pub struct StencilOp;

/// The internal blend-operation vocabulary: a capability gap with no cases
/// distinguished yet, so no translation ever produces a value of it.
#[derive(Clone, Copy, Debug, PartialEq, Eq, Structural)]
pub struct BlendOp;

/// Translate an external logic-operation code: a capability gap, so every
/// request reports `NotYetSupported`.
pub fn map_logic_op(op: u32) -> (r: Result<LogicOp, ConvError>)
    ensures
        r == Err::<LogicOp, ConvError>(ConvError::NotYetSupported),
{
    let _ = op;
    Err(ConvError::NotYetSupported)
}

/// Translate an external stencil-operation code: a capability gap, so every
/// request reports `NotYetSupported`.
pub fn map_stencil_op(op: u32) -> (r: Result<StencilOp, ConvError>)
    ensures
        r == Err::<StencilOp, ConvError>(ConvError::NotYetSupported),
{
    let _ = op;
    Err(ConvError::NotYetSupported)
}

/// Translate an external blend operation with its source and destination
/// factors: a capability gap, so every request reports `NotYetSupported`.
pub fn map_blend_op(blend_op: u32, src_factor: u32, dst_factor: u32) -> (r: Result<
    BlendOp,
    ConvError,
>)
    ensures
        r == Err::<BlendOp, ConvError>(ConvError::NotYetSupported),
{
    let _ = blend_op;
    let _ = src_factor;
    let _ = dst_factor;
    Err(ConvError::NotYetSupported)
}

} // verus!
