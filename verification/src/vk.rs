//! The external graphics-API vocabulary: the Vulkan-style integer codes,
//! bitmask bits and plain structs that the translation functions accept and
//! produce.  Every value of this vocabulary is carried as a plain integer or
//! a struct of plain integers; a code outside the documented domain of its
//! enumeration is invalid input.

use vstd::prelude::*;

verus! {

// ---------------------------------------------------------------------------
// Pixel formats
// ---------------------------------------------------------------------------

/// The "undefined" pixel-format sentinel: in the external domain, but with no
/// internal counterpart.
pub const VK_FORMAT_UNDEFINED: u32 = 0;

// ---------------------------------------------------------------------------
// Format capability (feature) bits
// ---------------------------------------------------------------------------

pub const VK_FORMAT_FEATURE_SAMPLED_IMAGE_BIT: u32 = 0x1;
pub const VK_FORMAT_FEATURE_STORAGE_IMAGE_BIT: u32 = 0x2;
pub const VK_FORMAT_FEATURE_STORAGE_IMAGE_ATOMIC_BIT: u32 = 0x4;
pub const VK_FORMAT_FEATURE_UNIFORM_TEXEL_BUFFER_BIT: u32 = 0x8;
pub const VK_FORMAT_FEATURE_STORAGE_TEXEL_BUFFER_BIT: u32 = 0x10;
pub const VK_FORMAT_FEATURE_STORAGE_TEXEL_BUFFER_ATOMIC_BIT: u32 = 0x20;
pub const VK_FORMAT_FEATURE_VERTEX_BUFFER_BIT: u32 = 0x40;
pub const VK_FORMAT_FEATURE_COLOR_ATTACHMENT_BIT: u32 = 0x80;
pub const VK_FORMAT_FEATURE_COLOR_ATTACHMENT_BLEND_BIT: u32 = 0x100;
pub const VK_FORMAT_FEATURE_DEPTH_STENCIL_ATTACHMENT_BIT: u32 = 0x200;
pub const VK_FORMAT_FEATURE_BLIT_SRC_BIT: u32 = 0x400;
pub const VK_FORMAT_FEATURE_BLIT_DST_BIT: u32 = 0x800;
pub const VK_FORMAT_FEATURE_SAMPLED_IMAGE_FILTER_LINEAR_BIT: u32 = 0x1000;

// ---------------------------------------------------------------------------
// Image aspects, creation flags, types, sample counts, layouts
// ---------------------------------------------------------------------------

pub const VK_IMAGE_ASPECT_COLOR_BIT: u32 = 0x1;
pub const VK_IMAGE_ASPECT_DEPTH_BIT: u32 = 0x2;
pub const VK_IMAGE_ASPECT_STENCIL_BIT: u32 = 0x4;
pub const VK_IMAGE_ASPECT_METADATA_BIT: u32 = 0x8;

pub const VK_IMAGE_CREATE_CUBE_COMPATIBLE_BIT: u32 = 0x10;

pub const VK_IMAGE_TYPE_1D: u32 = 0;
pub const VK_IMAGE_TYPE_2D: u32 = 1;
pub const VK_IMAGE_TYPE_3D: u32 = 2;

pub const VK_SAMPLE_COUNT_1_BIT: u32 = 0x1;

pub const VK_IMAGE_LAYOUT_UNDEFINED: u32 = 0;
pub const VK_IMAGE_LAYOUT_GENERAL: u32 = 1;
pub const VK_IMAGE_LAYOUT_COLOR_ATTACHMENT_OPTIMAL: u32 = 2;
pub const VK_IMAGE_LAYOUT_DEPTH_STENCIL_ATTACHMENT_OPTIMAL: u32 = 3;
pub const VK_IMAGE_LAYOUT_DEPTH_STENCIL_READ_ONLY_OPTIMAL: u32 = 4;
pub const VK_IMAGE_LAYOUT_SHADER_READ_ONLY_OPTIMAL: u32 = 5;
pub const VK_IMAGE_LAYOUT_TRANSFER_SRC_OPTIMAL: u32 = 6;
pub const VK_IMAGE_LAYOUT_TRANSFER_DST_OPTIMAL: u32 = 7;
pub const VK_IMAGE_LAYOUT_PREINITIALIZED: u32 = 8;
pub const VK_IMAGE_LAYOUT_PRESENT_SRC_KHR: u32 = 1000001002;

// ---------------------------------------------------------------------------
// Image usage bits
// ---------------------------------------------------------------------------

pub const VK_IMAGE_USAGE_TRANSFER_SRC_BIT: u32 = 0x1;
pub const VK_IMAGE_USAGE_TRANSFER_DST_BIT: u32 = 0x2;
pub const VK_IMAGE_USAGE_SAMPLED_BIT: u32 = 0x4;
pub const VK_IMAGE_USAGE_STORAGE_BIT: u32 = 0x8;
pub const VK_IMAGE_USAGE_COLOR_ATTACHMENT_BIT: u32 = 0x10;
pub const VK_IMAGE_USAGE_DEPTH_STENCIL_ATTACHMENT_BIT: u32 = 0x20;
pub const VK_IMAGE_USAGE_TRANSIENT_ATTACHMENT_BIT: u32 = 0x40;
pub const VK_IMAGE_USAGE_INPUT_ATTACHMENT_BIT: u32 = 0x80;

// ---------------------------------------------------------------------------
// Buffer usage bits
// ---------------------------------------------------------------------------

pub const VK_BUFFER_USAGE_TRANSFER_SRC_BIT: u32 = 0x1;
pub const VK_BUFFER_USAGE_TRANSFER_DST_BIT: u32 = 0x2;
pub const VK_BUFFER_USAGE_UNIFORM_TEXEL_BUFFER_BIT: u32 = 0x4;
pub const VK_BUFFER_USAGE_STORAGE_TEXEL_BUFFER_BIT: u32 = 0x8;
pub const VK_BUFFER_USAGE_UNIFORM_BUFFER_BIT: u32 = 0x10;
pub const VK_BUFFER_USAGE_STORAGE_BUFFER_BIT: u32 = 0x20;
pub const VK_BUFFER_USAGE_INDEX_BUFFER_BIT: u32 = 0x40;
pub const VK_BUFFER_USAGE_VERTEX_BUFFER_BIT: u32 = 0x80;
pub const VK_BUFFER_USAGE_INDIRECT_BUFFER_BIT: u32 = 0x100;

// ---------------------------------------------------------------------------
// Memory property bits
// ---------------------------------------------------------------------------

pub const VK_MEMORY_PROPERTY_DEVICE_LOCAL_BIT: u32 = 0x1;
pub const VK_MEMORY_PROPERTY_HOST_VISIBLE_BIT: u32 = 0x2;
pub const VK_MEMORY_PROPERTY_HOST_COHERENT_BIT: u32 = 0x4;
pub const VK_MEMORY_PROPERTY_HOST_CACHED_BIT: u32 = 0x8;
pub const VK_MEMORY_PROPERTY_LAZILY_ALLOCATED_BIT: u32 = 0x10;

// ---------------------------------------------------------------------------
// Descriptor types
// ---------------------------------------------------------------------------

pub const VK_DESCRIPTOR_TYPE_SAMPLER: u32 = 0;
pub const VK_DESCRIPTOR_TYPE_COMBINED_IMAGE_SAMPLER: u32 = 1;
pub const VK_DESCRIPTOR_TYPE_SAMPLED_IMAGE: u32 = 2;
pub const VK_DESCRIPTOR_TYPE_STORAGE_IMAGE: u32 = 3;
pub const VK_DESCRIPTOR_TYPE_UNIFORM_TEXEL_BUFFER: u32 = 4;
pub const VK_DESCRIPTOR_TYPE_STORAGE_TEXEL_BUFFER: u32 = 5;
pub const VK_DESCRIPTOR_TYPE_UNIFORM_BUFFER: u32 = 6;
pub const VK_DESCRIPTOR_TYPE_STORAGE_BUFFER: u32 = 7;
pub const VK_DESCRIPTOR_TYPE_UNIFORM_BUFFER_DYNAMIC: u32 = 8;
pub const VK_DESCRIPTOR_TYPE_STORAGE_BUFFER_DYNAMIC: u32 = 9;
pub const VK_DESCRIPTOR_TYPE_INPUT_ATTACHMENT: u32 = 10;

// ---------------------------------------------------------------------------
// Shader stage bits
// ---------------------------------------------------------------------------

pub const VK_SHADER_STAGE_VERTEX_BIT: u32 = 0x1;
pub const VK_SHADER_STAGE_TESSELLATION_CONTROL_BIT: u32 = 0x2;
pub const VK_SHADER_STAGE_TESSELLATION_EVALUATION_BIT: u32 = 0x4;
pub const VK_SHADER_STAGE_GEOMETRY_BIT: u32 = 0x8;
pub const VK_SHADER_STAGE_FRAGMENT_BIT: u32 = 0x10;
pub const VK_SHADER_STAGE_COMPUTE_BIT: u32 = 0x20;
pub const VK_SHADER_STAGE_ALL_GRAPHICS: u32 = 0x1F;
pub const VK_SHADER_STAGE_ALL: u32 = 0x7FFFFFFF;

// ---------------------------------------------------------------------------
// Pipeline stage bits
// ---------------------------------------------------------------------------

pub const VK_PIPELINE_STAGE_TOP_OF_PIPE_BIT: u32 = 0x1;
pub const VK_PIPELINE_STAGE_HOST_BIT: u32 = 0x4000;
pub const VK_PIPELINE_STAGE_ALL_GRAPHICS_BIT: u32 = 0x8000;
pub const VK_PIPELINE_STAGE_ALL_COMMANDS_BIT: u32 = 0x10000;

// ---------------------------------------------------------------------------
// Access bits
// ---------------------------------------------------------------------------

pub const VK_ACCESS_INDIRECT_COMMAND_READ_BIT: u32 = 0x1;
pub const VK_ACCESS_INDEX_READ_BIT: u32 = 0x2;
pub const VK_ACCESS_VERTEX_ATTRIBUTE_READ_BIT: u32 = 0x4;
pub const VK_ACCESS_UNIFORM_READ_BIT: u32 = 0x8;
pub const VK_ACCESS_INPUT_ATTACHMENT_READ_BIT: u32 = 0x10;
pub const VK_ACCESS_SHADER_READ_BIT: u32 = 0x20;
pub const VK_ACCESS_SHADER_WRITE_BIT: u32 = 0x40;
pub const VK_ACCESS_COLOR_ATTACHMENT_READ_BIT: u32 = 0x80;
pub const VK_ACCESS_COLOR_ATTACHMENT_WRITE_BIT: u32 = 0x100;
pub const VK_ACCESS_DEPTH_STENCIL_ATTACHMENT_READ_BIT: u32 = 0x200;
pub const VK_ACCESS_DEPTH_STENCIL_ATTACHMENT_WRITE_BIT: u32 = 0x400;
pub const VK_ACCESS_TRANSFER_READ_BIT: u32 = 0x800;
pub const VK_ACCESS_TRANSFER_WRITE_BIT: u32 = 0x1000;
pub const VK_ACCESS_HOST_READ_BIT: u32 = 0x2000;
pub const VK_ACCESS_HOST_WRITE_BIT: u32 = 0x4000;
pub const VK_ACCESS_MEMORY_READ_BIT: u32 = 0x8000;
pub const VK_ACCESS_MEMORY_WRITE_BIT: u32 = 0x10000;

// ---------------------------------------------------------------------------
// Render-pass codes
// ---------------------------------------------------------------------------

pub const VK_ATTACHMENT_LOAD_OP_LOAD: u32 = 0;
pub const VK_ATTACHMENT_LOAD_OP_CLEAR: u32 = 1;
pub const VK_ATTACHMENT_LOAD_OP_DONT_CARE: u32 = 2;

pub const VK_ATTACHMENT_STORE_OP_STORE: u32 = 0;
pub const VK_ATTACHMENT_STORE_OP_DONT_CARE: u32 = 1;

pub const VK_SUBPASS_CONTENTS_INLINE: u32 = 0;
pub const VK_SUBPASS_CONTENTS_SECONDARY_COMMAND_BUFFERS: u32 = 1;

// ---------------------------------------------------------------------------
// Pipeline-state codes
// ---------------------------------------------------------------------------

pub const VK_POLYGON_MODE_FILL: u32 = 0;
pub const VK_POLYGON_MODE_LINE: u32 = 1;
pub const VK_POLYGON_MODE_POINT: u32 = 2;

pub const VK_CULL_MODE_NONE: u32 = 0;
pub const VK_CULL_MODE_FRONT_BIT: u32 = 0x1;
pub const VK_CULL_MODE_BACK_BIT: u32 = 0x2;
pub const VK_CULL_MODE_FRONT_AND_BACK: u32 = 0x3;

pub const VK_FRONT_FACE_COUNTER_CLOCKWISE: u32 = 0;
pub const VK_FRONT_FACE_CLOCKWISE: u32 = 1;

pub const VK_PRIMITIVE_TOPOLOGY_POINT_LIST: u32 = 0;
pub const VK_PRIMITIVE_TOPOLOGY_LINE_LIST: u32 = 1;
pub const VK_PRIMITIVE_TOPOLOGY_LINE_STRIP: u32 = 2;
pub const VK_PRIMITIVE_TOPOLOGY_TRIANGLE_LIST: u32 = 3;
pub const VK_PRIMITIVE_TOPOLOGY_TRIANGLE_STRIP: u32 = 4;
pub const VK_PRIMITIVE_TOPOLOGY_TRIANGLE_FAN: u32 = 5;
pub const VK_PRIMITIVE_TOPOLOGY_LINE_LIST_WITH_ADJACENCY: u32 = 6;
pub const VK_PRIMITIVE_TOPOLOGY_LINE_STRIP_WITH_ADJACENCY: u32 = 7;
pub const VK_PRIMITIVE_TOPOLOGY_TRIANGLE_LIST_WITH_ADJACENCY: u32 = 8;
pub const VK_PRIMITIVE_TOPOLOGY_TRIANGLE_STRIP_WITH_ADJACENCY: u32 = 9;
pub const VK_PRIMITIVE_TOPOLOGY_PATCH_LIST: u32 = 10;

pub const VK_COMPARE_OP_NEVER: u32 = 0;
pub const VK_COMPARE_OP_LESS: u32 = 1;
pub const VK_COMPARE_OP_EQUAL: u32 = 2;
pub const VK_COMPARE_OP_LESS_OR_EQUAL: u32 = 3;
pub const VK_COMPARE_OP_GREATER: u32 = 4;
pub const VK_COMPARE_OP_NOT_EQUAL: u32 = 5;
pub const VK_COMPARE_OP_GREATER_OR_EQUAL: u32 = 6;
pub const VK_COMPARE_OP_ALWAYS: u32 = 7;

pub const VK_COLOR_COMPONENT_R_BIT: u32 = 0x1;
pub const VK_COLOR_COMPONENT_G_BIT: u32 = 0x2;
pub const VK_COLOR_COMPONENT_B_BIT: u32 = 0x4;
pub const VK_COLOR_COMPONENT_A_BIT: u32 = 0x8;

// ---------------------------------------------------------------------------
// Component swizzle codes
// ---------------------------------------------------------------------------

pub const VK_COMPONENT_SWIZZLE_IDENTITY: u32 = 0;
pub const VK_COMPONENT_SWIZZLE_ZERO: u32 = 1;
pub const VK_COMPONENT_SWIZZLE_ONE: u32 = 2;
pub const VK_COMPONENT_SWIZZLE_R: u32 = 3;
pub const VK_COMPONENT_SWIZZLE_G: u32 = 4;
pub const VK_COMPONENT_SWIZZLE_B: u32 = 5;
pub const VK_COMPONENT_SWIZZLE_A: u32 = 6;

// ---------------------------------------------------------------------------
// Result codes
// ---------------------------------------------------------------------------

pub const VK_ERROR_OUT_OF_HOST_MEMORY: i32 = -1;
pub const VK_ERROR_OUT_OF_DEVICE_MEMORY: i32 = -2;
pub const VK_ERROR_INITIALIZATION_FAILED: i32 = -3;
pub const VK_ERROR_DEVICE_LOST: i32 = -4;
pub const VK_ERROR_EXTENSION_NOT_PRESENT: i32 = -7;
pub const VK_ERROR_FEATURE_NOT_PRESENT: i32 = -8;
pub const VK_ERROR_TOO_MANY_OBJECTS: i32 = -10;

// ---------------------------------------------------------------------------
// External structs
// ---------------------------------------------------------------------------

/// A two-dimensional extent in pixels.
#[derive(Clone, Copy, Debug, PartialEq, Eq, Structural)]
pub struct VkExtent2D {
    pub width: u32,
    pub height: u32,
}

/// A three-dimensional extent in pixels.
#[derive(Clone, Copy, Debug, PartialEq, Eq, Structural)]
pub struct VkExtent3D {
    pub width: u32,
    pub height: u32,
    pub depth: u32,
}

/// Per-channel swizzle codes for the four color channels.
#[derive(Clone, Copy, Debug, PartialEq, Eq, Structural)]
pub struct VkComponentMapping {
    pub r: u32,
    pub g: u32,
    pub b: u32,
    pub a: u32,
}

/// An aspect mask together with base+count selections of mip levels and
/// array layers.
#[derive(Clone, Copy, Debug, PartialEq, Eq, Structural)]
pub struct VkImageSubresourceRange {
    pub aspect_mask: u32,
    pub base_mip_level: u32,
    pub level_count: u32,
    pub base_array_layer: u32,
    pub layer_count: u32,
}

/// The capability bitmasks a pixel format offers under linear tiling,
/// optimal tiling, and as a buffer.
#[derive(Clone, Copy, Debug, PartialEq, Eq, Structural)]
pub struct VkFormatProperties {
    pub linear_tiling_features: u32,
    pub optimal_tiling_features: u32,
    pub buffer_features: u32,
}

} // verus!
