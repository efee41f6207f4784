//! Images: layout codes, aspect masks, subresource ranges, usage and access
//! bitmasks, and the derivation of an image's dimensionality kind.

use vstd::prelude::*;

use crate::error::ConvError;
use crate::vk;

verus! {

// ---------------------------------------------------------------------------
// Extents
// ---------------------------------------------------------------------------

/// An internal two-dimensional extent in pixels.
#[derive(Clone, Copy, Debug, PartialEq, Eq, Structural)]
pub struct Extent2d {
    pub width: u32,
    pub height: u32,
}

pub open spec fn spec_extent2d_from_hal(extent: Extent2d) -> vk::VkExtent2D {
    vk::VkExtent2D { width: extent.width, height: extent.height }
}

/// Translate an internal extent into the external struct, field by field.
pub fn extent2d_from_hal(extent: Extent2d) -> (r: vk::VkExtent2D)
    ensures
        r == spec_extent2d_from_hal(extent),
{
    vk::VkExtent2D { width: extent.width, height: extent.height }
}

// ---------------------------------------------------------------------------
// Image layouts
// ---------------------------------------------------------------------------

/// The internal image-layout vocabulary.
#[derive(Clone, Copy, Debug, PartialEq, Eq, Structural)]
pub enum ImageLayout {
    Undefined,
    General,
    ColorAttachmentOptimal,
    DepthStencilAttachmentOptimal,
    DepthStencilReadOnlyOptimal,
    ShaderReadOnlyOptimal,
    TransferSrcOptimal,
    TransferDstOptimal,
    Preinitialized,
    Present,
}

/// The internal layout for each external layout code; any code outside the
/// table is invalid input.
pub open spec fn spec_map_image_layout(layout: u32) -> Result<ImageLayout, ConvError> {
    if layout == vk::VK_IMAGE_LAYOUT_UNDEFINED {
        Ok(ImageLayout::Undefined)
    } else if layout == vk::VK_IMAGE_LAYOUT_GENERAL {
        Ok(ImageLayout::General)
    } else if layout == vk::VK_IMAGE_LAYOUT_COLOR_ATTACHMENT_OPTIMAL {
        Ok(ImageLayout::ColorAttachmentOptimal)
    } else if layout == vk::VK_IMAGE_LAYOUT_DEPTH_STENCIL_ATTACHMENT_OPTIMAL {
        Ok(ImageLayout::DepthStencilAttachmentOptimal)
    } else if layout == vk::VK_IMAGE_LAYOUT_DEPTH_STENCIL_READ_ONLY_OPTIMAL {
        Ok(ImageLayout::DepthStencilReadOnlyOptimal)
    } else if layout == vk::VK_IMAGE_LAYOUT_SHADER_READ_ONLY_OPTIMAL {
        Ok(ImageLayout::ShaderReadOnlyOptimal)
    } else if layout == vk::VK_IMAGE_LAYOUT_TRANSFER_SRC_OPTIMAL {
        Ok(ImageLayout::TransferSrcOptimal)
    } else if layout == vk::VK_IMAGE_LAYOUT_TRANSFER_DST_OPTIMAL {
        Ok(ImageLayout::TransferDstOptimal)
    } else if layout == vk::VK_IMAGE_LAYOUT_PREINITIALIZED {
        Ok(ImageLayout::Preinitialized)
    } else if layout == vk::VK_IMAGE_LAYOUT_PRESENT_SRC_KHR {
        Ok(ImageLayout::Present)
    } else {
        Err(ConvError::InvalidInput)
    }
}

/// Translate an external image-layout code into the internal layout.
pub fn map_image_layout(layout: u32) -> (r: Result<ImageLayout, ConvError>)
    ensures
        r == spec_map_image_layout(layout),
{
    if layout == vk::VK_IMAGE_LAYOUT_UNDEFINED {
        Ok(ImageLayout::Undefined)
    } else if layout == vk::VK_IMAGE_LAYOUT_GENERAL {
        Ok(ImageLayout::General)
    } else if layout == vk::VK_IMAGE_LAYOUT_COLOR_ATTACHMENT_OPTIMAL {
        Ok(ImageLayout::ColorAttachmentOptimal)
    } else if layout == vk::VK_IMAGE_LAYOUT_DEPTH_STENCIL_ATTACHMENT_OPTIMAL {
        Ok(ImageLayout::DepthStencilAttachmentOptimal)
    } else if layout == vk::VK_IMAGE_LAYOUT_DEPTH_STENCIL_READ_ONLY_OPTIMAL {
        Ok(ImageLayout::DepthStencilReadOnlyOptimal)
    } else if layout == vk::VK_IMAGE_LAYOUT_SHADER_READ_ONLY_OPTIMAL {
        Ok(ImageLayout::ShaderReadOnlyOptimal)
    } else if layout == vk::VK_IMAGE_LAYOUT_TRANSFER_SRC_OPTIMAL {
        Ok(ImageLayout::TransferSrcOptimal)
    } else if layout == vk::VK_IMAGE_LAYOUT_TRANSFER_DST_OPTIMAL {
        Ok(ImageLayout::TransferDstOptimal)
    } else if layout == vk::VK_IMAGE_LAYOUT_PREINITIALIZED {
        Ok(ImageLayout::Preinitialized)
    } else if layout == vk::VK_IMAGE_LAYOUT_PRESENT_SRC_KHR {
        Ok(ImageLayout::Present)
    } else {
        Err(ConvError::InvalidInput)
    }
}

// ---------------------------------------------------------------------------
// Aspect masks
// ---------------------------------------------------------------------------

/// External aspect bits with an internal counterpart.  The depth and stencil
/// bits both fold into the one internal depth-stencil aspect.
pub const ASPECT_MAPPED_MASK: u32 = 0x7;

/// The external metadata aspect bit: legal externally, not yet translated.
pub const ASPECT_UNIMPLEMENTED_MASK: u32 = 0x8;

/// External aspect bits outside the documented domain.
pub const ASPECT_UNRECOGNIZED_MASK: u32 = 0xFFFF_FFF0;

/// The internal aspect set.  One combined flag covers both the external
/// depth and stencil aspects.
#[derive(Clone, Copy, Debug, PartialEq, Eq, Structural)]
pub struct Aspects {
    pub color: bool,
    pub depth_stencil: bool,
}

/// The internal aspect set for an external aspect mask: the color bit keeps
/// its own flag, the depth and stencil bits fold into one combined flag, the
/// metadata bit is not yet supported, and any bit outside the documented
/// domain is invalid input.
pub open spec fn spec_map_aspect(aspects: u32) -> Result<Aspects, ConvError> {
    if aspects & ASPECT_UNRECOGNIZED_MASK != 0 {
        Err(ConvError::InvalidInput)
    } else if aspects & ASPECT_UNIMPLEMENTED_MASK != 0 {
        Err(ConvError::NotYetSupported)
    } else {
        Ok(
            Aspects {
                color: aspects & vk::VK_IMAGE_ASPECT_COLOR_BIT != 0,
                depth_stencil: aspects & vk::VK_IMAGE_ASPECT_DEPTH_BIT != 0 || aspects
                    & vk::VK_IMAGE_ASPECT_STENCIL_BIT != 0,
            },
        )
    }
}

/// Translate an external aspect mask into the internal aspect set.
pub fn map_aspect(aspects: u32) -> (r: Result<Aspects, ConvError>)
    ensures
        r == spec_map_aspect(aspects),
{
    if aspects & ASPECT_UNRECOGNIZED_MASK != 0 {
        Err(ConvError::InvalidInput)
    } else if aspects & ASPECT_UNIMPLEMENTED_MASK != 0 {
        Err(ConvError::NotYetSupported)
    } else {
        Ok(
            Aspects {
                color: aspects & vk::VK_IMAGE_ASPECT_COLOR_BIT != 0,
                depth_stencil: aspects & vk::VK_IMAGE_ASPECT_DEPTH_BIT != 0 || aspects
                    & vk::VK_IMAGE_ASPECT_STENCIL_BIT != 0,
            },
        )
    }
}

/// Law: an aspect mask translates exactly when it holds only mapped bits;
/// the color flag follows the color bit, and the combined depth-stencil flag
/// follows the union of the depth and stencil bits.
pub proof fn lemma_aspect_accumulation(aspects: u32)
    ensures
        spec_map_aspect(aspects) is Ok <==> aspects & ASPECT_MAPPED_MASK == aspects,
        (spec_map_aspect(aspects) matches Ok(a) ==> ((a.color <==> aspects
            & vk::VK_IMAGE_ASPECT_COLOR_BIT != 0) && (a.depth_stencil <==> (aspects
            & vk::VK_IMAGE_ASPECT_DEPTH_BIT != 0 || aspects & vk::VK_IMAGE_ASPECT_STENCIL_BIT
            != 0)))),
{
    assert((aspects & 0xFFFF_FFF0u32 == 0 && aspects & 0x8u32 == 0) <==> aspects & 0x7u32
        == aspects) by (bit_vector);
}

/// Law: an aspect mask holding any bit outside the mapped table fails; no
/// bit is silently dropped.
pub proof fn lemma_aspect_rejects_unrecognized(aspects: u32)
    requires
        aspects & ASPECT_MAPPED_MASK != aspects,
    ensures
        spec_map_aspect(aspects) is Err,
{
    lemma_aspect_accumulation(aspects);
}

// ---------------------------------------------------------------------------
// Subresource ranges
// ---------------------------------------------------------------------------

/// A half-open range of mip levels or array layers: `start` is selected,
/// `end` is not.  An empty range is legal and selects nothing.
#[derive(Clone, Copy, Debug, PartialEq, Eq, Structural)]
pub struct HalfOpenRange {
    pub start: u32,
    pub end: u32,
}

/// The internal subresource selection: an aspect set and half-open level
/// and layer ranges.
#[derive(Clone, Copy, Debug, PartialEq, Eq, Structural)]
pub struct SubresourceRange {
    pub aspects: Aspects,
    pub levels: HalfOpenRange,
    pub layers: HalfOpenRange,
}

/// The internal range for an external base+count selection: each half-open
/// range runs from the base to the base plus the count, and the aspect mask
/// translates as [`spec_map_aspect`] says.
pub open spec fn spec_map_subresource_range(subresource: vk::VkImageSubresourceRange) -> Result<
    SubresourceRange,
    ConvError,
> {
    match spec_map_aspect(subresource.aspect_mask) {
        Ok(aspects) => Ok(
            SubresourceRange {
                aspects,
                levels: HalfOpenRange {
                    start: subresource.base_mip_level,
                    end: (subresource.base_mip_level + subresource.level_count) as u32,
                },
                layers: HalfOpenRange {
                    start: subresource.base_array_layer,
                    end: (subresource.base_array_layer + subresource.layer_count) as u32,
                },
            },
        ),
        Err(e) => Err(e),
    }
}

/// Translate an external base+count subresource selection into the internal
/// half-open ranges.  The sums must fit the external count type; that is a
/// machine limit, not a policy.
pub fn map_subresource_range(subresource: vk::VkImageSubresourceRange) -> (r: Result<
    SubresourceRange,
    ConvError,
>)
    requires
        subresource.base_mip_level + subresource.level_count <= u32::MAX,
        subresource.base_array_layer + subresource.layer_count <= u32::MAX,
    ensures
        r == spec_map_subresource_range(subresource),
        (r matches Ok(range) ==> range.levels.end == subresource.base_mip_level
            + subresource.level_count && range.layers.end == subresource.base_array_layer
            + subresource.layer_count),
{
    let aspects = match map_aspect(subresource.aspect_mask) {
        Ok(a) => a,
        Err(e) => {
            return Err(e);
        },
    };
    Ok(
        SubresourceRange {
            aspects,
            levels: HalfOpenRange {
                start: subresource.base_mip_level,
                end: subresource.base_mip_level + subresource.level_count,
            },
            layers: HalfOpenRange {
                start: subresource.base_array_layer,
                end: subresource.base_array_layer + subresource.layer_count,
            },
        },
    )
}

// ---------------------------------------------------------------------------
// Multisampling and image kinds
// ---------------------------------------------------------------------------

/// The internal anti-aliasing mode: single-sampled, or multisampled with the
/// external sample count carried through.
#[derive(Clone, Copy, Debug, PartialEq, Eq, Structural)]
pub enum AaMode {
    Single,
    Multi(u32),
}

pub open spec fn spec_map_aa_mode(samples: u32) -> AaMode {
    if samples == vk::VK_SAMPLE_COUNT_1_BIT {
        AaMode::Single
    } else {
        AaMode::Multi(samples)
    }
}

/// Translate an external sample count into the internal anti-aliasing mode.
pub fn map_aa_mode(samples: u32) -> (r: AaMode)
    ensures
        r == spec_map_aa_mode(samples),
{
    if samples == vk::VK_SAMPLE_COUNT_1_BIT {
        AaMode::Single
    } else {
        AaMode::Multi(samples)
    }
}

/// The internal dimensionality of an image: width, height and depth in
/// pixels, array layers, cube faces grouped six to a cube.
#[derive(Clone, Copy, Debug, PartialEq, Eq, Structural)]
pub enum Kind {
    D1(u32),
    D1Array(u32, u32),
    D2(u32, u32, AaMode),
    D2Array(u32, u32, u32, AaMode),
    Cube(u32),
    CubeArray(u32, u32),
    D3(u32, u32, u32),
}

impl Kind {
    /// Well-formedness of a derived kind: the arrayed variants carry more
    /// than one layer (a single layer derives the plain variant), and a cube
    /// array carries more than one cube (a single cube derives `Cube`).
    pub open spec fn wf(self) -> bool {
        match self {
            Kind::D1Array(_, layers) => layers >= 2,
            Kind::D2Array(_, _, layers, _) => layers >= 2,
            Kind::CubeArray(_, cubes) => cubes >= 2,
            _ => true,
        }
    }
}

/// The internal kind derived from the external type, creation flags, extent,
/// layer count and sample count.
///
/// A zero layer count is invalid input, as is the cube-compatible flag with
/// a layer count that is no multiple of six.  A one-dimensional type yields
/// the plain or the arrayed one-dimensional kind by its layer count; a
/// two-dimensional type yields, in this order, the plain kind for a single
/// layer, a cube for exactly six layers under the cube-compatible flag, a
/// cube array for larger multiples of six under that flag, and otherwise
/// the arrayed kind; a three-dimensional type yields the volume kind and
/// ignores array layers.  Any other type code is invalid input.
pub open spec fn spec_map_image_kind(
    ty: u32,
    flags: u32,
    extent: vk::VkExtent3D,
    array_layers: u32,
    samples: u32,
) -> Result<Kind, ConvError> {
    let is_cube = flags & vk::VK_IMAGE_CREATE_CUBE_COMPATIBLE_BIT != 0;
    if array_layers == 0 {
        Err(ConvError::InvalidInput)
    } else if is_cube && array_layers % 6 != 0 {
        Err(ConvError::InvalidInput)
    } else if ty == vk::VK_IMAGE_TYPE_1D {
        if array_layers == 1 {
            Ok(Kind::D1(extent.width))
        } else {
            Ok(Kind::D1Array(extent.width, array_layers))
        }
    } else if ty == vk::VK_IMAGE_TYPE_2D {
        if array_layers == 1 {
            Ok(Kind::D2(extent.width, extent.height, spec_map_aa_mode(samples)))
        } else if is_cube && array_layers == 6 {
            Ok(Kind::Cube(extent.width))
        } else if is_cube {
            Ok(Kind::CubeArray(extent.width, (array_layers / 6) as u32))
        } else {
            Ok(Kind::D2Array(extent.width, extent.height, array_layers, spec_map_aa_mode(samples)))
        }
    } else if ty == vk::VK_IMAGE_TYPE_3D {
        Ok(Kind::D3(extent.width, extent.height, extent.depth))
    } else {
        Err(ConvError::InvalidInput)
    }
}

/// Derive the internal image kind from the external creation parameters.
pub fn map_image_kind(
    ty: u32,
    flags: u32,
    extent: vk::VkExtent3D,
    array_layers: u32,
    samples: u32,
) -> (r: Result<Kind, ConvError>)
    ensures
        r == spec_map_image_kind(ty, flags, extent, array_layers, samples),
        (r matches Ok(kind) ==> kind.wf()),
{
    let is_cube = flags & vk::VK_IMAGE_CREATE_CUBE_COMPATIBLE_BIT != 0;
    if array_layers == 0 {
        Err(ConvError::InvalidInput)
    } else if is_cube && array_layers % 6 != 0 {
        Err(ConvError::InvalidInput)
    } else if ty == vk::VK_IMAGE_TYPE_1D {
        if array_layers == 1 {
            Ok(Kind::D1(extent.width))
        } else {
            Ok(Kind::D1Array(extent.width, array_layers))
        }
    } else if ty == vk::VK_IMAGE_TYPE_2D {
        if array_layers == 1 {
            Ok(Kind::D2(extent.width, extent.height, map_aa_mode(samples)))
        } else if is_cube && array_layers == 6 {
            Ok(Kind::Cube(extent.width))
        } else if is_cube {
            proof {
                // The cube branches run under array_layers % 6 == 0 with the
                // single-cube and zero cases already gone, so at least two
                // whole cubes remain.
                assert(array_layers >= 12);
                assert(array_layers / 6 >= 2);
            }
            Ok(Kind::CubeArray(extent.width, array_layers / 6))
        } else {
            Ok(Kind::D2Array(extent.width, extent.height, array_layers, map_aa_mode(samples)))
        }
    } else if ty == vk::VK_IMAGE_TYPE_3D {
        Ok(Kind::D3(extent.width, extent.height, extent.depth))
    } else {
        Err(ConvError::InvalidInput)
    }
}

// ---------------------------------------------------------------------------
// Image usage bitmasks
// ---------------------------------------------------------------------------

/// External image-usage bits with an internal counterpart.
pub const IMAGE_USAGE_MAPPED_MASK: u32 = 0x3F;

/// The transient-attachment and input-attachment bits: legal externally,
/// not yet translated.
pub const IMAGE_USAGE_UNIMPLEMENTED_MASK: u32 = 0xC0;

/// External image-usage bits outside the documented domain.
pub const IMAGE_USAGE_UNRECOGNIZED_MASK: u32 = 0xFFFF_FF00;

/// The internal image-usage set.
#[derive(Clone, Copy, Debug, PartialEq, Eq, Structural)]
pub struct ImageUsage {
    pub transfer_src: bool,
    pub transfer_dst: bool,
    pub sampled: bool,
    pub storage: bool,
    pub color_attachment: bool,
    pub depth_stencil_attachment: bool,
}

/// The internal usage set for an external usage mask: one flag per mapped
/// bit; the transient-attachment and input-attachment bits are not yet
/// supported, and any bit outside the documented domain is invalid input.
pub open spec fn spec_map_image_usage(usage: u32) -> Result<ImageUsage, ConvError> {
    if usage & IMAGE_USAGE_UNRECOGNIZED_MASK != 0 {
        Err(ConvError::InvalidInput)
    } else if usage & IMAGE_USAGE_UNIMPLEMENTED_MASK != 0 {
        Err(ConvError::NotYetSupported)
    } else {
        Ok(
            ImageUsage {
                transfer_src: usage & vk::VK_IMAGE_USAGE_TRANSFER_SRC_BIT != 0,
                transfer_dst: usage & vk::VK_IMAGE_USAGE_TRANSFER_DST_BIT != 0,
                sampled: usage & vk::VK_IMAGE_USAGE_SAMPLED_BIT != 0,
                storage: usage & vk::VK_IMAGE_USAGE_STORAGE_BIT != 0,
                color_attachment: usage & vk::VK_IMAGE_USAGE_COLOR_ATTACHMENT_BIT != 0,
                depth_stencil_attachment: usage & vk::VK_IMAGE_USAGE_DEPTH_STENCIL_ATTACHMENT_BIT
                    != 0,
            },
        )
    }
}

/// Translate an external image-usage mask into the internal usage set.
pub fn map_image_usage(usage: u32) -> (r: Result<ImageUsage, ConvError>)
    ensures
        r == spec_map_image_usage(usage),
{
    if usage & IMAGE_USAGE_UNRECOGNIZED_MASK != 0 {
        Err(ConvError::InvalidInput)
    } else if usage & IMAGE_USAGE_UNIMPLEMENTED_MASK != 0 {
        Err(ConvError::NotYetSupported)
    } else {
        Ok(
            ImageUsage {
                transfer_src: usage & vk::VK_IMAGE_USAGE_TRANSFER_SRC_BIT != 0,
                transfer_dst: usage & vk::VK_IMAGE_USAGE_TRANSFER_DST_BIT != 0,
                sampled: usage & vk::VK_IMAGE_USAGE_SAMPLED_BIT != 0,
                storage: usage & vk::VK_IMAGE_USAGE_STORAGE_BIT != 0,
                color_attachment: usage & vk::VK_IMAGE_USAGE_COLOR_ATTACHMENT_BIT != 0,
                depth_stencil_attachment: usage & vk::VK_IMAGE_USAGE_DEPTH_STENCIL_ATTACHMENT_BIT
                    != 0,
            },
        )
    }
}

/// Law: an image-usage mask translates exactly when it holds only mapped
/// bits, and the translated set then holds exactly the flags whose external
/// bit is set: no spurious flags, no omissions.
pub proof fn lemma_image_usage_accumulation(usage: u32)
    ensures
        spec_map_image_usage(usage) is Ok <==> usage & IMAGE_USAGE_MAPPED_MASK == usage,
        (spec_map_image_usage(usage) matches Ok(u) ==> ((u.transfer_src <==> usage
            & vk::VK_IMAGE_USAGE_TRANSFER_SRC_BIT != 0) && (u.transfer_dst <==> usage
            & vk::VK_IMAGE_USAGE_TRANSFER_DST_BIT != 0) && (u.sampled <==> usage
            & vk::VK_IMAGE_USAGE_SAMPLED_BIT != 0) && (u.storage <==> usage
            & vk::VK_IMAGE_USAGE_STORAGE_BIT != 0) && (u.color_attachment <==> usage
            & vk::VK_IMAGE_USAGE_COLOR_ATTACHMENT_BIT != 0) && (u.depth_stencil_attachment
            <==> usage & vk::VK_IMAGE_USAGE_DEPTH_STENCIL_ATTACHMENT_BIT != 0))),
{
    assert((usage & 0xFFFF_FF00u32 == 0 && usage & 0xC0u32 == 0) <==> usage & 0x3Fu32 == usage)
        by (bit_vector);
}

/// Law: an image-usage mask holding any bit outside the mapped table fails;
/// no bit is silently dropped.
pub proof fn lemma_image_usage_rejects_unrecognized(usage: u32)
    requires
        usage & IMAGE_USAGE_MAPPED_MASK != usage,
    ensures
        spec_map_image_usage(usage) is Err,
{
    lemma_image_usage_accumulation(usage);
}

// ---------------------------------------------------------------------------
// Image access bitmasks
// ---------------------------------------------------------------------------

/// External access bits with an internal image-access counterpart.
pub const ACCESS_MAPPED_MASK: u32 = 0x1_FFF0;

/// The four buffer-only access bits (indirect-command, index,
/// vertex-attribute and uniform reads): legal externally, with no internal
/// image-access counterpart yet.
pub const ACCESS_UNIMPLEMENTED_MASK: u32 = 0xF;

/// External access bits outside the documented domain.
pub const ACCESS_UNRECOGNIZED_MASK: u32 = 0xFFFE_0000;

/// The internal image-access set.
#[derive(Clone, Copy, Debug, PartialEq, Eq, Structural)]
pub struct Access {
    pub input_attachment_read: bool,
    pub shader_read: bool,
    pub shader_write: bool,
    pub color_attachment_read: bool,
    pub color_attachment_write: bool,
    pub depth_stencil_attachment_read: bool,
    pub depth_stencil_attachment_write: bool,
    pub transfer_read: bool,
    pub transfer_write: bool,
    pub host_read: bool,
    pub host_write: bool,
    pub memory_read: bool,
    pub memory_write: bool,
}

/// The internal access set for an external access mask: one flag per mapped
/// bit; the buffer-only access bits are not yet supported here, and any bit
/// outside the documented domain is invalid input.
pub open spec fn spec_map_image_acces(access: u32) -> Result<Access, ConvError> {
    if access & ACCESS_UNRECOGNIZED_MASK != 0 {
        Err(ConvError::InvalidInput)
    } else if access & ACCESS_UNIMPLEMENTED_MASK != 0 {
        Err(ConvError::NotYetSupported)
    } else {
        Ok(
            Access {
                input_attachment_read: access & vk::VK_ACCESS_INPUT_ATTACHMENT_READ_BIT != 0,
                shader_read: access & vk::VK_ACCESS_SHADER_READ_BIT != 0,
                shader_write: access & vk::VK_ACCESS_SHADER_WRITE_BIT != 0,
                color_attachment_read: access & vk::VK_ACCESS_COLOR_ATTACHMENT_READ_BIT != 0,
                color_attachment_write: access & vk::VK_ACCESS_COLOR_ATTACHMENT_WRITE_BIT != 0,
                depth_stencil_attachment_read: access
                    & vk::VK_ACCESS_DEPTH_STENCIL_ATTACHMENT_READ_BIT != 0,
                depth_stencil_attachment_write: access
                    & vk::VK_ACCESS_DEPTH_STENCIL_ATTACHMENT_WRITE_BIT != 0,
                transfer_read: access & vk::VK_ACCESS_TRANSFER_READ_BIT != 0,
                transfer_write: access & vk::VK_ACCESS_TRANSFER_WRITE_BIT != 0,
                host_read: access & vk::VK_ACCESS_HOST_READ_BIT != 0,
                host_write: access & vk::VK_ACCESS_HOST_WRITE_BIT != 0,
                memory_read: access & vk::VK_ACCESS_MEMORY_READ_BIT != 0,
                memory_write: access & vk::VK_ACCESS_MEMORY_WRITE_BIT != 0,
            },
        )
    }
}

/// Translate an external access mask into the internal image-access set.
pub fn map_image_acces(access: u32) -> (r: Result<Access, ConvError>)
    ensures
        r == spec_map_image_acces(access),
{
    if access & ACCESS_UNRECOGNIZED_MASK != 0 {
        Err(ConvError::InvalidInput)
    } else if access & ACCESS_UNIMPLEMENTED_MASK != 0 {
        Err(ConvError::NotYetSupported)
    } else {
        Ok(
            Access {
                input_attachment_read: access & vk::VK_ACCESS_INPUT_ATTACHMENT_READ_BIT != 0,
                shader_read: access & vk::VK_ACCESS_SHADER_READ_BIT != 0,
                shader_write: access & vk::VK_ACCESS_SHADER_WRITE_BIT != 0,
                color_attachment_read: access & vk::VK_ACCESS_COLOR_ATTACHMENT_READ_BIT != 0,
                color_attachment_write: access & vk::VK_ACCESS_COLOR_ATTACHMENT_WRITE_BIT != 0,
                depth_stencil_attachment_read: access
                    & vk::VK_ACCESS_DEPTH_STENCIL_ATTACHMENT_READ_BIT != 0,
                depth_stencil_attachment_write: access
                    & vk::VK_ACCESS_DEPTH_STENCIL_ATTACHMENT_WRITE_BIT != 0,
                transfer_read: access & vk::VK_ACCESS_TRANSFER_READ_BIT != 0,
                transfer_write: access & vk::VK_ACCESS_TRANSFER_WRITE_BIT != 0,
                host_read: access & vk::VK_ACCESS_HOST_READ_BIT != 0,
                host_write: access & vk::VK_ACCESS_HOST_WRITE_BIT != 0,
                memory_read: access & vk::VK_ACCESS_MEMORY_READ_BIT != 0,
                memory_write: access & vk::VK_ACCESS_MEMORY_WRITE_BIT != 0,
            },
        )
    }
}

/// Law: an access mask translates exactly when it holds only mapped bits,
/// and the translated set then holds exactly the flags whose external bit
/// is set: no spurious flags, no omissions.
pub proof fn lemma_image_access_accumulation(access: u32)
    ensures
        spec_map_image_acces(access) is Ok <==> access & ACCESS_MAPPED_MASK == access,
        (spec_map_image_acces(access) matches Ok(a) ==> ((a.input_attachment_read <==> access
            & vk::VK_ACCESS_INPUT_ATTACHMENT_READ_BIT != 0) && (a.shader_read <==> access
            & vk::VK_ACCESS_SHADER_READ_BIT != 0) && (a.shader_write <==> access
            & vk::VK_ACCESS_SHADER_WRITE_BIT != 0) && (a.color_attachment_read <==> access
            & vk::VK_ACCESS_COLOR_ATTACHMENT_READ_BIT != 0) && (a.color_attachment_write
            <==> access & vk::VK_ACCESS_COLOR_ATTACHMENT_WRITE_BIT != 0) && (
        a.depth_stencil_attachment_read <==> access
            & vk::VK_ACCESS_DEPTH_STENCIL_ATTACHMENT_READ_BIT != 0) && (
        a.depth_stencil_attachment_write <==> access
            & vk::VK_ACCESS_DEPTH_STENCIL_ATTACHMENT_WRITE_BIT != 0) && (a.transfer_read
            <==> access & vk::VK_ACCESS_TRANSFER_READ_BIT != 0) && (a.transfer_write <==> access
            & vk::VK_ACCESS_TRANSFER_WRITE_BIT != 0) && (a.host_read <==> access
            & vk::VK_ACCESS_HOST_READ_BIT != 0) && (a.host_write <==> access
            & vk::VK_ACCESS_HOST_WRITE_BIT != 0) && (a.memory_read <==> access
            & vk::VK_ACCESS_MEMORY_READ_BIT != 0) && (a.memory_write <==> access
            & vk::VK_ACCESS_MEMORY_WRITE_BIT != 0))),
{
    assert((access & 0xFFFE_0000u32 == 0 && access & 0xFu32 == 0) <==> access & 0x1_FFF0u32
        == access) by (bit_vector);
}

/// Law: an access mask holding any bit outside the mapped table fails; no
/// bit is silently dropped.
pub proof fn lemma_image_access_rejects_unrecognized(access: u32)
    requires
        access & ACCESS_MAPPED_MASK != access,
    ensures
        spec_map_image_acces(access) is Err,
{
    lemma_image_access_accumulation(access);
}

} // verus!
