//! Pixel formats, their capability flags, and channel swizzles.

use vstd::prelude::*;

use crate::error::ConvError;
use crate::vk;

verus! {

/// Number of pixel-format codes in the external enumeration, the "undefined"
/// sentinel included.  Every code below this count has an internal
/// counterpart except the sentinel itself.
pub const NUM_FORMATS: u32 = 185;

/// An internal pixel format.
///
/// By explicit convention the internal format enumeration keeps its ordinal
/// numbering in lockstep with the external one, so a format is carried as
/// its code.  `wf` excludes the external "undefined" sentinel, which has no
/// internal counterpart, and every code at or beyond the known count.
#[derive(Clone, Copy, Debug, PartialEq, Eq, Structural)]
pub struct Format {
    pub code: u32,
}

impl Format {
    pub open spec fn wf(self) -> bool {
        0 < self.code < NUM_FORMATS
    }
}

/// What translating an external format code yields: `Ok(None)` for the
/// "undefined" sentinel, the same-numbered internal format for the rest of
/// the domain, and invalid input beyond the known count.
pub open spec fn spec_map_format(code: u32) -> Result<Option<Format>, ConvError> {
    if code == vk::VK_FORMAT_UNDEFINED {
        Ok(None)
    } else if code < NUM_FORMATS {
        Ok(Some((Format { code })))
    } else {
        Err(ConvError::InvalidInput)
    }
}

/// Translate an external pixel-format code into the internal format.
pub fn map_format(code: u32) -> (r: Result<Option<Format>, ConvError>)
    ensures
        r == spec_map_format(code),
        (r matches Ok(Some(f)) ==> f.wf()),
{
    if code == vk::VK_FORMAT_UNDEFINED {
        Ok(None)
    } else if code < NUM_FORMATS {
        Ok(Some(Format { code }))
    } else {
        Err(ConvError::InvalidInput)
    }
}

pub open spec fn spec_format_from_hal(format: Format) -> u32 {
    format.code
}

/// Translate an internal format back into its external code; the two
/// enumerations share their numbering, so this is the identity on the code.
pub fn format_from_hal(format: Format) -> (r: u32)
    requires
        format.wf(),
    ensures
        r == spec_format_from_hal(format),
        0 < r < NUM_FORMATS,
{
    format.code
}

/// Law: every external pixel-format code in the valid range, the "undefined"
/// sentinel excepted, survives the external -> internal -> external round
/// trip unchanged.
pub proof fn lemma_format_round_trip(code: u32)
    requires
        0 < code < NUM_FORMATS,
    ensures
        spec_map_format(code) == Ok::<Option<Format>, ConvError>(Some((Format { code }))),
        spec_format_from_hal((Format { code })) == code,
{
}

/// Law: the external "undefined" format code maps to no internal format, and
/// no well-formed internal format maps back to it.
pub proof fn lemma_format_undefined_sentinel(format: Format)
    requires
        format.wf(),
    ensures
        spec_map_format(vk::VK_FORMAT_UNDEFINED) == Ok::<Option<Format>, ConvError>(None),
        spec_format_from_hal(format) != vk::VK_FORMAT_UNDEFINED,
{
}

// ---------------------------------------------------------------------------
// Format capability flags
// ---------------------------------------------------------------------------

/// The internal set of capabilities a format offers when used as an image.
/// Each member is one named capability; the set carries no bit positions of
/// its own.
#[derive(Clone, Copy, Debug, PartialEq, Eq, Structural)]
pub struct ImageFeatures {
    pub sampled: bool,
    pub storage: bool,
    pub storage_atomic: bool,
    pub color_attachment: bool,
    pub color_attachment_blend: bool,
    pub depth_stencil_attachment: bool,
    pub blit_src: bool,
    pub blit_dst: bool,
    pub sampled_linear: bool,
}

/// The internal set of capabilities a format offers when used as a buffer.
#[derive(Clone, Copy, Debug, PartialEq, Eq, Structural)]
pub struct BufferFeatures {
    pub uniform_texel: bool,
    pub storage_texel: bool,
    pub storage_texel_atomic: bool,
    pub vertex: bool,
}

/// The internal capability sets of one format under each tiling and as a
/// buffer.
#[derive(Clone, Copy, Debug, PartialEq, Eq, Structural)]
pub struct Properties {
    pub linear_tiling: ImageFeatures,
    pub optimal_tiling: ImageFeatures,
    pub buffer_features: BufferFeatures,
}

/// The external bitmask equivalent to an internal image-capability set: the
/// union of the external bits whose capability is a member of the set.
pub open spec fn spec_image_features_from_hal(features: ImageFeatures) -> u32 {
    (if features.sampled { vk::VK_FORMAT_FEATURE_SAMPLED_IMAGE_BIT } else { 0u32 })
        | (if features.storage { vk::VK_FORMAT_FEATURE_STORAGE_IMAGE_BIT } else { 0u32 })
        | (if features.storage_atomic { vk::VK_FORMAT_FEATURE_STORAGE_IMAGE_ATOMIC_BIT } else { 0u32 })
        | (if features.color_attachment { vk::VK_FORMAT_FEATURE_COLOR_ATTACHMENT_BIT } else { 0u32 })
        | (if features.color_attachment_blend { vk::VK_FORMAT_FEATURE_COLOR_ATTACHMENT_BLEND_BIT } else { 0u32 })
        | (if features.depth_stencil_attachment { vk::VK_FORMAT_FEATURE_DEPTH_STENCIL_ATTACHMENT_BIT } else { 0u32 })
        | (if features.blit_src { vk::VK_FORMAT_FEATURE_BLIT_SRC_BIT } else { 0u32 })
        | (if features.blit_dst { vk::VK_FORMAT_FEATURE_BLIT_DST_BIT } else { 0u32 })
        | (if features.sampled_linear { vk::VK_FORMAT_FEATURE_SAMPLED_IMAGE_FILTER_LINEAR_BIT } else { 0u32 })
}

/// Translate an internal image-capability set into the external bitmask.
pub fn image_features_from_hal(features: ImageFeatures) -> (r: u32)
    ensures
        r == spec_image_features_from_hal(features),
{
    (if features.sampled { vk::VK_FORMAT_FEATURE_SAMPLED_IMAGE_BIT } else { 0u32 })
        | (if features.storage { vk::VK_FORMAT_FEATURE_STORAGE_IMAGE_BIT } else { 0u32 })
        | (if features.storage_atomic { vk::VK_FORMAT_FEATURE_STORAGE_IMAGE_ATOMIC_BIT } else { 0u32 })
        | (if features.color_attachment { vk::VK_FORMAT_FEATURE_COLOR_ATTACHMENT_BIT } else { 0u32 })
        | (if features.color_attachment_blend { vk::VK_FORMAT_FEATURE_COLOR_ATTACHMENT_BLEND_BIT } else { 0u32 })
        | (if features.depth_stencil_attachment { vk::VK_FORMAT_FEATURE_DEPTH_STENCIL_ATTACHMENT_BIT } else { 0u32 })
        | (if features.blit_src { vk::VK_FORMAT_FEATURE_BLIT_SRC_BIT } else { 0u32 })
        | (if features.blit_dst { vk::VK_FORMAT_FEATURE_BLIT_DST_BIT } else { 0u32 })
        | (if features.sampled_linear { vk::VK_FORMAT_FEATURE_SAMPLED_IMAGE_FILTER_LINEAR_BIT } else { 0u32 })
}

/// Law: the external bitmask built from an internal image-capability set
/// holds exactly the bits whose capability is a member of the set: no
/// spurious bits, no omissions.
pub proof fn lemma_image_features_exact_bits(features: ImageFeatures)
    ensures
        spec_image_features_from_hal(features) & vk::VK_FORMAT_FEATURE_SAMPLED_IMAGE_BIT != 0
            <==> features.sampled,
        spec_image_features_from_hal(features) & vk::VK_FORMAT_FEATURE_STORAGE_IMAGE_BIT != 0
            <==> features.storage,
        spec_image_features_from_hal(features) & vk::VK_FORMAT_FEATURE_STORAGE_IMAGE_ATOMIC_BIT
            != 0 <==> features.storage_atomic,
        spec_image_features_from_hal(features) & vk::VK_FORMAT_FEATURE_COLOR_ATTACHMENT_BIT != 0
            <==> features.color_attachment,
        spec_image_features_from_hal(features) & vk::VK_FORMAT_FEATURE_COLOR_ATTACHMENT_BLEND_BIT
            != 0 <==> features.color_attachment_blend,
        spec_image_features_from_hal(features)
            & vk::VK_FORMAT_FEATURE_DEPTH_STENCIL_ATTACHMENT_BIT != 0
            <==> features.depth_stencil_attachment,
        spec_image_features_from_hal(features) & vk::VK_FORMAT_FEATURE_BLIT_SRC_BIT != 0
            <==> features.blit_src,
        spec_image_features_from_hal(features) & vk::VK_FORMAT_FEATURE_BLIT_DST_BIT != 0
            <==> features.blit_dst,
        spec_image_features_from_hal(features)
            & vk::VK_FORMAT_FEATURE_SAMPLED_IMAGE_FILTER_LINEAR_BIT != 0
            <==> features.sampled_linear,
{
    let t1: u32 = if features.sampled { 0x1 } else { 0 };
    let t2: u32 = if features.storage { 0x2 } else { 0 };
    let t3: u32 = if features.storage_atomic { 0x4 } else { 0 };
    let t4: u32 = if features.color_attachment { 0x80 } else { 0 };
    let t5: u32 = if features.color_attachment_blend { 0x100 } else { 0 };
    let t6: u32 = if features.depth_stencil_attachment { 0x200 } else { 0 };
    let t7: u32 = if features.blit_src { 0x400 } else { 0 };
    let t8: u32 = if features.blit_dst { 0x800 } else { 0 };
    let t9: u32 = if features.sampled_linear { 0x1000 } else { 0 };
    assert(spec_image_features_from_hal(features) == t1 | t2 | t3 | t4 | t5 | t6 | t7 | t8 | t9);
    assert(((t1 | t2 | t3 | t4 | t5 | t6 | t7 | t8 | t9) & 0x1u32 != 0 <==> t1 != 0) && ((t1 | t2
        | t3 | t4 | t5 | t6 | t7 | t8 | t9) & 0x2u32 != 0 <==> t2 != 0) && ((t1 | t2 | t3 | t4
        | t5 | t6 | t7 | t8 | t9) & 0x4u32 != 0 <==> t3 != 0) && ((t1 | t2 | t3 | t4 | t5 | t6
        | t7 | t8 | t9) & 0x80u32 != 0 <==> t4 != 0) && ((t1 | t2 | t3 | t4 | t5 | t6 | t7 | t8
        | t9) & 0x100u32 != 0 <==> t5 != 0) && ((t1 | t2 | t3 | t4 | t5 | t6 | t7 | t8 | t9)
        & 0x200u32 != 0 <==> t6 != 0) && ((t1 | t2 | t3 | t4 | t5 | t6 | t7 | t8 | t9) & 0x400u32
        != 0 <==> t7 != 0) && ((t1 | t2 | t3 | t4 | t5 | t6 | t7 | t8 | t9) & 0x800u32 != 0
        <==> t8 != 0) && ((t1 | t2 | t3 | t4 | t5 | t6 | t7 | t8 | t9) & 0x1000u32 != 0 <==> t9
        != 0)) by (bit_vector)
        requires
            t1 == 0x1u32 || t1 == 0u32,
            t2 == 0x2u32 || t2 == 0u32,
            t3 == 0x4u32 || t3 == 0u32,
            t4 == 0x80u32 || t4 == 0u32,
            t5 == 0x100u32 || t5 == 0u32,
            t6 == 0x200u32 || t6 == 0u32,
            t7 == 0x400u32 || t7 == 0u32,
            t8 == 0x800u32 || t8 == 0u32,
            t9 == 0x1000u32 || t9 == 0u32,
    ;
}

/// The external bitmask equivalent to an internal buffer-capability set.
pub open spec fn spec_buffer_features_from_hal(features: BufferFeatures) -> u32 {
    (if features.uniform_texel { vk::VK_FORMAT_FEATURE_UNIFORM_TEXEL_BUFFER_BIT } else { 0u32 })
        | (if features.storage_texel { vk::VK_FORMAT_FEATURE_STORAGE_TEXEL_BUFFER_BIT } else { 0u32 })
        | (if features.storage_texel_atomic { vk::VK_FORMAT_FEATURE_STORAGE_TEXEL_BUFFER_ATOMIC_BIT } else { 0u32 })
        | (if features.vertex { vk::VK_FORMAT_FEATURE_VERTEX_BUFFER_BIT } else { 0u32 })
}

/// Translate an internal buffer-capability set into the external bitmask.
pub fn buffer_features_from_hal(features: BufferFeatures) -> (r: u32)
    ensures
        r == spec_buffer_features_from_hal(features),
{
    (if features.uniform_texel { vk::VK_FORMAT_FEATURE_UNIFORM_TEXEL_BUFFER_BIT } else { 0u32 })
        | (if features.storage_texel { vk::VK_FORMAT_FEATURE_STORAGE_TEXEL_BUFFER_BIT } else { 0u32 })
        | (if features.storage_texel_atomic { vk::VK_FORMAT_FEATURE_STORAGE_TEXEL_BUFFER_ATOMIC_BIT } else { 0u32 })
        | (if features.vertex { vk::VK_FORMAT_FEATURE_VERTEX_BUFFER_BIT } else { 0u32 })
}

/// Law: the external bitmask built from an internal buffer-capability set
/// holds exactly the bits whose capability is a member of the set: no
/// spurious bits, no omissions.
pub proof fn lemma_buffer_features_exact_bits(features: BufferFeatures)
    ensures
        spec_buffer_features_from_hal(features) & vk::VK_FORMAT_FEATURE_UNIFORM_TEXEL_BUFFER_BIT
            != 0 <==> features.uniform_texel,
        spec_buffer_features_from_hal(features) & vk::VK_FORMAT_FEATURE_STORAGE_TEXEL_BUFFER_BIT
            != 0 <==> features.storage_texel,
        spec_buffer_features_from_hal(features)
            & vk::VK_FORMAT_FEATURE_STORAGE_TEXEL_BUFFER_ATOMIC_BIT != 0
            <==> features.storage_texel_atomic,
        spec_buffer_features_from_hal(features) & vk::VK_FORMAT_FEATURE_VERTEX_BUFFER_BIT != 0
            <==> features.vertex,
{
    let t1: u32 = if features.uniform_texel { 0x8 } else { 0 };
    let t2: u32 = if features.storage_texel { 0x10 } else { 0 };
    let t3: u32 = if features.storage_texel_atomic { 0x20 } else { 0 };
    let t4: u32 = if features.vertex { 0x40 } else { 0 };
    assert(spec_buffer_features_from_hal(features) == t1 | t2 | t3 | t4);
    assert(((t1 | t2 | t3 | t4) & 0x8u32 != 0 <==> t1 != 0) && ((t1 | t2 | t3 | t4) & 0x10u32
        != 0 <==> t2 != 0) && ((t1 | t2 | t3 | t4) & 0x20u32 != 0 <==> t3 != 0) && ((t1 | t2 | t3
        | t4) & 0x40u32 != 0 <==> t4 != 0)) by (bit_vector)
        requires
            t1 == 0x8u32 || t1 == 0u32,
            t2 == 0x10u32 || t2 == 0u32,
            t3 == 0x20u32 || t3 == 0u32,
            t4 == 0x40u32 || t4 == 0u32,
    ;
}

pub open spec fn spec_format_properties_from_hal(properties: Properties) -> vk::VkFormatProperties {
    vk::VkFormatProperties {
        linear_tiling_features: spec_image_features_from_hal(properties.linear_tiling),
        optimal_tiling_features: spec_image_features_from_hal(properties.optimal_tiling),
        buffer_features: spec_buffer_features_from_hal(properties.buffer_features),
    }
}

/// Translate the internal capability sets of one format into the external
/// properties struct, field by field.
pub fn format_properties_from_hal(properties: Properties) -> (r: vk::VkFormatProperties)
    ensures
        r == spec_format_properties_from_hal(properties),
{
    vk::VkFormatProperties {
        linear_tiling_features: image_features_from_hal(properties.linear_tiling),
        optimal_tiling_features: image_features_from_hal(properties.optimal_tiling),
        buffer_features: buffer_features_from_hal(properties.buffer_features),
    }
}

// ---------------------------------------------------------------------------
// Channel swizzles
// ---------------------------------------------------------------------------

/// An internal channel source: a fixed constant or one of the four color
/// channels.
#[derive(Clone, Copy, Debug, PartialEq, Eq, Structural)]
pub enum Component {
    Zero,
    One,
    R,
    G,
    B,
    A,
}

/// The resolved sources of the four color channels, in R, G, B, A order.
#[derive(Clone, Copy, Debug, PartialEq, Eq, Structural)]
pub struct Swizzle(pub Component, pub Component, pub Component, pub Component);

/// What one external swizzle code resolves to for a channel whose own
/// identity source is `identity`: the identity code yields that source, the
/// constant codes yield the fixed constants, the explicit channel codes
/// yield that channel, and any other code is invalid input.
pub open spec fn spec_map_swizzle_component(code: u32, identity: Component) -> Result<
    Component,
    ConvError,
> {
    if code == vk::VK_COMPONENT_SWIZZLE_IDENTITY {
        Ok(identity)
    } else if code == vk::VK_COMPONENT_SWIZZLE_ZERO {
        Ok(Component::Zero)
    } else if code == vk::VK_COMPONENT_SWIZZLE_ONE {
        Ok(Component::One)
    } else if code == vk::VK_COMPONENT_SWIZZLE_R {
        Ok(Component::R)
    } else if code == vk::VK_COMPONENT_SWIZZLE_G {
        Ok(Component::G)
    } else if code == vk::VK_COMPONENT_SWIZZLE_B {
        Ok(Component::B)
    } else if code == vk::VK_COMPONENT_SWIZZLE_A {
        Ok(Component::A)
    } else {
        Err(ConvError::InvalidInput)
    }
}

/// Resolve one external swizzle code against the channel's identity source.
pub fn map_swizzle_component(code: u32, identity: Component) -> (r: Result<Component, ConvError>)
    ensures
        r == spec_map_swizzle_component(code, identity),
{
    if code == vk::VK_COMPONENT_SWIZZLE_IDENTITY {
        Ok(identity)
    } else if code == vk::VK_COMPONENT_SWIZZLE_ZERO {
        Ok(Component::Zero)
    } else if code == vk::VK_COMPONENT_SWIZZLE_ONE {
        Ok(Component::One)
    } else if code == vk::VK_COMPONENT_SWIZZLE_R {
        Ok(Component::R)
    } else if code == vk::VK_COMPONENT_SWIZZLE_G {
        Ok(Component::G)
    } else if code == vk::VK_COMPONENT_SWIZZLE_B {
        Ok(Component::B)
    } else if code == vk::VK_COMPONENT_SWIZZLE_A {
        Ok(Component::A)
    } else {
        Err(ConvError::InvalidInput)
    }
}

/// What a whole component mapping resolves to: each of the four channels
/// independently, against its own identity source; any unknown code makes
/// the whole mapping invalid input.
pub open spec fn spec_map_swizzle(components: vk::VkComponentMapping) -> Result<
    Swizzle,
    ConvError,
> {
    match (
        spec_map_swizzle_component(components.r, Component::R),
        spec_map_swizzle_component(components.g, Component::G),
        spec_map_swizzle_component(components.b, Component::B),
        spec_map_swizzle_component(components.a, Component::A),
    ) {
        (Ok(r), Ok(g), Ok(b), Ok(a)) => Ok(Swizzle(r, g, b, a)),
        _ => Err(ConvError::InvalidInput),
    }
}

/// Translate four external per-channel swizzle codes into the internal
/// swizzle, resolving each channel against its own identity.
pub fn map_swizzle(components: vk::VkComponentMapping) -> (r: Result<Swizzle, ConvError>)
    ensures
        r == spec_map_swizzle(components),
{
    let red = match map_swizzle_component(components.r, Component::R) {
        Ok(c) => c,
        Err(e) => {
            return Err(e);
        },
    };
    let green = match map_swizzle_component(components.g, Component::G) {
        Ok(c) => c,
        Err(e) => {
            return Err(e);
        },
    };
    let blue = match map_swizzle_component(components.b, Component::B) {
        Ok(c) => c,
        Err(e) => {
            return Err(e);
        },
    };
    let alpha = match map_swizzle_component(components.a, Component::A) {
        Ok(c) => c,
        Err(e) => {
            return Err(e);
        },
    };
    Ok(Swizzle(red, green, blue, alpha))
}

} // verus!
