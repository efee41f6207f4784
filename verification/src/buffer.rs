//! Buffer usage bitmasks.

use vstd::prelude::*;

use crate::error::ConvError;
use crate::vk;

verus! {

/// External buffer-usage bits with an internal counterpart; every
/// documented bit of the domain is mapped.
pub const BUFFER_USAGE_MAPPED_MASK: u32 = 0x1FF;

/// External buffer-usage bits outside the documented domain.
pub const BUFFER_USAGE_UNRECOGNIZED_MASK: u32 = 0xFFFF_FE00;

/// The internal buffer-usage set.
#[derive(Clone, Copy, Debug, PartialEq, Eq, Structural)]
pub struct BufferUsage {
    pub transfer_src: bool,
    pub transfer_dst: bool,
    pub uniform_texel: bool,
    pub storage_texel: bool,
    pub uniform: bool,
    pub storage: bool,
    pub index: bool,
    pub vertex: bool,
    pub indirect: bool,
}

/// The internal usage set for an external buffer-usage mask: one flag per
/// mapped bit; any bit outside the documented domain is invalid input.
pub open spec fn spec_map_buffer_usage(usage: u32) -> Result<BufferUsage, ConvError> {
    if usage & BUFFER_USAGE_UNRECOGNIZED_MASK != 0 {
        Err(ConvError::InvalidInput)
    } else {
        Ok(
            BufferUsage {
                transfer_src: usage & vk::VK_BUFFER_USAGE_TRANSFER_SRC_BIT != 0,
                transfer_dst: usage & vk::VK_BUFFER_USAGE_TRANSFER_DST_BIT != 0,
                uniform_texel: usage & vk::VK_BUFFER_USAGE_UNIFORM_TEXEL_BUFFER_BIT != 0,
                storage_texel: usage & vk::VK_BUFFER_USAGE_STORAGE_TEXEL_BUFFER_BIT != 0,
                uniform: usage & vk::VK_BUFFER_USAGE_UNIFORM_BUFFER_BIT != 0,
                storage: usage & vk::VK_BUFFER_USAGE_STORAGE_BUFFER_BIT != 0,
                index: usage & vk::VK_BUFFER_USAGE_INDEX_BUFFER_BIT != 0,
                vertex: usage & vk::VK_BUFFER_USAGE_VERTEX_BUFFER_BIT != 0,
                indirect: usage & vk::VK_BUFFER_USAGE_INDIRECT_BUFFER_BIT != 0,
            },
        )
    }
}

/// Translate an external buffer-usage mask into the internal usage set.
pub fn map_buffer_usage(usage: u32) -> (r: Result<BufferUsage, ConvError>)
    ensures
        r == spec_map_buffer_usage(usage),
{
    if usage & BUFFER_USAGE_UNRECOGNIZED_MASK != 0 {
        Err(ConvError::InvalidInput)
    } else {
        Ok(
            BufferUsage {
                transfer_src: usage & vk::VK_BUFFER_USAGE_TRANSFER_SRC_BIT != 0,
                transfer_dst: usage & vk::VK_BUFFER_USAGE_TRANSFER_DST_BIT != 0,
                uniform_texel: usage & vk::VK_BUFFER_USAGE_UNIFORM_TEXEL_BUFFER_BIT != 0,
                storage_texel: usage & vk::VK_BUFFER_USAGE_STORAGE_TEXEL_BUFFER_BIT != 0,
                uniform: usage & vk::VK_BUFFER_USAGE_UNIFORM_BUFFER_BIT != 0,
                storage: usage & vk::VK_BUFFER_USAGE_STORAGE_BUFFER_BIT != 0,
                index: usage & vk::VK_BUFFER_USAGE_INDEX_BUFFER_BIT != 0,
                vertex: usage & vk::VK_BUFFER_USAGE_VERTEX_BUFFER_BIT != 0,
                indirect: usage & vk::VK_BUFFER_USAGE_INDIRECT_BUFFER_BIT != 0,
            },
        )
    }
}

/// Law: a buffer-usage mask translates exactly when it holds only mapped
/// bits, and the translated set then holds exactly the flags whose external
/// bit is set: no spurious flags, no omissions.
pub proof fn lemma_buffer_usage_accumulation(usage: u32)
    ensures
        spec_map_buffer_usage(usage) is Ok <==> usage & BUFFER_USAGE_MAPPED_MASK == usage,
        (spec_map_buffer_usage(usage) matches Ok(u) ==> ((u.transfer_src <==> usage
            & vk::VK_BUFFER_USAGE_TRANSFER_SRC_BIT != 0) && (u.transfer_dst <==> usage
            & vk::VK_BUFFER_USAGE_TRANSFER_DST_BIT != 0) && (u.uniform_texel <==> usage
            & vk::VK_BUFFER_USAGE_UNIFORM_TEXEL_BUFFER_BIT != 0) && (u.storage_texel <==> usage
            & vk::VK_BUFFER_USAGE_STORAGE_TEXEL_BUFFER_BIT != 0) && (u.uniform <==> usage
            & vk::VK_BUFFER_USAGE_UNIFORM_BUFFER_BIT != 0) && (u.storage <==> usage
            & vk::VK_BUFFER_USAGE_STORAGE_BUFFER_BIT != 0) && (u.index <==> usage
            & vk::VK_BUFFER_USAGE_INDEX_BUFFER_BIT != 0) && (u.vertex <==> usage
            & vk::VK_BUFFER_USAGE_VERTEX_BUFFER_BIT != 0) && (u.indirect <==> usage
            & vk::VK_BUFFER_USAGE_INDIRECT_BUFFER_BIT != 0))),
{
    assert(usage & 0xFFFF_FE00u32 == 0 <==> usage & 0x1FFu32 == usage) by (bit_vector);
}

/// Law: a buffer-usage mask holding any bit outside the mapped table fails;
/// no bit is silently dropped.
pub proof fn lemma_buffer_usage_rejects_unrecognized(usage: u32)
    requires
        usage & BUFFER_USAGE_MAPPED_MASK != usage,
    ensures
        spec_map_buffer_usage(usage) is Err,
{
    lemma_buffer_usage_accumulation(usage);
}

} // verus!
