//! Memory property flags, reported from the internal side outward.

use vstd::prelude::*;

use crate::vk;

verus! {

/// The internal memory-property set.
#[derive(Clone, Copy, Debug, PartialEq, Eq, Structural)]
pub struct MemoryProperties {
    pub device_local: bool,
    pub coherent: bool,
    pub cpu_visible: bool,
    pub cpu_cached: bool,
    pub lazily_allocated: bool,
}

/// The external bitmask equivalent to an internal memory-property set: the
/// union of the external bits whose property is a member of the set.
pub open spec fn spec_memory_properties_from_hal(properties: MemoryProperties) -> u32 {
    (if properties.device_local { vk::VK_MEMORY_PROPERTY_DEVICE_LOCAL_BIT } else { 0u32 })
        | (if properties.coherent { vk::VK_MEMORY_PROPERTY_HOST_COHERENT_BIT } else { 0u32 })
        | (if properties.cpu_visible { vk::VK_MEMORY_PROPERTY_HOST_VISIBLE_BIT } else { 0u32 })
        | (if properties.cpu_cached { vk::VK_MEMORY_PROPERTY_HOST_CACHED_BIT } else { 0u32 })
        | (if properties.lazily_allocated { vk::VK_MEMORY_PROPERTY_LAZILY_ALLOCATED_BIT } else { 0u32 })
}

/// Translate an internal memory-property set into the external bitmask.
pub fn memory_properties_from_hal(properties: MemoryProperties) -> (r: u32)
    ensures
        r == spec_memory_properties_from_hal(properties),
{
    (if properties.device_local { vk::VK_MEMORY_PROPERTY_DEVICE_LOCAL_BIT } else { 0u32 })
        | (if properties.coherent { vk::VK_MEMORY_PROPERTY_HOST_COHERENT_BIT } else { 0u32 })
        | (if properties.cpu_visible { vk::VK_MEMORY_PROPERTY_HOST_VISIBLE_BIT } else { 0u32 })
        | (if properties.cpu_cached { vk::VK_MEMORY_PROPERTY_HOST_CACHED_BIT } else { 0u32 })
        | (if properties.lazily_allocated { vk::VK_MEMORY_PROPERTY_LAZILY_ALLOCATED_BIT } else { 0u32 })
}

/// Law: the external bitmask built from an internal memory-property set
/// holds exactly the bits whose property is a member of the set: no
/// spurious bits, no omissions.
pub proof fn lemma_memory_properties_exact_bits(properties: MemoryProperties)
    ensures
        spec_memory_properties_from_hal(properties) & vk::VK_MEMORY_PROPERTY_DEVICE_LOCAL_BIT
            != 0 <==> properties.device_local,
        spec_memory_properties_from_hal(properties) & vk::VK_MEMORY_PROPERTY_HOST_COHERENT_BIT
            != 0 <==> properties.coherent,
        spec_memory_properties_from_hal(properties) & vk::VK_MEMORY_PROPERTY_HOST_VISIBLE_BIT
            != 0 <==> properties.cpu_visible,
        spec_memory_properties_from_hal(properties) & vk::VK_MEMORY_PROPERTY_HOST_CACHED_BIT
            != 0 <==> properties.cpu_cached,
        spec_memory_properties_from_hal(properties) & vk::VK_MEMORY_PROPERTY_LAZILY_ALLOCATED_BIT
            != 0 <==> properties.lazily_allocated,
{
    let t1: u32 = if properties.device_local { 0x1 } else { 0 };
    let t2: u32 = if properties.coherent { 0x4 } else { 0 };
    let t3: u32 = if properties.cpu_visible { 0x2 } else { 0 };
    let t4: u32 = if properties.cpu_cached { 0x8 } else { 0 };
    let t5: u32 = if properties.lazily_allocated { 0x10 } else { 0 };
    assert(spec_memory_properties_from_hal(properties) == t1 | t2 | t3 | t4 | t5);
    assert(((t1 | t2 | t3 | t4 | t5) & 0x1u32 != 0 <==> t1 != 0) && ((t1 | t2 | t3 | t4 | t5)
        & 0x4u32 != 0 <==> t2 != 0) && ((t1 | t2 | t3 | t4 | t5) & 0x2u32 != 0 <==> t3 != 0) && ((
    t1 | t2 | t3 | t4 | t5) & 0x8u32 != 0 <==> t4 != 0) && ((t1 | t2 | t3 | t4 | t5) & 0x10u32
        != 0 <==> t5 != 0)) by (bit_vector)
        requires
            t1 == 0x1u32 || t1 == 0u32,
            t2 == 0x4u32 || t2 == 0u32,
            t3 == 0x2u32 || t3 == 0u32,
            t4 == 0x8u32 || t4 == 0u32,
            t5 == 0x10u32 || t5 == 0u32,
    ;
}

} // verus!
