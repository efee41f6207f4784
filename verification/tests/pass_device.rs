use portability_gfx::buffer::{map_buffer_usage, BufferUsage};
use portability_gfx::device::{map_err_device_creation, DeviceCreationError};
use portability_gfx::error::ConvError;
use portability_gfx::memory::{memory_properties_from_hal, MemoryProperties};
use portability_gfx::pass::{
    map_attachment_load_op, map_attachment_store_op, map_subpass_contents, AttachmentLoadOp,
    AttachmentStoreOp, SubpassContents,
};
use portability_gfx::vk;

fn no_buffer_usage() -> BufferUsage {
    BufferUsage {
        transfer_src: false,
        transfer_dst: false,
        uniform_texel: false,
        storage_texel: false,
        uniform: false,
        storage: false,
        index: false,
        vertex: false,
        indirect: false,
    }
}

fn no_memory_properties() -> MemoryProperties {
    MemoryProperties {
        device_local: false,
        coherent: false,
        cpu_visible: false,
        cpu_cached: false,
        lazily_allocated: false,
    }
}

#[test]
fn attachment_load_op_table() {
    assert_eq!(map_attachment_load_op(0), Ok(AttachmentLoadOp::Load));
    assert_eq!(map_attachment_load_op(1), Ok(AttachmentLoadOp::Clear));
    assert_eq!(map_attachment_load_op(2), Ok(AttachmentLoadOp::DontCare));
    assert_eq!(map_attachment_load_op(3), Err(ConvError::InvalidInput));
}

#[test]
fn attachment_store_op_table() {
    assert_eq!(map_attachment_store_op(0), Ok(AttachmentStoreOp::Store));
    assert_eq!(map_attachment_store_op(1), Ok(AttachmentStoreOp::DontCare));
    assert_eq!(map_attachment_store_op(2), Err(ConvError::InvalidInput));
}

#[test]
fn subpass_contents_table() {
    assert_eq!(map_subpass_contents(0), Ok(SubpassContents::Inline));
    assert_eq!(map_subpass_contents(1), Ok(SubpassContents::SecondaryBuffers));
    assert_eq!(map_subpass_contents(2), Err(ConvError::InvalidInput));
}

#[test]
fn buffer_usage_each_mapped_bit() {
    assert_eq!(
        map_buffer_usage(vk::VK_BUFFER_USAGE_TRANSFER_SRC_BIT),
        Ok(BufferUsage {
            transfer_src: true,
            ..no_buffer_usage()
        })
    );
    assert_eq!(
        map_buffer_usage(vk::VK_BUFFER_USAGE_INDIRECT_BUFFER_BIT),
        Ok(BufferUsage {
            indirect: true,
            ..no_buffer_usage()
        })
    );
}

#[test]
fn buffer_usage_combination_is_exact() {
    let usage = vk::VK_BUFFER_USAGE_UNIFORM_BUFFER_BIT
        | vk::VK_BUFFER_USAGE_INDEX_BUFFER_BIT
        | vk::VK_BUFFER_USAGE_VERTEX_BUFFER_BIT;
    assert_eq!(
        map_buffer_usage(usage),
        Ok(BufferUsage {
            uniform: true,
            index: true,
            vertex: true,
            ..no_buffer_usage()
        })
    );
}

#[test]
fn buffer_usage_unknown_bit_is_invalid() {
    assert_eq!(map_buffer_usage(0x200), Err(ConvError::InvalidInput));
}

#[test]
fn memory_properties_empty_set_gives_zero_mask() {
    assert_eq!(memory_properties_from_hal(no_memory_properties()), 0);
}

#[test]
fn memory_properties_exact_bits() {
    let properties = MemoryProperties {
        device_local: true,
        cpu_visible: true,
        ..no_memory_properties()
    };
    assert_eq!(
        memory_properties_from_hal(properties),
        vk::VK_MEMORY_PROPERTY_DEVICE_LOCAL_BIT | vk::VK_MEMORY_PROPERTY_HOST_VISIBLE_BIT
    );
    let cached = MemoryProperties {
        coherent: true,
        cpu_cached: true,
        lazily_allocated: true,
        ..no_memory_properties()
    };
    assert_eq!(
        memory_properties_from_hal(cached),
        vk::VK_MEMORY_PROPERTY_HOST_COHERENT_BIT
            | vk::VK_MEMORY_PROPERTY_HOST_CACHED_BIT
            | vk::VK_MEMORY_PROPERTY_LAZILY_ALLOCATED_BIT
    );
}

#[test]
fn device_creation_error_total_mapping() {
    assert_eq!(
        map_err_device_creation(DeviceCreationError::OutOfHostMemory),
        vk::VK_ERROR_OUT_OF_HOST_MEMORY
    );
    assert_eq!(
        map_err_device_creation(DeviceCreationError::OutOfDeviceMemory),
        vk::VK_ERROR_OUT_OF_DEVICE_MEMORY
    );
    assert_eq!(
        map_err_device_creation(DeviceCreationError::InitializationFailed),
        vk::VK_ERROR_INITIALIZATION_FAILED
    );
    assert_eq!(
        map_err_device_creation(DeviceCreationError::MissingExtension),
        vk::VK_ERROR_EXTENSION_NOT_PRESENT
    );
    assert_eq!(
        map_err_device_creation(DeviceCreationError::MissingFeature),
        vk::VK_ERROR_FEATURE_NOT_PRESENT
    );
    assert_eq!(
        map_err_device_creation(DeviceCreationError::TooManyObjects),
        vk::VK_ERROR_TOO_MANY_OBJECTS
    );
    assert_eq!(
        map_err_device_creation(DeviceCreationError::DeviceLost),
        vk::VK_ERROR_DEVICE_LOST
    );
}

#[test]
fn device_creation_error_codes_are_distinct() {
    let variants = [
        DeviceCreationError::OutOfHostMemory,
        DeviceCreationError::OutOfDeviceMemory,
        DeviceCreationError::InitializationFailed,
        DeviceCreationError::MissingExtension,
        DeviceCreationError::MissingFeature,
        DeviceCreationError::TooManyObjects,
        DeviceCreationError::DeviceLost,
    ];
    for (i, a) in variants.iter().enumerate() {
        for (j, b) in variants.iter().enumerate() {
            if i != j {
                assert_ne!(map_err_device_creation(*a), map_err_device_creation(*b));
            }
        }
    }
}
