//! Device-creation failures, translated into external result codes.

use vstd::prelude::*;

use crate::vk;

verus! {

/// The internal device-creation error vocabulary: the one error family this
/// layer surfaces as an ordinary external result code rather than a typed
/// translation failure.
#[derive(Clone, Copy, Debug, PartialEq, Eq, Structural)]
pub enum DeviceCreationError {
    OutOfHostMemory,
    OutOfDeviceMemory,
    InitializationFailed,
    MissingExtension,
    MissingFeature,
    TooManyObjects,
    DeviceLost,
}

/// The external result code for each internal device-creation error: a
/// total mapping over the internal vocabulary.
pub open spec fn spec_map_err_device_creation(err: DeviceCreationError) -> i32 {
    match err {
        DeviceCreationError::OutOfHostMemory => vk::VK_ERROR_OUT_OF_HOST_MEMORY,
        DeviceCreationError::OutOfDeviceMemory => vk::VK_ERROR_OUT_OF_DEVICE_MEMORY,
        DeviceCreationError::InitializationFailed => vk::VK_ERROR_INITIALIZATION_FAILED,
        DeviceCreationError::MissingExtension => vk::VK_ERROR_EXTENSION_NOT_PRESENT,
        DeviceCreationError::MissingFeature => vk::VK_ERROR_FEATURE_NOT_PRESENT,
        DeviceCreationError::TooManyObjects => vk::VK_ERROR_TOO_MANY_OBJECTS,
        DeviceCreationError::DeviceLost => vk::VK_ERROR_DEVICE_LOST,
    }
}

/// Translate an internal device-creation error into its external result
/// code.
pub fn map_err_device_creation(err: DeviceCreationError) -> (r: i32)
    ensures
        r == spec_map_err_device_creation(err),
{
    match err {
        DeviceCreationError::OutOfHostMemory => vk::VK_ERROR_OUT_OF_HOST_MEMORY,
        DeviceCreationError::OutOfDeviceMemory => vk::VK_ERROR_OUT_OF_DEVICE_MEMORY,
        DeviceCreationError::InitializationFailed => vk::VK_ERROR_INITIALIZATION_FAILED,
        DeviceCreationError::MissingExtension => vk::VK_ERROR_EXTENSION_NOT_PRESENT,
        DeviceCreationError::MissingFeature => vk::VK_ERROR_FEATURE_NOT_PRESENT,
        DeviceCreationError::TooManyObjects => vk::VK_ERROR_TOO_MANY_OBJECTS,
        DeviceCreationError::DeviceLost => vk::VK_ERROR_DEVICE_LOST,
    }
}

/// Law: the device-creation mapping is total over the internal vocabulary
/// and gives two distinct errors two distinct external codes; each code is
/// a defined error code, never a catch-all.
pub proof fn lemma_device_creation_error_distinct(
    err1: DeviceCreationError,
    err2: DeviceCreationError,
)
    ensures
        spec_map_err_device_creation(err1) == spec_map_err_device_creation(err2) ==> err1 == err2,
        spec_map_err_device_creation(err1) < 0,
{
}

} // verus!
