use vstd::prelude::*;

verus! {

/// Every fallible step of the lifecycle subsystem reports a distinct error to
/// its caller; nothing is retried internally. `ApiResult` carries a raw
/// driver result code that no more specific variant describes.
#[derive(Clone, Copy, Debug, PartialEq, Eq, Structural)]
pub enum Error {
    Load,
    UnsupportedSurface,
    InstanceCreate,
    DebugCreate,
    SurfaceCreate,
    NoVulkanGPUFound,
    NoGPUExtensionsFound,
    NoRequestedGPUExtensions,
    NoRequestedGPUQueues,
    DeviceCreate,
    NoSurfaceFormatFound,
    NoPresentModeFound,
    NoSurfaceCapabilitiesFound,
    NoSwapchainImages,
    SwapchainCreate,
    DeviceLost,
    AllocationError,
    MemoryBindingError,
    BufferCreate,
    ImageCreate,
    ImageViewCreate,
    ApiResult(i32),
}

} // verus!
