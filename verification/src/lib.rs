//! Device and resource lifecycle planning for a Vulkan-style rendering
//! backend.
//!
//! This crate holds the decision logic of the lifecycle subsystem: picking a
//! physical adapter, resolving queue families against per-role requirements,
//! deriving a swapchain configuration from surface capabilities, and tracking
//! allocator-backed buffer and image resources through an ordered teardown.
//! Every function here is pure over plain values; the driver calls that act on
//! these decisions live outside the crate. Driver objects are represented by
//! plain values: extension names as interned identifiers, capability flags as
//! bit masks, API handles as raw integers.

pub mod device;
pub mod error;
pub mod instance;
pub mod interface;
pub mod resource;
pub mod swapchain;

pub use device::AdapterInfo;
pub use device::Dev;
pub use device::DevRequestInfo;
pub use device::QueueFamilyInfo;
pub use device::QueueInfo;
pub use device::QueueRequestInfo;
pub use error::Error;
pub use instance::InstancePlan;
pub use interface::GPUProfile;
pub use interface::InterfaceOptions;
pub use resource::Allocator;
pub use resource::Buffer;
pub use resource::BufferRequestInfo;
pub use resource::Extent3D;
pub use resource::Image;
pub use resource::ImageRequestInfo;
pub use resource::TeardownAction;
pub use swapchain::Extent2D;
pub use swapchain::SharingMode;
pub use swapchain::SurfaceCapabilities;
pub use swapchain::SurfaceFormat;
pub use swapchain::Swapchain;
pub use swapchain::SwapchainConfig;
pub use swapchain::SwapchainRequestInfo;
