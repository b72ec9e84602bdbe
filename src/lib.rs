//! Vulkan scaffolding decisions: descriptor plans, buffer bookkeeping, device and
//! swapchain selection, image transfers and the small file formats the engine reads.
pub mod blocks;
pub mod buffer;
pub mod device;
pub mod image;
pub mod image_array_state;
pub mod instance;
pub mod shader;
pub mod swapchain;
mod text;
pub mod vertex;

pub use blocks::{
    BindingId, SetId, DDTypeUniform, DDTypeImage, DDTypeImageArray, DDType,
    DescriptorDescription, DescriptorKind, DescriptorWrite, PoolSizes, pool_sizes,
};
pub use device::{QueueFamily, device_extensions, find_memory_type_index, select_queue_family};
pub use buffer::{BufferGO, BufferUsage, RequirementType};
pub use image::{
    Access, CopyRegion, Extent2D, ImageArrayData, ImageBarrier, ImageData, ImageError, ImageLayout, Stage,
    image_array_copy_regions, image_copy_region,
};
pub use image_array_state::ImageArrayState;
pub use instance::{InstanceConfig, InstanceError, instance_config};
pub use shader::{ShaderStage, is_spirv, shader_source_path};
pub use vertex::{CrateDrawIndexedIndirectCommand, OInstance};
pub use swapchain::{SurfaceCapabilities, SwapchainSettings, swapchain_settings};
