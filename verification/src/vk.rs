//! Vulkan values as plain numbers: the formats, flags, enumerations and
//! handles that the renderer hands to the Vulkan API, numbered as the API
//! numbers them.
use vstd::prelude::*;

verus! {

/// A Vulkan pixel format.
#[derive(Debug, Clone, Copy, PartialEq, Eq, Structural, Hash, Default)]
pub struct Format(pub i32);

impl Format {
    pub const UNDEFINED: i32 = 0;
    pub const R32G32_SFLOAT: i32 = 103;
    pub const R32G32B32_SFLOAT: i32 = 106;
    pub const D16_UNORM_S8_UINT: i32 = 128;
    pub const D24_UNORM_S8_UINT: i32 = 129;
    pub const D32_SFLOAT: i32 = 126;
    pub const D32_SFLOAT_S8_UINT: i32 = 130;
    pub const B8G8R8A8_UNORM: i32 = 44;
}

/// Vulkan sample counts, one bit per count.
#[derive(Debug, Clone, Copy, PartialEq, Eq, Structural, Hash, Default)]
pub struct SampleCountFlags(pub u32);

impl SampleCountFlags {
    pub const TYPE_1: u32 = 1;
    pub const TYPE_2: u32 = 2;
    pub const TYPE_4: u32 = 4;
    pub const TYPE_8: u32 = 8;
    pub const TYPE_16: u32 = 16;
    pub const TYPE_32: u32 = 32;
    pub const TYPE_64: u32 = 64;
}

/// A Vulkan attachment load operation.
#[derive(Debug, Clone, Copy, PartialEq, Eq, Structural, Hash, Default)]
pub struct AttachmentLoadOp(pub i32);

impl AttachmentLoadOp {
    pub const LOAD: i32 = 0;
    pub const CLEAR: i32 = 1;
    pub const DONT_CARE: i32 = 2;
}

/// A Vulkan attachment store operation.
#[derive(Debug, Clone, Copy, PartialEq, Eq, Structural, Hash, Default)]
pub struct AttachmentStoreOp(pub i32);

impl AttachmentStoreOp {
    pub const STORE: i32 = 0;
    pub const DONT_CARE: i32 = 1;
}

/// A Vulkan image layout.
#[derive(Debug, Clone, Copy, PartialEq, Eq, Structural, Hash, Default)]
pub struct ImageLayout(pub i32);

impl ImageLayout {
    pub const UNDEFINED: i32 = 0;
    pub const GENERAL: i32 = 1;
    pub const COLOR_ATTACHMENT_OPTIMAL: i32 = 2;
    pub const DEPTH_STENCIL_ATTACHMENT_OPTIMAL: i32 = 3;
    pub const DEPTH_STENCIL_READ_ONLY_OPTIMAL: i32 = 4;
    pub const READ_ONLY_OPTIMAL: i32 = 1000314000;
    pub const PRESENT_SRC_KHR: i32 = 1000001002;
}

/// A Vulkan pipeline bind point.
#[derive(Debug, Clone, Copy, PartialEq, Eq, Structural, Hash, Default)]
pub struct PipelineBindPoint(pub i32);

impl PipelineBindPoint {
    pub const GRAPHICS: i32 = 0;
    pub const COMPUTE: i32 = 1;
}

/// Vulkan pipeline stages, one bit each.
#[derive(Debug, Clone, Copy, PartialEq, Eq, Structural, Hash, Default)]
pub struct PipelineStageFlags(pub u32);

impl PipelineStageFlags {
    pub const TOP_OF_PIPE: u32 = 1;
    pub const DRAW_INDIRECT: u32 = 2;
    pub const VERTEX_INPUT: u32 = 4;
    pub const VERTEX_SHADER: u32 = 8;
    pub const TESSELLATION_CONTROL_SHADER: u32 = 16;
    pub const TESSELLATION_EVALUATION_SHADER: u32 = 32;
    pub const GEOMETRY_SHADER: u32 = 64;
    pub const FRAGMENT_SHADER: u32 = 128;
    pub const EARLY_FRAGMENT_TESTS: u32 = 256;
    pub const LATE_FRAGMENT_TESTS: u32 = 512;
    pub const COLOR_ATTACHMENT_OUTPUT: u32 = 1024;
    pub const COMPUTE_SHADER: u32 = 2048;
    pub const TRANSFER: u32 = 4096;
    pub const BOTTOM_OF_PIPE: u32 = 8192;
    pub const HOST: u32 = 16384;
    pub const ALL_GRAPHICS: u32 = 32768;
    pub const ALL_COMMANDS: u32 = 65536;
}

/// Vulkan memory access kinds, one bit each.
#[derive(Debug, Clone, Copy, PartialEq, Eq, Structural, Hash, Default)]
pub struct AccessFlags(pub u32);

impl AccessFlags {
    pub const INDIRECT_COMMAND_READ: u32 = 1;
    pub const INDEX_READ: u32 = 2;
    pub const VERTEX_ATTRIBUTE_READ: u32 = 4;
    pub const UNIFORM_READ: u32 = 8;
    pub const INPUT_ATTACHMENT_READ: u32 = 16;
    pub const SHADER_READ: u32 = 32;
    pub const SHADER_WRITE: u32 = 64;
    pub const COLOR_ATTACHMENT_READ: u32 = 128;
    pub const COLOR_ATTACHMENT_WRITE: u32 = 256;
    pub const DEPTH_STENCIL_ATTACHMENT_READ: u32 = 512;
    pub const DEPTH_STENCIL_ATTACHMENT_WRITE: u32 = 1024;
    pub const TRANSFER_READ: u32 = 2048;
    pub const TRANSFER_WRITE: u32 = 4096;
    pub const HOST_READ: u32 = 8192;
    pub const HOST_WRITE: u32 = 16384;
    pub const MEMORY_READ: u32 = 32768;
    pub const MEMORY_WRITE: u32 = 65536;
}

/// Vulkan command pool creation options.
#[derive(Debug, Clone, Copy, PartialEq, Eq, Structural, Hash, Default)]
pub struct CommandPoolCreateFlags(pub u32);

impl CommandPoolCreateFlags {
    pub const TRANSIENT: u32 = 1;
    pub const RESET_COMMAND_BUFFER: u32 = 2;
}

/// Vulkan attachment description options.
#[derive(Debug, Clone, Copy, PartialEq, Eq, Structural, Hash, Default)]
pub struct AttachmentDescriptionFlags(pub u32);

impl AttachmentDescriptionFlags {
    pub const MAY_ALIAS: u32 = 1;
}

/// Vulkan subpass description options.
#[derive(Debug, Clone, Copy, PartialEq, Eq, Structural, Hash, Default)]
pub struct SubpassDescriptionFlags(pub u32);

/// Vulkan render pass creation options.
#[derive(Debug, Clone, Copy, PartialEq, Eq, Structural, Hash, Default)]
pub struct RenderPassCreateFlags(pub u32);

/// Vulkan pipeline layout creation options.
#[derive(Debug, Clone, Copy, PartialEq, Eq, Structural, Hash, Default)]
pub struct PipelineLayoutCreateFlags(pub u32);

/// Vulkan shader stages, one bit each.
#[derive(Debug, Clone, Copy, PartialEq, Eq, Structural, Hash, Default)]
pub struct ShaderStageFlags(pub u32);

impl ShaderStageFlags {
    pub const VERTEX: u32 = 1;
    pub const TESSELLATION_CONTROL: u32 = 2;
    pub const TESSELLATION_EVALUATION: u32 = 4;
    pub const GEOMETRY: u32 = 8;
    pub const FRAGMENT: u32 = 16;
    pub const COMPUTE: u32 = 32;
}

/// Vulkan framebuffer creation options.
#[derive(Debug, Clone, Copy, PartialEq, Eq, Structural, Hash, Default)]
pub struct FramebufferCreateFlags(pub u32);

/// Vulkan descriptor set layout creation options.
#[derive(Debug, Clone, Copy, PartialEq, Eq, Structural, Hash, Default)]
pub struct DescriptorSetLayoutCreateFlags(pub u32);

/// A Vulkan descriptor type.
#[derive(Debug, Clone, Copy, PartialEq, Eq, Structural, Hash, Default)]
pub struct DescriptorType(pub i32);

impl DescriptorType {
    pub const UNIFORM_BUFFER: i32 = 6;
    pub const COMBINED_IMAGE_SAMPLER: i32 = 1;
}

/// Vulkan pipeline creation options.
#[derive(Debug, Clone, Copy, PartialEq, Eq, Structural, Hash, Default)]
pub struct PipelineCreateFlags(pub u32);

impl PipelineCreateFlags {
    pub const DISABLE_OPTIMIZATION: u32 = 1;
    pub const ALLOW_DERIVATIVES: u32 = 2;
    pub const DERIVATIVE: u32 = 4;
}

/// A Vulkan vertex input rate.
#[derive(Debug, Clone, Copy, PartialEq, Eq, Structural, Hash, Default)]
pub struct VertexInputRate(pub i32);

impl VertexInputRate {
    pub const VERTEX: i32 = 0;
    pub const INSTANCE: i32 = 1;
}

/// A Vulkan primitive topology.
#[derive(Debug, Clone, Copy, PartialEq, Eq, Structural, Hash, Default)]
pub struct PrimitiveTopology(pub i32);

impl PrimitiveTopology {
    pub const TRIANGLE_LIST: i32 = 3;
}

/// Vulkan input assembly state options.
#[derive(Debug, Clone, Copy, PartialEq, Eq, Structural, Hash, Default)]
pub struct PipelineInputAssemblyStateCreateFlags(pub u32);

/// Vulkan vertex input state options.
#[derive(Debug, Clone, Copy, PartialEq, Eq, Structural, Hash, Default)]
pub struct PipelineVertexInputStateCreateFlags(pub u32);

/// Vulkan viewport state options.
#[derive(Debug, Clone, Copy, PartialEq, Eq, Structural, Hash, Default)]
pub struct PipelineViewportStateCreateFlags(pub u32);

/// Vulkan tessellation state options.
#[derive(Debug, Clone, Copy, PartialEq, Eq, Structural, Hash, Default)]
pub struct PipelineTessellationStateCreateFlags(pub u32);

/// A Vulkan polygon mode.
#[derive(Debug, Clone, Copy, PartialEq, Eq, Structural, Hash, Default)]
pub struct PolygonMode(pub i32);

impl PolygonMode {
    pub const FILL: i32 = 0;
    pub const LINE: i32 = 1;
    pub const POINT: i32 = 2;
}

/// Vulkan face culling modes.
#[derive(Debug, Clone, Copy, PartialEq, Eq, Structural, Hash, Default)]
pub struct CullModeFlags(pub u32);

impl CullModeFlags {
    pub const NONE: u32 = 0;
    pub const FRONT: u32 = 1;
    pub const BACK: u32 = 2;
    pub const FRONT_AND_BACK: u32 = 3;
}

/// A Vulkan front-face winding.
#[derive(Debug, Clone, Copy, PartialEq, Eq, Structural, Hash, Default)]
pub struct FrontFace(pub i32);

impl FrontFace {
    pub const COUNTER_CLOCKWISE: i32 = 0;
    pub const CLOCKWISE: i32 = 1;
}

/// Vulkan rasterization state options.
#[derive(Debug, Clone, Copy, PartialEq, Eq, Structural, Hash, Default)]
pub struct PipelineRasterizationStateCreateFlags(pub u32);

/// Vulkan multisample state options.
#[derive(Debug, Clone, Copy, PartialEq, Eq, Structural, Hash, Default)]
pub struct PipelineMultisampleStateCreateFlags(pub u32);

/// Vulkan depth-stencil state options.
#[derive(Debug, Clone, Copy, PartialEq, Eq, Structural, Hash, Default)]
pub struct PipelineDepthStencilStateCreateFlags(pub u32);

/// A Vulkan compare operation.
#[derive(Debug, Clone, Copy, PartialEq, Eq, Structural, Hash, Default)]
pub struct CompareOp(pub i32);

impl CompareOp {
    pub const NEVER: i32 = 0;
    pub const LESS: i32 = 1;
    pub const ALWAYS: i32 = 7;
}

/// A Vulkan stencil operation.
#[derive(Debug, Clone, Copy, PartialEq, Eq, Structural, Hash, Default)]
pub struct StencilOp(pub i32);

impl StencilOp {
    pub const KEEP: i32 = 0;
}

/// A Vulkan logic operation.
#[derive(Debug, Clone, Copy, PartialEq, Eq, Structural, Hash, Default)]
pub struct LogicOp(pub i32);

impl LogicOp {
    pub const COPY: i32 = 3;
}

/// A Vulkan blend factor.
#[derive(Debug, Clone, Copy, PartialEq, Eq, Structural, Hash, Default)]
pub struct BlendFactor(pub i32);

impl BlendFactor {
    pub const ZERO: i32 = 0;
    pub const ONE: i32 = 1;
    pub const SRC_ALPHA: i32 = 6;
    pub const ONE_MINUS_SRC_ALPHA: i32 = 7;
}

/// A Vulkan blend operation.
#[derive(Debug, Clone, Copy, PartialEq, Eq, Structural, Hash, Default)]
pub struct BlendOp(pub i32);

impl BlendOp {
    pub const ADD: i32 = 0;
}

/// Vulkan color channels, one bit each.
#[derive(Debug, Clone, Copy, PartialEq, Eq, Structural, Hash, Default)]
pub struct ColorComponentFlags(pub u32);

impl ColorComponentFlags {
    pub const R: u32 = 1;
    pub const G: u32 = 2;
    pub const B: u32 = 4;
    pub const A: u32 = 8;
    pub const RGBA: u32 = 15;
}

/// Vulkan dynamic state options.
#[derive(Debug, Clone, Copy, PartialEq, Eq, Structural, Hash, Default)]
pub struct PipelineDynamicStateCreateFlags(pub u32);

/// A Vulkan dynamic state.
#[derive(Debug, Clone, Copy, PartialEq, Eq, Structural, Hash, Default)]
pub struct DynamicState(pub i32);

impl DynamicState {
    pub const VIEWPORT: i32 = 0;
    pub const SCISSOR: i32 = 1;
}

/// Where the Vulkan commands of a subpass are recorded.
#[derive(Debug, Clone, Copy, PartialEq, Eq, Structural, Hash, Default)]
pub struct SubpassContents(pub i32);

impl SubpassContents {
    pub const INLINE: i32 = 0;
    pub const SECONDARY_COMMAND_BUFFERS: i32 = 1;
}

/// A Vulkan color space.
#[derive(Debug, Clone, Copy, PartialEq, Eq, Structural, Hash, Default)]
pub struct ColorSpaceKHR(pub i32);

impl ColorSpaceKHR {
    pub const SRGB_NONLINEAR: i32 = 0;
}

/// A Vulkan presentation mode.
#[derive(Debug, Clone, Copy, PartialEq, Eq, Structural, Hash, Default)]
pub struct PresentModeKHR(pub i32);

impl PresentModeKHR {
    pub const IMMEDIATE: i32 = 0;
    pub const MAILBOX: i32 = 1;
    pub const FIFO: i32 = 2;
    pub const FIFO_RELAXED: i32 = 3;
}

/// What a Vulkan queue family can do, one bit each.
#[derive(Debug, Clone, Copy, PartialEq, Eq, Structural, Hash, Default)]
pub struct QueueFlags(pub u32);

impl QueueFlags {
    pub const GRAPHICS: u32 = 1;
    pub const COMPUTE: u32 = 2;
    pub const TRANSFER: u32 = 4;
    pub const SPARSE_BINDING: u32 = 8;
}

/// What a Vulkan format supports, one bit each.
#[derive(Debug, Clone, Copy, PartialEq, Eq, Structural, Hash, Default)]
pub struct FormatFeatureFlags(pub u32);

impl FormatFeatureFlags {
    pub const DEPTH_STENCIL_ATTACHMENT: u32 = 512;
}

/// A Vulkan image tiling.
#[derive(Debug, Clone, Copy, PartialEq, Eq, Structural, Hash, Default)]
pub struct ImageTiling(pub i32);

impl ImageTiling {
    pub const OPTIMAL: i32 = 0;
    pub const LINEAR: i32 = 1;
}

/// The type of a Vulkan image view.
#[derive(Debug, Clone, Copy, PartialEq, Eq, Structural, Hash, Default)]
pub struct ImageViewType(pub i32);

impl ImageViewType {
    pub const TYPE_1D: i32 = 0;
    pub const TYPE_2D: i32 = 1;
    pub const TYPE_3D: i32 = 2;
    pub const CUBE: i32 = 3;
    pub const TYPE_1D_ARRAY: i32 = 4;
    pub const TYPE_2D_ARRAY: i32 = 5;
    pub const CUBE_ARRAY: i32 = 6;
}

/// Aspects of a Vulkan image, one bit each.
#[derive(Debug, Clone, Copy, PartialEq, Eq, Structural, Hash, Default)]
pub struct ImageAspectFlags(pub u32);

impl ImageAspectFlags {
    pub const COLOR: u32 = 1;
    pub const DEPTH: u32 = 2;
    pub const STENCIL: u32 = 4;
}

/// How a Vulkan image is used, one bit each.
#[derive(Debug, Clone, Copy, PartialEq, Eq, Structural, Hash, Default)]
pub struct ImageUsageFlags(pub u32);

impl ImageUsageFlags {
    pub const TRANSFER_SRC: u32 = 1;
    pub const TRANSFER_DST: u32 = 2;
    pub const SAMPLED: u32 = 4;
    pub const STORAGE: u32 = 8;
    pub const COLOR_ATTACHMENT: u32 = 16;
    pub const DEPTH_STENCIL_ATTACHMENT: u32 = 32;
    pub const TRANSIENT_ATTACHMENT: u32 = 64;
    pub const INPUT_ATTACHMENT: u32 = 128;
}

/// How a Vulkan buffer is used, one bit each.
#[derive(Debug, Clone, Copy, PartialEq, Eq, Structural, Hash, Default)]
pub struct BufferUsageFlags(pub u32);

impl BufferUsageFlags {
    pub const TRANSFER_SRC: u32 = 1;
    pub const TRANSFER_DST: u32 = 2;
    pub const UNIFORM_BUFFER: u32 = 16;
    pub const INDEX_BUFFER: u32 = 64;
    pub const VERTEX_BUFFER: u32 = 128;
}

/// How a Vulkan command buffer will be submitted, one bit each.
#[derive(Debug, Clone, Copy, PartialEq, Eq, Structural, Hash, Default)]
pub struct CommandBufferUsageFlags(pub u32);

impl CommandBufferUsageFlags {
    pub const ONE_TIME_SUBMIT: u32 = 1;
    pub const RENDER_PASS_CONTINUE: u32 = 2;
    pub const SIMULTANEOUS_USE: u32 = 4;
}

/// Whether a Vulkan command buffer is primary or secondary.
#[derive(Debug, Clone, Copy, PartialEq, Eq, Structural, Hash, Default)]
pub struct CommandBufferLevel(pub i32);

impl CommandBufferLevel {
    pub const PRIMARY: i32 = 0;
    pub const SECONDARY: i32 = 1;
}

/// Whether a Vulkan resource is owned by one queue family at a time.
#[derive(Debug, Clone, Copy, PartialEq, Eq, Structural, Hash, Default)]
pub struct SharingMode(pub i32);

impl SharingMode {
    pub const EXCLUSIVE: i32 = 0;
    pub const CONCURRENT: i32 = 1;
}

/// A Vulkan version number: the variant in the top three bits, then the
/// major version in seven bits, the minor version in ten and the patch in
/// twelve.
pub open spec fn spec_api_version(variant: u32, major: u32, minor: u32, patch: u32) -> int {
    variant * 0x2000_0000 + major * 0x40_0000 + minor * 0x1000 + patch
}

/// Version 1.0.0.
pub const VERSION_1_0_0: u32 = 0x40_0000;

/// The Vulkan 1.3 API.
pub const API_VERSION_1_3: u32 = 0x40_3000;

/// Who creates a Vulkan instance: the application's name and version, the
/// engine's name and version, and the Vulkan API it is written against.
#[derive(Debug, Clone, Copy)]
pub struct ApplicationInfo<'a> {
    pub application_name: &'a str,
    pub application_version: u32,
    pub engine_name: &'static str,
    pub engine_version: u32,
    pub api_version: u32,
}

/// How a presented image is blended with what lies behind the window.
#[derive(Debug, Clone, Copy, PartialEq, Eq, Structural, Hash, Default)]
pub struct CompositeAlphaFlagsKHR(pub u32);

impl CompositeAlphaFlagsKHR {
    pub const OPAQUE: u32 = 0b1;
    pub const PRE_MULTIPLIED: u32 = 0b10;
    pub const POST_MULTIPLIED: u32 = 0b100;
    pub const INHERIT: u32 = 0b1000;
}

/// The kind of a Vulkan physical device.
#[derive(Debug, Clone, Copy, PartialEq, Eq, Structural, Hash, Default)]
pub struct PhysicalDeviceType(pub i32);

impl PhysicalDeviceType {
    pub const OTHER: i32 = 0;
    pub const INTEGRATED_GPU: i32 = 1;
    pub const DISCRETE_GPU: i32 = 2;
    pub const VIRTUAL_GPU: i32 = 3;
    pub const CPU: i32 = 4;
}

/// Properties of a Vulkan memory type, one bit each.
#[derive(Debug, Clone, Copy, PartialEq, Eq, Structural, Hash, Default)]
pub struct MemoryPropertyFlags(pub u32);

impl MemoryPropertyFlags {
    pub const DEVICE_LOCAL: u32 = 1;
    pub const HOST_VISIBLE: u32 = 2;
    pub const HOST_COHERENT: u32 = 4;
}

/// Severities of Vulkan debug messages, one bit each.
#[derive(Debug, Clone, Copy, PartialEq, Eq, Structural, Hash, Default)]
pub struct DebugUtilsMessageSeverityFlagsEXT(pub u32);

impl DebugUtilsMessageSeverityFlagsEXT {
    pub const VERBOSE: u32 = 1;
    pub const INFO: u32 = 16;
    pub const WARNING: u32 = 256;
    pub const ERROR: u32 = 4096;
}

/// Kinds of Vulkan debug messages, one bit each.
#[derive(Debug, Clone, Copy, PartialEq, Eq, Structural, Hash, Default)]
pub struct DebugUtilsMessageTypeFlagsEXT(pub u32);

impl DebugUtilsMessageTypeFlagsEXT {
    pub const GENERAL: u32 = 1;
    pub const VALIDATION: u32 = 2;
    pub const PERFORMANCE: u32 = 4;
}

/// A Vulkan result code.
#[derive(Debug, Clone, Copy, PartialEq, Eq, Structural, Hash, Default)]
pub struct VkResult(pub i32);

impl VkResult {
    pub const SUCCESS: i32 = 0;
    pub const NOT_READY: i32 = 1;
    pub const SUBOPTIMAL_KHR: i32 = 1000001003;
    pub const ERROR_OUT_OF_DATE_KHR: i32 = -1000001004;
    pub const ERROR_SURFACE_LOST_KHR: i32 = -1000000000;
    pub const ERROR_DEVICE_LOST: i32 = -4;
    pub const ERROR_OUT_OF_HOST_MEMORY: i32 = -1;
    pub const ERROR_OUT_OF_DEVICE_MEMORY: i32 = -2;
}

/// Vulkan fence creation options.
#[derive(Debug, Clone, Copy, PartialEq, Eq, Structural, Hash, Default)]
pub struct FenceCreateFlags(pub u32);

impl FenceCreateFlags {
    pub const SIGNALED: u32 = 1;
}

/// A Vulkan command buffer handle.
#[derive(Debug, Clone, Copy, PartialEq, Eq, Structural, Hash, Default)]
pub struct CommandBuffer(pub u64);

/// A Vulkan image handle.
#[derive(Debug, Clone, Copy, PartialEq, Eq, Structural, Hash, Default)]
pub struct Image(pub u64);

/// A Vulkan image view handle.
#[derive(Debug, Clone, Copy, PartialEq, Eq, Structural, Hash, Default)]
pub struct ImageView(pub u64);

/// A Vulkan shader module handle.
#[derive(Debug, Clone, Copy, PartialEq, Eq, Structural, Hash, Default)]
pub struct ShaderModule(pub u64);

/// A Vulkan pipeline layout handle.
#[derive(Debug, Clone, Copy, PartialEq, Eq, Structural, Hash, Default)]
pub struct PipelineLayout(pub u64);

/// A Vulkan render pass handle.
#[derive(Debug, Clone, Copy, PartialEq, Eq, Structural, Hash, Default)]
pub struct RenderPass(pub u64);

/// A Vulkan semaphore handle.
#[derive(Debug, Clone, Copy, PartialEq, Eq, Structural, Hash, Default)]
pub struct Semaphore(pub u64);

/// A Vulkan fence handle.
#[derive(Debug, Clone, Copy, PartialEq, Eq, Structural, Hash, Default)]
pub struct Fence(pub u64);

/// The subpass index that stands for everything outside a render pass.
pub const SUBPASS_EXTERNAL: u32 = 0xffff_ffff;

/// The Vulkan boolean true.
pub const TRUE: u32 = 1;

/// A Vulkan position in pixels.
#[derive(Debug, Clone, Copy, PartialEq, Eq, Structural, Default)]
pub struct Offset2D {
    pub x: i32,
    pub y: i32,
}

/// A Vulkan width and height in pixels.
#[derive(Debug, Clone, Copy, PartialEq, Eq, Structural, Default)]
pub struct Extent2D {
    pub width: u32,
    pub height: u32,
}

/// A Vulkan width, height and depth in pixels.
#[derive(Debug, Clone, Copy, PartialEq, Eq, Structural, Default)]
pub struct Extent3D {
    pub width: u32,
    pub height: u32,
    pub depth: u32,
}

/// A Vulkan rectangle in pixels.
#[derive(Debug, Clone, Copy, PartialEq, Eq, Structural, Default)]
pub struct Rect2D {
    pub offset: Offset2D,
    pub extent: Extent2D,
}

/// A Vulkan reference from a subpass to an attachment.
#[derive(Debug, Clone, Copy, PartialEq, Eq, Structural, Default)]
pub struct AttachmentReference {
    pub attachment: u32,
    pub layout: ImageLayout,
}

/// A Vulkan stencil test state.
#[derive(Debug, Clone, Copy, PartialEq, Eq, Structural, Default)]
pub struct StencilOpState {
    pub fail_op: StencilOp,
    pub pass_op: StencilOp,
    pub depth_fail_op: StencilOp,
    pub compare_op: CompareOp,
    pub compare_mask: u32,
    pub write_mask: u32,
    pub reference: u32,
}

/// A format and color space a Vulkan surface can present.
#[derive(Debug, Clone, Copy, PartialEq, Eq, Structural, Default)]
pub struct SurfaceFormatKHR {
    pub format: Format,
    pub color_space: ColorSpaceKHR,
}

/// What a Vulkan surface allows a swapchain to be.
#[derive(Debug, Clone, Copy, PartialEq, Eq, Structural, Default)]
pub struct SurfaceCapabilitiesKHR {
    pub min_image_count: u32,
    /// Zero when there is no limit.
    pub max_image_count: u32,
    /// `u32::MAX` wide when the swapchain decides the extent.
    pub current_extent: Extent2D,
    pub min_image_extent: Extent2D,
    pub max_image_extent: Extent2D,
    pub max_image_array_layers: u32,
    pub current_transform: u32,
    pub supported_usage_flags: ImageUsageFlags,
}

/// What a Vulkan queue family offers.
#[derive(Debug, Clone, Copy, PartialEq, Eq, Structural, Default)]
pub struct QueueFamilyProperties {
    pub queue_flags: QueueFlags,
    pub queue_count: u32,
}

/// What a Vulkan format supports with each tiling.
#[derive(Debug, Clone, Copy, PartialEq, Eq, Structural, Default)]
pub struct FormatProperties {
    pub linear_tiling_features: FormatFeatureFlags,
    pub optimal_tiling_features: FormatFeatureFlags,
}

/// A Vulkan memory type.
#[derive(Debug, Clone, Copy, PartialEq, Eq, Structural, Default)]
pub struct MemoryType {
    pub property_flags: MemoryPropertyFlags,
    pub heap_index: u32,
}

/// The memory types a Vulkan physical device offers.
#[derive(Debug, Clone, Copy)]
pub struct PhysicalDeviceMemoryProperties {
    pub memory_type_count: u32,
    pub memory_types: [MemoryType; 32],
}

/// What a Vulkan resource needs of the memory it is bound to.
#[derive(Debug, Clone, Copy, PartialEq, Eq, Structural, Default)]
pub struct MemoryRequirements {
    pub size: u64,
    pub alignment: u64,
    /// Bit `i` is set when memory type `i` may hold the resource.
    pub memory_type_bits: u32,
}

/// A Vulkan pool size: how many descriptors of a type a pool holds.
#[derive(Debug, Clone, Copy, PartialEq, Eq, Structural, Default)]
pub struct DescriptorPoolSize {
    pub ty: DescriptorType,
    pub descriptor_count: u32,
}

/// A Vulkan dependency between two subpasses.
#[derive(Debug, Clone, Copy, PartialEq, Eq, Structural, Default)]
pub struct SubpassDependency {
    pub src_subpass: u32,
    pub dst_subpass: u32,
    pub src_stage_mask: PipelineStageFlags,
    pub dst_stage_mask: PipelineStageFlags,
    pub src_access_mask: AccessFlags,
    pub dst_access_mask: AccessFlags,
}

/// A Vulkan push constant range.
#[derive(Debug, Clone, Copy, PartialEq, Eq, Structural, Default)]
pub struct PushConstantRange {
    pub stage_flags: ShaderStageFlags,
    pub offset: u32,
    pub size: u32,
}

/// The core Vulkan device features the renderer reads, each a Vulkan boolean.
#[derive(Debug, Clone, Copy, PartialEq, Eq, Structural, Default)]
pub struct PhysicalDeviceFeatures {
    pub sampler_anisotropy: u32,
    pub sample_rate_shading: u32,
    pub fragment_stores_and_atomics: u32,
    pub independent_blend: u32,
    pub geometry_shader: u32,
}

/// The Vulkan 1.2 device features the renderer reads.
#[derive(Debug, Clone, Copy, PartialEq, Eq, Structural, Default)]
pub struct PhysicalDeviceVulkan12Features {
    pub runtime_descriptor_array: u32,
    pub buffer_device_address: u32,
}

/// The Vulkan 1.3 device features the renderer reads.
#[derive(Debug, Clone, Copy, PartialEq, Eq, Structural, Default)]
pub struct PhysicalDeviceVulkan13Features {
    pub dynamic_rendering: u32,
    pub synchronization2: u32,
}

/// The ray tracing pipeline feature of a Vulkan device.
#[derive(Debug, Clone, Copy, PartialEq, Eq, Structural, Default)]
pub struct PhysicalDeviceRayTracingPipelineFeaturesKHR {
    pub ray_tracing_pipeline: u32,
}

/// The acceleration structure feature of a Vulkan device.
#[derive(Debug, Clone, Copy, PartialEq, Eq, Structural, Default)]
pub struct PhysicalDeviceAccelerationStructureFeaturesKHR {
    pub acceleration_structure: u32,
}

/// The Vulkan boolean false.
pub const FALSE: u32 = 0;

/// A Vulkan render pass attachment.
#[derive(Debug, Clone, Copy, PartialEq, Eq, Structural, Default)]
pub struct AttachmentDescription {
    pub flags: AttachmentDescriptionFlags,
    pub format: Format,
    pub samples: SampleCountFlags,
    pub load_op: AttachmentLoadOp,
    pub store_op: AttachmentStoreOp,
    pub stencil_load_op: AttachmentLoadOp,
    pub stencil_store_op: AttachmentStoreOp,
    pub initial_layout: ImageLayout,
    pub final_layout: ImageLayout,
}

/// A Vulkan vertex buffer binding.
#[derive(Debug, Clone, Copy, PartialEq, Eq, Structural, Default)]
pub struct VertexInputBindingDescription {
    pub binding: u32,
    pub stride: u32,
    pub input_rate: VertexInputRate,
}

/// A Vulkan vertex attribute.
#[derive(Debug, Clone, Copy, PartialEq, Eq, Structural, Default)]
pub struct VertexInputAttributeDescription {
    pub location: u32,
    pub binding: u32,
    pub format: Format,
    pub offset: u32,
}

/// How a Vulkan color attachment blends.
#[derive(Debug, Clone, Copy, PartialEq, Eq, Structural, Default)]
pub struct PipelineColorBlendAttachmentState {
    /// A Vulkan boolean.
    pub blend_enable: u32,
    pub src_color_blend_factor: BlendFactor,
    pub dst_color_blend_factor: BlendFactor,
    pub color_blend_op: BlendOp,
    pub src_alpha_blend_factor: BlendFactor,
    pub dst_alpha_blend_factor: BlendFactor,
    pub alpha_blend_op: BlendOp,
    pub color_write_mask: ColorComponentFlags,
}

/// A Vulkan descriptor set layout binding.
#[derive(Debug, Clone, Copy, PartialEq, Eq, Structural, Default)]
pub struct DescriptorSetLayoutBinding {
    pub binding: u32,
    pub descriptor_type: DescriptorType,
    pub descriptor_count: u32,
    pub stage_flags: ShaderStageFlags,
}

/// Vulkan image creation options.
#[derive(Debug, Clone, Copy, PartialEq, Eq, Structural, Hash, Default)]
pub struct ImageCreateFlags(pub u32);

} // verus!
