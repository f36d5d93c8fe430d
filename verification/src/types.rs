//! The first-generation renderer's own descriptions of instances, adapters,
//! queues, attachments and surfaces.
use vstd::prelude::*;

use crate::rhi_types::LevelFilter;

verus! {

/// What an instance turns on: debug messages and validation.
#[derive(Debug, Clone, Copy, PartialEq, Eq, Structural, Hash)]
pub struct InstanceFlags {
    pub bits: u16,
}

impl InstanceFlags {
    pub const DEBUG: u16 = 0x1;
    pub const VALIDATION: u16 = 0x2;
    /// Every bit that a named flag uses.
    pub const ALL_BITS: u16 = 0x3;

    pub open spec fn spec_contains(self, other: Self) -> bool {
        self.bits & other.bits == other.bits
    }

    pub open spec fn spec_has(self, bit: u16) -> bool {
        self.bits & bit == bit
    }

    pub fn bits(&self) -> (r: u16)
        ensures
            r == self.bits,
    {
        self.bits
    }

    pub fn from_bits_retain(bits: u16) -> (r: Self)
        ensures
            r.bits == bits,
    {
        InstanceFlags { bits }
    }

    pub fn empty() -> (r: Self)
        ensures
            r.bits == 0,
    {
        InstanceFlags { bits: 0 }
    }

    pub fn all() -> (r: Self)
        ensures
            r.bits == Self::ALL_BITS,
    {
        InstanceFlags { bits: Self::ALL_BITS }
    }

    pub fn contains(&self, other: Self) -> (r: bool)
        ensures
            r == self.spec_contains(other),
    {
        self.bits & other.bits == other.bits
    }

    pub fn union(self, other: Self) -> (r: Self)
        ensures
            r.bits == self.bits | other.bits,
    {
        InstanceFlags { bits: self.bits | other.bits }
    }
}

/// What an adapter must offer to be chosen.
#[derive(Debug, Clone, Copy, PartialEq, Eq, Structural)]
pub struct AdapterRequirements {
    pub graphics: bool,
    pub present: bool,
    pub compute: bool,
    pub transfer: bool,
    pub sampler_anisotropy: bool,
    pub sample_rate_shading: bool,
    pub extra_features: DeviceFeatures,
    pub discrete_gpu: bool,
}

impl AdapterRequirements {
    /// The requirements a builder starts from: graphics, present and
    /// transfer queues but no compute queue, anisotropic sampling, sample
    /// rate shading, no extra feature beyond the default ones, and a
    /// discrete GPU.
    pub open spec fn spec_builder() -> AdapterRequirements {
        AdapterRequirements {
            graphics: true,
            present: true,
            compute: false,
            transfer: true,
            sampler_anisotropy: true,
            sample_rate_shading: true,
            extra_features: DeviceFeatures::spec_default(),
            discrete_gpu: true,
        }
    }

    pub fn builder() -> (r: Self)
        ensures
            r == Self::spec_builder(),
    {
        AdapterRequirements {
            graphics: true,
            present: true,
            compute: false,
            transfer: true,
            sampler_anisotropy: true,
            sample_rate_shading: true,
            extra_features: DeviceFeatures::default(),
            discrete_gpu: true,
        }
    }

    pub fn build(self) -> (r: Self)
        ensures
            r == self,
    {
        self
    }
}

/// Optional device features beyond the core ones.
#[derive(Debug, Clone, Copy, PartialEq, Eq, Structural)]
pub struct DeviceFeatures {
    pub ray_tracing_pipeline: bool,
    pub acceleration_structure: bool,
    pub runtime_descriptor_array: bool,
    pub buffer_device_address: bool,
    pub dynamic_rendering: bool,
    pub synchronization2: bool,
}

impl DeviceFeatures {
    /// No feature at all.
    pub open spec fn spec_default() -> DeviceFeatures {
        DeviceFeatures {
            ray_tracing_pipeline: false,
            acceleration_structure: false,
            runtime_descriptor_array: false,
            buffer_device_address: false,
            dynamic_rendering: false,
            synchronization2: false,
        }
    }

    /// The features a builder starts from: synchronization2 alone.
    pub open spec fn spec_builder() -> DeviceFeatures {
        DeviceFeatures { synchronization2: true, ..Self::spec_default() }
    }

    pub fn builder() -> (r: Self)
        ensures
            r == Self::spec_builder(),
    {
        DeviceFeatures {
            ray_tracing_pipeline: false,
            acceleration_structure: false,
            runtime_descriptor_array: false,
            buffer_device_address: false,
            dynamic_rendering: false,
            synchronization2: true,
        }
    }

    pub fn build(self) -> (r: Self)
        ensures
            r == self,
    {
        self
    }

    /// Every feature that `requirements` asks for is one that `self` has.
    pub open spec fn spec_is_compatible_with(self, requirements: Self) -> bool {
        &&& (requirements.ray_tracing_pipeline ==> self.ray_tracing_pipeline)
        &&& (requirements.acceleration_structure ==> self.acceleration_structure)
        &&& (requirements.runtime_descriptor_array ==> self.runtime_descriptor_array)
        &&& (requirements.buffer_device_address ==> self.buffer_device_address)
        &&& (requirements.dynamic_rendering ==> self.dynamic_rendering)
        &&& (requirements.synchronization2 ==> self.synchronization2)
    }

    pub fn is_compatible_with(&self, requirements: &Self) -> (r: bool)
        ensures
            r == self.spec_is_compatible_with(*requirements),
    {
        (!requirements.ray_tracing_pipeline || self.ray_tracing_pipeline) && (
        !requirements.acceleration_structure || self.acceleration_structure) && (
        !requirements.runtime_descriptor_array || self.runtime_descriptor_array) && (
        !requirements.buffer_device_address || self.buffer_device_address) && (
        !requirements.dynamic_rendering || self.dynamic_rendering) && (
        !requirements.synchronization2 || self.synchronization2)
    }
}

impl Default for DeviceFeatures {
    fn default() -> (r: Self)
        ensures
            r == Self::spec_default(),
    {
        DeviceFeatures {
            ray_tracing_pipeline: false,
            acceleration_structure: false,
            runtime_descriptor_array: false,
            buffer_device_address: false,
            dynamic_rendering: false,
            synchronization2: false,
        }
    }
}

/// A device meets a request exactly when it has every feature the request
/// asks for: one feature asked for and missing is enough to refuse it.
pub proof fn lemma_compatibility_is_fieldwise_coverage(a: DeviceFeatures, requirements: DeviceFeatures)
    ensures
        requirements.ray_tracing_pipeline && !a.ray_tracing_pipeline ==> !a.spec_is_compatible_with(requirements),
        requirements.acceleration_structure && !a.acceleration_structure ==> !a.spec_is_compatible_with(requirements),
        requirements.runtime_descriptor_array && !a.runtime_descriptor_array ==> !a.spec_is_compatible_with(requirements),
        requirements.buffer_device_address && !a.buffer_device_address ==> !a.spec_is_compatible_with(requirements),
        requirements.dynamic_rendering && !a.dynamic_rendering ==> !a.spec_is_compatible_with(requirements),
        requirements.synchronization2 && !a.synchronization2 ==> !a.spec_is_compatible_with(requirements),
        a.spec_is_compatible_with(requirements) <==> ((requirements.ray_tracing_pipeline ==> a.ray_tracing_pipeline) && (requirements.acceleration_structure ==> a.acceleration_structure) && (requirements.runtime_descriptor_array ==> a.runtime_descriptor_array) && (requirements.buffer_device_address ==> a.buffer_device_address) && (requirements.dynamic_rendering ==> a.dynamic_rendering) && (requirements.synchronization2 ==> a.synchronization2)),
{
}

/// A feature set covers itself, and covering chains: a device that covers
/// what covers a request covers the request.
pub proof fn lemma_device_features_compatibility_is_a_preorder(
    a: DeviceFeatures,
    b: DeviceFeatures,
    c: DeviceFeatures,
)
    ensures
        a.spec_is_compatible_with(a),
        a.spec_is_compatible_with(b) && b.spec_is_compatible_with(c) ==> a.spec_is_compatible_with(c),
{
}

/// Every feature set covers the default request, which asks for nothing.
pub proof fn lemma_default_features_are_always_met(a: DeviceFeatures)
    ensures
        a.spec_is_compatible_with(DeviceFeatures::spec_default()),
{
}

/// What the logical device must enable.
#[derive(Debug, Clone, Copy)]
pub struct DeviceRequirements<'a> {
    /// Extensions to enable besides the swapchain extension.
    pub required_extension: &'a [&'a str],
    /// False for headless rendering, which needs no swapchain extension.
    pub use_swapchain: bool,
}

impl<'a> DeviceRequirements<'a> {
    /// Requirements for the given extensions, with the swapchain.
    pub fn builder(required_extension: &'a [&'a str]) -> (r: Self)
        ensures
            r.required_extension == required_extension,
            r.use_swapchain,
    {
        DeviceRequirements { required_extension, use_swapchain: true }
    }

    pub fn use_swapchain(self, use_swapchain: bool) -> (r: Self)
        ensures
            r.required_extension == self.required_extension,
            r.use_swapchain == use_swapchain,
    {
        DeviceRequirements { use_swapchain, ..self }
    }

    pub fn build(self) -> (r: Self)
        ensures
            r == self,
    {
        self
    }
}

/// One attachment of a render target.
#[derive(Debug, Clone, Copy, PartialEq, Eq, Structural)]
pub struct RenderTargetAttachment {
    pub format: ImageFormat,
    pub ty: RenderTargetAttachmentType,
    pub load_op: AttachmentLoadOp,
    pub store_op: AttachmentStoreOp,
}

impl RenderTargetAttachment {
    /// A color attachment in the swapchain's format that keeps what it held.
    pub open spec fn spec_default() -> RenderTargetAttachment {
        RenderTargetAttachment {
            format: ImageFormat::Bgra8UnormSrgb,
            ty: RenderTargetAttachmentType::Color,
            load_op: AttachmentLoadOp::Load,
            store_op: AttachmentStoreOp::Store,
        }
    }
}

impl Default for RenderTargetAttachment {
    fn default() -> (r: Self)
        ensures
            r == Self::spec_default(),
    {
        RenderTargetAttachment {
            format: ImageFormat::Bgra8UnormSrgb,
            ty: RenderTargetAttachmentType::Color,
            load_op: AttachmentLoadOp::Load,
            store_op: AttachmentStoreOp::Store,
        }
    }
}

/// What a render target attachment holds.
#[derive(Debug, Clone, Copy, PartialEq, Eq, Structural, Hash)]
pub enum RenderTargetAttachmentType {
    Color,
    Depth,
    Stencil,
}

/// Which buffers a render pass clears.
#[derive(Debug, Clone, Copy, PartialEq, Eq, Structural, Hash)]
pub struct RenderPassClearFlags {
    pub bits: u16,
}

impl RenderPassClearFlags {
    pub const NONE: u16 = 0x1;
    pub const COLOR_BUFFER: u16 = 0x2;
    pub const DEPTH_BUFFER: u16 = 0x4;
    pub const STENCIL_BUFFER: u16 = 0x8;
    /// Every bit that a named flag uses.
    pub const ALL_BITS: u16 = 0xf;

    pub open spec fn spec_contains(self, other: Self) -> bool {
        self.bits & other.bits == other.bits
    }

    pub open spec fn spec_has(self, bit: u16) -> bool {
        self.bits & bit == bit
    }

    pub fn bits(&self) -> (r: u16)
        ensures
            r == self.bits,
    {
        self.bits
    }

    pub fn from_bits_retain(bits: u16) -> (r: Self)
        ensures
            r.bits == bits,
    {
        RenderPassClearFlags { bits }
    }

    pub fn empty() -> (r: Self)
        ensures
            r.bits == 0,
    {
        RenderPassClearFlags { bits: 0 }
    }

    pub fn all() -> (r: Self)
        ensures
            r.bits == Self::ALL_BITS,
    {
        RenderPassClearFlags { bits: Self::ALL_BITS }
    }

    pub fn contains(&self, other: Self) -> (r: bool)
        ensures
            r == self.spec_contains(other),
    {
        self.bits & other.bits == other.bits
    }

    pub fn union(self, other: Self) -> (r: Self)
        ensures
            r.bits == self.bits | other.bits,
    {
        RenderPassClearFlags { bits: self.bits | other.bits }
    }
}

/// What happens to an attachment's contents when a render pass begins.
#[derive(Debug, Clone, Copy, PartialEq, Eq, Structural)]
pub enum AttachmentLoadOp {
    Clear,
    Discard,
    Load,
}

/// What happens to an attachment's contents when a render pass ends.
#[derive(Debug, Clone, Copy, PartialEq, Eq, Structural)]
pub enum AttachmentStoreOp {
    Discard,
    Store,
}

/// How an image is laid out for its next use.
#[derive(Debug, Clone, Copy, PartialEq, Eq, Structural)]
pub enum ImageLayout {
    ColorInput,
    ColorOutput,
    DepthStencilReadOnly,
    DepthStencilReadWrite,
    General,
    Present,
    TransferSource,
    TransferDestination,
    Undefined,
}

/// Pipeline stages a dependency waits for or blocks.
#[derive(Debug, Clone, Copy, PartialEq, Eq, Structural, Hash)]
pub struct PipelineState {
    pub bits: u16,
}

impl PipelineState {
    /// Before subsequent commands are processed
    pub const TOP_OF_PIPE: u16 = 0x1;
    /// Color attachment writes
    pub const COLOR_ATTACHMENT_OUTPUT: u16 = 0x2;
    /// Compute shading
    pub const COMPUTE_SHADER: u16 = 0x4;
    /// Fragment shading
    pub const FRAGMENT_SHADER: u16 = 0x8;
    /// Early fragment (depth and stencil) tests
    pub const FRAGMENT_TESTS_EARLY: u16 = 0x10;
    /// Late fragment (depth and stencil) tests
    pub const FRAGMENT_TESTS_LATE: u16 = 0x20;
    /// Transfer/copy operations
    pub const TRANSFER: u16 = 0x40;
    /// Every bit that a named flag uses.
    pub const ALL_BITS: u16 = 0x7f;

    pub open spec fn spec_contains(self, other: Self) -> bool {
        self.bits & other.bits == other.bits
    }

    pub open spec fn spec_has(self, bit: u16) -> bool {
        self.bits & bit == bit
    }

    pub fn bits(&self) -> (r: u16)
        ensures
            r == self.bits,
    {
        self.bits
    }

    pub fn from_bits_retain(bits: u16) -> (r: Self)
        ensures
            r.bits == bits,
    {
        PipelineState { bits }
    }

    pub fn empty() -> (r: Self)
        ensures
            r.bits == 0,
    {
        PipelineState { bits: 0 }
    }

    pub fn all() -> (r: Self)
        ensures
            r.bits == Self::ALL_BITS,
    {
        PipelineState { bits: Self::ALL_BITS }
    }

    pub fn contains(&self, other: Self) -> (r: bool)
        ensures
            r == self.spec_contains(other),
    {
        self.bits & other.bits == other.bits
    }

    pub fn union(self, other: Self) -> (r: Self)
        ensures
            r.bits == self.bits | other.bits,
    {
        PipelineState { bits: self.bits | other.bits }
    }
}

/// Memory accesses a dependency orders.
#[derive(Debug, Clone, Copy, PartialEq, Eq, Structural, Hash)]
pub struct AccessFlags {
    pub bits: u16,
}

impl AccessFlags {
    /// Controls coherency of input attachment reads
    pub const COLOR_ATTACHMENT_READ: u16 = 0x1;
    /// Controls coherency of color attachment writes
    pub const COLOR_ATTACHMENT_WRITE: u16 = 0x2;
    /// Every bit that a named flag uses.
    pub const ALL_BITS: u16 = 0x3;

    pub open spec fn spec_contains(self, other: Self) -> bool {
        self.bits & other.bits == other.bits
    }

    pub open spec fn spec_has(self, bit: u16) -> bool {
        self.bits & bit == bit
    }

    pub fn bits(&self) -> (r: u16)
        ensures
            r == self.bits,
    {
        self.bits
    }

    pub fn from_bits_retain(bits: u16) -> (r: Self)
        ensures
            r.bits == bits,
    {
        AccessFlags { bits }
    }

    pub fn empty() -> (r: Self)
        ensures
            r.bits == 0,
    {
        AccessFlags { bits: 0 }
    }

    pub fn all() -> (r: Self)
        ensures
            r.bits == Self::ALL_BITS,
    {
        AccessFlags { bits: Self::ALL_BITS }
    }

    pub fn contains(&self, other: Self) -> (r: bool)
        ensures
            r == self.spec_contains(other),
    {
        self.bits & other.bits == other.bits
    }

    pub fn union(self, other: Self) -> (r: Self)
        ensures
            r.bits == self.bits | other.bits,
    {
        AccessFlags { bits: self.bits | other.bits }
    }
}

/// Pixel formats an image of the renderer can have.
#[derive(Copy, Clone, Debug, PartialEq, Eq, Structural, Hash)]
pub enum ImageFormat {
    Bgra8UnormSrgb,
    Depth32Float,
    Depth24Stencil8,
}

impl ImageFormat {
    /// Whether the format stores depth.
    pub open spec fn spec_is_depth_format(self) -> bool {
        self == ImageFormat::Depth24Stencil8 || self == ImageFormat::Depth32Float
    }

    pub fn is_depth_format(&self) -> (r: bool)
        ensures
            r == self.spec_is_depth_format(),
    {
        *self == ImageFormat::Depth24Stencil8 || *self == ImageFormat::Depth32Float
    }
}

/// What an image is used for.
#[derive(Debug, Clone, Copy, PartialEq, Eq, Structural)]
pub enum ImageUsage {
    Texture,
    Attachment,
    Storage,
}

/// How a sampler treats coordinates outside an image.
#[derive(Debug, Clone, Copy, PartialEq, Eq, Structural)]
pub enum ImageWrap {
    Clamp,
    Repeat,
}

/// How a sampler blends texels.
#[derive(Debug, Clone, Copy, PartialEq, Eq, Structural)]
pub enum ImageFilter {
    Linear,
    Nearest,
}

/// The shape of an image.
#[derive(Debug, Clone, Copy, PartialEq, Eq, Structural)]
pub enum ImageType {
    D2,
    Cube,
}

/// What an instance is created with.
#[derive(Debug, Clone, Copy)]
pub struct InstanceDescriptor<'a> {
    pub name: &'a str,
    pub flags: InstanceFlags,
    pub debug_level_filter: LevelFilter,
}

impl<'a> InstanceDescriptor<'a> {
    /// A descriptor with no name, every instance flag and warnings reported.
    pub fn builder() -> (r: InstanceDescriptor<'static>)
        ensures
            r.name@.len() == 0,
            r.flags.bits == InstanceFlags::ALL_BITS,
            r.debug_level_filter == LevelFilter::Warn,
    {
        let name = "";
        proof {
            reveal_strlit("");
        }
        InstanceDescriptor { name, flags: InstanceFlags::all(), debug_level_filter: LevelFilter::Warn }
    }

    pub fn name(self, name: &'a str) -> (r: Self)
        ensures
            r.name == name,
            r.flags == self.flags,
            r.debug_level_filter == self.debug_level_filter,
    {
        InstanceDescriptor { name, ..self }
    }

    pub fn flags(self, flags: InstanceFlags) -> (r: Self)
        ensures
            r.name == self.name,
            r.flags == flags,
            r.debug_level_filter == self.debug_level_filter,
    {
        InstanceDescriptor { flags, ..self }
    }

    pub fn debug_level_filter(self, debug_level_filter: LevelFilter) -> (r: Self)
        ensures
            r.name == self.name,
            r.flags == self.flags,
            r.debug_level_filter == debug_level_filter,
    {
        InstanceDescriptor { debug_level_filter, ..self }
    }

    pub fn build(self) -> (r: Self)
        ensures
            r == self,
    {
        self
    }
}

/// What is known of an adapter.
#[derive(Clone, Debug, PartialEq, Eq)]
pub struct AdapterInfo {
    /// The adapter's name.
    pub name: String,
    /// The PCI vendor id, or the backend's own vendor id where there is none.
    pub vendor: usize,
    /// The PCI device id.
    pub device: usize,
    pub device_type: DeviceType,
    pub driver: String,
    pub driver_info: String,
    pub backend: Backend,
}

/// The graphics API behind an adapter.
#[derive(Debug, Clone, Copy, PartialEq, Eq, Structural, Hash)]
pub enum Backend {
    Empty,
    Vulkan,
}

impl Backend {
    /// The number the Vulkan API gives to the variant.
    pub open spec fn spec_to_i32(self) -> i32 {
        match self {
            Backend::Empty => 0,
            Backend::Vulkan => 1,
        }
    }

    /// The variant that the Vulkan API numbers `value`, if there is one.
    pub open spec fn spec_from_i32(value: i32) -> Option<Backend> {
        if value == 0 {
            Some(Backend::Empty)
        } else if value == 1 {
            Some(Backend::Vulkan)
        } else {
            None
        }
    }

    pub fn to_i32(&self) -> (r: i32)
        ensures
            r == self.spec_to_i32(),
    {
        match self {
            Backend::Empty => 0,
            Backend::Vulkan => 1,
        }
    }

    pub fn from_i32(value: i32) -> (r: Option<Self>)
        ensures
            r == Self::spec_from_i32(value),
    {
        match value {
            0 => Some(Backend::Empty),
            1 => Some(Backend::Vulkan),
            _ => None,
        }
    }

    /// Reading back the number of a variant gives the variant.
    pub proof fn lemma_from_to(self)
        ensures
            Self::spec_from_i32(self.spec_to_i32()) == Some(self),
    {
    }

    /// A number that names a variant is that variant's number.
    pub proof fn lemma_to_from(value: i32)
        ensures
            Self::spec_from_i32(value) matches Some(v) ==> v.spec_to_i32() == value,
    {
    }
}

/// What kind of device an adapter is.
#[derive(Clone, Copy, Debug, PartialEq, Eq, Structural)]
pub enum DeviceType {
    /// Other or unknown.
    Other,
    /// An integrated GPU that shares memory with the CPU.
    IntegratedGpu,
    /// A discrete GPU with memory of its own.
    DiscreteGpu,
    /// A virtual or hosted GPU.
    VirtualGpu,
    /// Software rendering on the CPU.
    Cpu,
}

/// Optional capabilities of a device; none is named yet.
#[derive(Debug, Clone, Copy, PartialEq, Eq, Structural, Default)]
pub struct Features {
    pub bits: u64,
}

impl Features {
    pub fn empty() -> (r: Self)
        ensures
            r.bits == 0,
    {
        Features { bits: 0 }
    }

    pub fn bits(&self) -> (r: u64)
        ensures
            r == self.bits,
    {
        self.bits
    }
}

/// How a surface is configured.
#[derive(Debug, Clone, Copy, PartialEq, Eq, Structural)]
pub struct SurfaceConfiguration {
    /// The number of images in the swapchain.
    pub swap_chain_size: u32,
    pub present_mode: PresentMode,
    pub format: ImageFormat,
    pub extent: Extent3d,
}

/// How the presentation engine paces frames.
#[derive(Debug, Clone, Copy, PartialEq, Eq, Structural, Hash, Default)]
pub enum PresentMode {
    AutoNoVsync,
    #[default]
    Fifo,
    FifoRelaxed,
    Immediate,
    Mailbox,
}

impl PresentMode {
    /// The number the Vulkan API gives to the variant.
    pub open spec fn spec_to_i32(self) -> i32 {
        match self {
            PresentMode::AutoNoVsync => 1,
            PresentMode::Fifo => 2,
            PresentMode::FifoRelaxed => 3,
            PresentMode::Immediate => 4,
            PresentMode::Mailbox => 5,
        }
    }

    /// The variant that the Vulkan API numbers `value`, if there is one.
    pub open spec fn spec_from_i32(value: i32) -> Option<PresentMode> {
        if value == 1 {
            Some(PresentMode::AutoNoVsync)
        } else if value == 2 {
            Some(PresentMode::Fifo)
        } else if value == 3 {
            Some(PresentMode::FifoRelaxed)
        } else if value == 4 {
            Some(PresentMode::Immediate)
        } else if value == 5 {
            Some(PresentMode::Mailbox)
        } else {
            None
        }
    }

    pub fn to_i32(&self) -> (r: i32)
        ensures
            r == self.spec_to_i32(),
    {
        match self {
            PresentMode::AutoNoVsync => 1,
            PresentMode::Fifo => 2,
            PresentMode::FifoRelaxed => 3,
            PresentMode::Immediate => 4,
            PresentMode::Mailbox => 5,
        }
    }

    pub fn from_i32(value: i32) -> (r: Option<Self>)
        ensures
            r == Self::spec_from_i32(value),
    {
        match value {
            1 => Some(PresentMode::AutoNoVsync),
            2 => Some(PresentMode::Fifo),
            3 => Some(PresentMode::FifoRelaxed),
            4 => Some(PresentMode::Immediate),
            5 => Some(PresentMode::Mailbox),
            _ => None,
        }
    }

    /// Reading back the number of a variant gives the variant.
    pub proof fn lemma_from_to(self)
        ensures
            Self::spec_from_i32(self.spec_to_i32()) == Some(self),
    {
    }

    /// A number that names a variant is that variant's number.
    pub proof fn lemma_to_from(value: i32)
        ensures
            Self::spec_from_i32(value) matches Some(v) ==> v.spec_to_i32() == value,
    {
    }
}

/// The size of an image or of an array of layers.
#[derive(Debug, Clone, Copy, PartialEq, Eq, Structural)]
pub struct Extent3d {
    pub width: u32,
    pub height: u32,
    pub depth_or_array_layers: u32,
}

/// The queue family chosen for each kind of work, if one was found.
#[derive(Debug, Copy, Clone, Default, PartialEq, Eq, Structural)]
pub struct QueueFamilyIndices {
    pub graphics_family: Option<u32>,
    pub present_family: Option<u32>,
    pub compute_family: Option<u32>,
    pub transfer_family: Option<u32>,
}

impl QueueFamilyIndices {
    /// No family chosen yet.
    pub open spec fn spec_empty() -> QueueFamilyIndices {
        QueueFamilyIndices {
            graphics_family: None,
            present_family: None,
            compute_family: None,
            transfer_family: None,
        }
    }

    pub fn empty() -> (r: Self)
        ensures
            r == Self::spec_empty(),
    {
        QueueFamilyIndices {
            graphics_family: None,
            present_family: None,
            compute_family: None,
            transfer_family: None,
        }
    }

    /// A family was found for each kind of queue that `requirements` asks for.
    pub open spec fn spec_has_meet_requirement(self, requirements: AdapterRequirements) -> bool {
        &&& (requirements.graphics ==> self.graphics_family is Some)
        &&& (requirements.present ==> self.present_family is Some)
        &&& (requirements.compute ==> self.compute_family is Some)
        &&& (requirements.transfer ==> self.transfer_family is Some)
    }

    pub fn has_meet_requirement(&self, requirements: &AdapterRequirements) -> (r: bool)
        ensures
            r == self.spec_has_meet_requirement(*requirements),
    {
        if requirements.graphics && self.graphics_family.is_none() {
            return false;
        }
        if requirements.present && self.present_family.is_none() {
            return false;
        }
        if requirements.compute && self.compute_family.is_none() {
            return false;
        }
        if requirements.transfer && self.transfer_family.is_none() {
            return false;
        }
        true
    }

    /// A family was found for every kind of queue.
    pub open spec fn spec_is_complete(self) -> bool {
        &&& self.graphics_family is Some
        &&& self.transfer_family is Some
        &&& self.present_family is Some
        &&& self.compute_family is Some
    }

    pub fn is_complete(&self) -> (r: bool)
        ensures
            r == self.spec_is_complete(),
    {
        self.graphics_family.is_some() && self.transfer_family.is_some()
            && self.present_family.is_some() && self.compute_family.is_some()
    }
}

/// Complete indices meet any queue requirement; and indices meet a
/// requirement that asks for every queue kind exactly when they are complete.
pub proof fn lemma_complete_indices_meet_every_requirement(
    indices: QueueFamilyIndices,
    requirements: AdapterRequirements,
)
    ensures
        indices.spec_is_complete() ==> indices.spec_has_meet_requirement(requirements),
        (requirements.graphics && requirements.present && requirements.compute
            && requirements.transfer) ==> (indices.spec_has_meet_requirement(requirements)
            <==> indices.spec_is_complete()),
{
}

} // verus!
