//! What the second-generation renderer reads off a physical device: its
//! type, the memory types it may use, its queue families, the extensions and
//! core features it opens the device with, and its surface's limits.
use vstd::prelude::*;

use crate::types::{DeviceType, Extent3d, Features, QueueFamilyIndices};
use crate::vk;
use crate::vulkan::device::spec_bool32;
use crate::vulkan_v2::setup::{contains_string, swapchain_extension_name};

verus! {

/// The device type of a Vulkan physical device type; unknown ones are
/// `Other`.
pub open spec fn spec_device_type_from_vk(device_type: vk::PhysicalDeviceType) -> DeviceType {
    if device_type.0 == vk::PhysicalDeviceType::INTEGRATED_GPU {
        DeviceType::IntegratedGpu
    } else if device_type.0 == vk::PhysicalDeviceType::DISCRETE_GPU {
        DeviceType::DiscreteGpu
    } else if device_type.0 == vk::PhysicalDeviceType::VIRTUAL_GPU {
        DeviceType::VirtualGpu
    } else if device_type.0 == vk::PhysicalDeviceType::CPU {
        DeviceType::Cpu
    } else {
        DeviceType::Other
    }
}

pub fn device_type_from_vk(device_type: vk::PhysicalDeviceType) -> (r: DeviceType)
    ensures
        r == spec_device_type_from_vk(device_type),
{
    if device_type.0 == vk::PhysicalDeviceType::INTEGRATED_GPU {
        DeviceType::IntegratedGpu
    } else if device_type.0 == vk::PhysicalDeviceType::DISCRETE_GPU {
        DeviceType::DiscreteGpu
    } else if device_type.0 == vk::PhysicalDeviceType::VIRTUAL_GPU {
        DeviceType::VirtualGpu
    } else if device_type.0 == vk::PhysicalDeviceType::CPU {
        DeviceType::Cpu
    } else {
        DeviceType::Other
    }
}

/// The memory properties the renderer knows how to use: host coherent, host
/// visible and device local.
pub fn known_memory_flags() -> (r: vk::MemoryPropertyFlags)
    ensures
        r.0 == vk::MemoryPropertyFlags::HOST_COHERENT | vk::MemoryPropertyFlags::HOST_VISIBLE
            | vk::MemoryPropertyFlags::DEVICE_LOCAL,
{
    vk::MemoryPropertyFlags(
        vk::MemoryPropertyFlags::HOST_COHERENT | vk::MemoryPropertyFlags::HOST_VISIBLE
            | vk::MemoryPropertyFlags::DEVICE_LOCAL,
    )
}

/// Memory type `i` has only properties the renderer knows.
pub open spec fn spec_memory_type_is_known(memory_type: vk::MemoryType, known: vk::MemoryPropertyFlags) -> bool {
    known.0 & memory_type.property_flags.0 == memory_type.property_flags.0
}

/// The set of memory types, as a bit mask, among the first `n` whose
/// properties are all known.
pub open spec fn spec_valid_memory_types(
    memory_types: Seq<vk::MemoryType>,
    known: vk::MemoryPropertyFlags,
    n: nat,
) -> u32
    decreases n,
{
    if n == 0 {
        0
    } else {
        let before = spec_valid_memory_types(memory_types, known, (n - 1) as nat);
        if spec_memory_type_is_known(memory_types[n - 1], known) {
            before | (1u32 << ((n - 1) as u32))
        } else {
            before
        }
    }
}

/// The memory types the renderer may use: bit `i` is set when memory type
/// `i` has only properties the renderer knows.
pub fn valid_memory_types(memory_types: &[vk::MemoryType], known: vk::MemoryPropertyFlags) -> (r: u32)
    requires
        memory_types.len() <= 32,
    ensures
        r == spec_valid_memory_types(memory_types@, known, memory_types@.len()),
{
    let mut mask: u32 = 0;
    let mut i: usize = 0;
    while i < memory_types.len()
        invariant
            0 <= i <= memory_types.len() <= 32,
            mask == spec_valid_memory_types(memory_types@, known, i as nat),
        decreases memory_types.len() - i,
    {
        let memory_type = memory_types[i];
        let bit: u32 = 1u32 << (i as u32);
        if known.0 & memory_type.property_flags.0 == memory_type.property_flags.0 {
            mask = mask | bit;
        }
        i = i + 1;
    }
    mask
}

/// Bit `i` of the mask is set exactly when memory type `i` is known, for
/// each of the first `n` types; no bit from `n` on is set.
pub proof fn lemma_valid_memory_types_bits(
    memory_types: Seq<vk::MemoryType>,
    known: vk::MemoryPropertyFlags,
    n: nat,
)
    requires
        n <= memory_types.len(),
        n <= 32,
    ensures
        forall|i: u32|
            i < n ==> ((spec_valid_memory_types(memory_types, known, n) & (1u32 << i)) != 0
                <==> spec_memory_type_is_known(#[trigger] memory_types[i as int], known)),
        forall|i: u32|
            n <= i < 32 ==> #[trigger] (spec_valid_memory_types(memory_types, known, n) & (1u32
                << i)) == 0,
    decreases n,
{
    if n > 0 {
        let m = (n - 1) as nat;
        lemma_valid_memory_types_bits(memory_types, known, m);
        let before = spec_valid_memory_types(memory_types, known, m);
        let k = m as u32;
        assert forall|i: u32| i < n implies ((spec_valid_memory_types(memory_types, known, n) & (1u32
            << i)) != 0 <==> spec_memory_type_is_known(#[trigger] memory_types[i as int], known)) by {
            let after = spec_valid_memory_types(memory_types, known, n);
            if i == k {
                if spec_memory_type_is_known(memory_types[m as int], known) {
                    assert((before | (1u32 << k)) & (1u32 << k) != 0) by (bit_vector)
                        requires
                            k < 32,
                    ;
                } else {
                    assert(before & (1u32 << k) == 0);
                }
            } else {
                assert(i < k);
                if spec_memory_type_is_known(memory_types[m as int], known) {
                    assert((before | (1u32 << k)) & (1u32 << i) == before & (1u32 << i))
                        by (bit_vector)
                        requires
                            i < k,
                            k < 32,
                    ;
                }
            }
        }
        assert forall|i: u32| n <= i < 32 implies #[trigger] (spec_valid_memory_types(
            memory_types,
            known,
            n,
        ) & (1u32 << i)) == 0 by {
            assert(before & (1u32 << i) == 0);
            if spec_memory_type_is_known(memory_types[m as int], known) {
                assert((before | (1u32 << k)) & (1u32 << i) == 0) by (bit_vector)
                    requires
                        before & (1u32 << i) == 0,
                        k < i,
                        i < 32,
                ;
            }
        }
    } else {
        assert forall|i: u32| n <= i < 32 implies #[trigger] (spec_valid_memory_types(
            memory_types,
            known,
            n,
        ) & (1u32 << i)) == 0 by {
            assert(0u32 & (1u32 << i) == 0) by (bit_vector);
        }
    }
}

/// The indices after looking at one more family: a family with queues
/// becomes the graphics family when it does graphics, and the present family
/// when it can present.
pub open spec fn spec_find_queue_family_step(
    indices: QueueFamilyIndices,
    index: u32,
    family: vk::QueueFamilyProperties,
    support_present: bool,
) -> QueueFamilyIndices {
    if family.queue_count > 0 {
        QueueFamilyIndices {
            graphics_family: if family.queue_flags.0 & vk::QueueFlags::GRAPHICS
                == vk::QueueFlags::GRAPHICS {
                Some(index)
            } else {
                indices.graphics_family
            },
            present_family: if support_present {
                Some(index)
            } else {
                indices.present_family
            },
            ..indices
        }
    } else {
        indices
    }
}

/// The families chosen after the first `n`, stopping once every kind of
/// queue has one.
pub open spec fn spec_find_queue_family(
    families: Seq<vk::QueueFamilyProperties>,
    present_support: Seq<bool>,
    n: nat,
) -> QueueFamilyIndices
    decreases n,
{
    if n == 0 {
        QueueFamilyIndices::spec_empty()
    } else {
        let before = spec_find_queue_family(families, present_support, (n - 1) as nat);
        if before.spec_is_complete() {
            before
        } else {
            spec_find_queue_family_step(before, (n - 1) as u32, families[n - 1], present_support[n - 1])
        }
    }
}

/// The graphics and present families of a physical device, given its
/// families and whether each can present to the surface.
pub fn find_queue_family(
    queue_families: &[vk::QueueFamilyProperties],
    present_support: &[bool],
) -> (r: QueueFamilyIndices)
    requires
        present_support.len() == queue_families.len(),
        queue_families.len() <= u32::MAX,
    ensures
        r == spec_find_queue_family(queue_families@, present_support@, queue_families@.len()),
{
    let mut indices = QueueFamilyIndices::empty();
    let mut i: usize = 0;
    while i < queue_families.len()
        invariant
            0 <= i <= queue_families.len() <= u32::MAX,
            present_support.len() == queue_families.len(),
            indices == spec_find_queue_family(queue_families@, present_support@, i as nat),
            !indices.spec_is_complete(),
        decreases queue_families.len() - i,
    {
        let family = queue_families[i];
        let index = i as u32;
        if family.queue_count > 0 {
            if family.queue_flags.0 & vk::QueueFlags::GRAPHICS == vk::QueueFlags::GRAPHICS {
                indices.graphics_family = Some(index);
            }
            if present_support[i] {
                indices.present_family = Some(index);
            }
        }
        i = i + 1;
        if indices.is_complete() {
            proof {
                lemma_find_stays(queue_families@, present_support@, i as nat, queue_families@.len());
            }
            return indices;
        }
    }
    indices
}

proof fn lemma_find_stays(
    families: Seq<vk::QueueFamilyProperties>,
    present_support: Seq<bool>,
    n: nat,
    m: nat,
)
    requires
        n <= m,
        spec_find_queue_family(families, present_support, n).spec_is_complete(),
    ensures
        spec_find_queue_family(families, present_support, m) == spec_find_queue_family(
            families,
            present_support,
            n,
        ),
    decreases m - n,
{
    if n < m {
        lemma_find_stays(families, present_support, n, (m - 1) as nat);
    }
}

/// The search never finds a compute or transfer family, so it looks at every
/// family and ends with the last graphics family and the last family that
/// can present, among those with queues.
pub proof fn lemma_find_queue_family_never_completes(
    families: Seq<vk::QueueFamilyProperties>,
    present_support: Seq<bool>,
    n: nat,
)
    ensures
        spec_find_queue_family(families, present_support, n).compute_family is None,
        spec_find_queue_family(families, present_support, n).transfer_family is None,
        !spec_find_queue_family(families, present_support, n).spec_is_complete(),
    decreases n,
{
    if n > 0 {
        lemma_find_queue_family_never_completes(families, present_support, (n - 1) as nat);
    }
}

/// The limits of a surface, as the renderer describes them.
#[derive(Debug, Clone, Copy, PartialEq, Eq, Structural)]
pub struct SurfaceLimits {
    /// The fewest and most images a swapchain may have.
    pub swap_chain_size_min: u32,
    pub swap_chain_size_max: u32,
    /// The surface's extent, unless the swapchain decides it.
    pub current_extent: Option<Extent3d>,
    pub min_extent: Extent3d,
    pub max_extent: Extent3d,
}

/// The limits of a surface with these capabilities: an extent of
/// `u32::MAX` means the swapchain decides it, and a maximum image count of
/// zero means no limit.
pub open spec fn spec_surface_limits(caps: vk::SurfaceCapabilitiesKHR) -> SurfaceLimits {
    SurfaceLimits {
        swap_chain_size_min: caps.min_image_count,
        swap_chain_size_max: if caps.max_image_count == 0 {
            u32::MAX
        } else {
            caps.max_image_count
        },
        current_extent: if caps.current_extent.width != u32::MAX && caps.current_extent.height
            != u32::MAX {
            Some(
                Extent3d {
                    width: caps.current_extent.width,
                    height: caps.current_extent.height,
                    depth_or_array_layers: 1,
                },
            )
        } else {
            None
        },
        min_extent: Extent3d {
            width: caps.min_image_extent.width,
            height: caps.min_image_extent.height,
            depth_or_array_layers: 1,
        },
        max_extent: Extent3d {
            width: caps.max_image_extent.width,
            height: caps.max_image_extent.height,
            depth_or_array_layers: caps.max_image_array_layers,
        },
    }
}

pub fn surface_limits(caps: &vk::SurfaceCapabilitiesKHR) -> (r: SurfaceLimits)
    ensures
        r == spec_surface_limits(*caps),
{
    let current_extent = if caps.current_extent.width != u32::MAX && caps.current_extent.height
        != u32::MAX {
        Some(
            Extent3d {
                width: caps.current_extent.width,
                height: caps.current_extent.height,
                depth_or_array_layers: 1,
            },
        )
    } else {
        None
    };
    let max_image_count = if caps.max_image_count == 0 {
        u32::MAX
    } else {
        caps.max_image_count
    };
    SurfaceLimits {
        swap_chain_size_min: caps.min_image_count,
        swap_chain_size_max: max_image_count,
        current_extent,
        min_extent: Extent3d {
            width: caps.min_image_extent.width,
            height: caps.min_image_extent.height,
            depth_or_array_layers: 1,
        },
        max_extent: Extent3d {
            width: caps.max_image_extent.width,
            height: caps.max_image_extent.height,
            depth_or_array_layers: caps.max_image_array_layers,
        },
    }
}


/// The queue families a device is opened with: those found for the surface
/// when there is one, and family 0 for every kind of work when rendering
/// headless.
pub open spec fn spec_open_queue_family_indices(
    has_surface: bool,
    families: Seq<vk::QueueFamilyProperties>,
    present_support: Seq<bool>,
) -> QueueFamilyIndices {
    if has_surface {
        spec_find_queue_family(families, present_support, families.len())
    } else {
        QueueFamilyIndices {
            graphics_family: Some(0),
            present_family: Some(0),
            compute_family: Some(0),
            transfer_family: Some(0),
        }
    }
}

pub fn open_queue_family_indices(
    has_surface: bool,
    queue_families: &[vk::QueueFamilyProperties],
    present_support: &[bool],
) -> (r: QueueFamilyIndices)
    requires
        present_support.len() == queue_families.len(),
        queue_families.len() <= u32::MAX,
    ensures
        r == spec_open_queue_family_indices(has_surface, queue_families@, present_support@),
{
    if has_surface {
        find_queue_family(queue_families, present_support)
    } else {
        QueueFamilyIndices {
            graphics_family: Some(0),
            present_family: Some(0),
            compute_family: Some(0),
            transfer_family: Some(0),
        }
    }
}

// ---------------------------------------------------------------------------
// Device extensions.

/// The device extensions the renderer needs, whatever features are asked
/// for: the swapchain extension.
pub fn get_required_extensions(_requested_features: Features) -> (r: Vec<String>)
    ensures
        r@.map_values(|s: String| s@) == seq!["VK_KHR_swapchain"@],
{
    let mut extensions: Vec<String> = Vec::new();
    extensions.push(swapchain_extension_name());
    proof {
        assert(extensions@.map_values(|s: String| s@) =~= seq!["VK_KHR_swapchain"@]);
    }
    extensions
}

/// Whether the device offers the extension, among those it names.
pub fn supported_extension(supported_extensions: &[String], extension: &String) -> (r: bool)
    ensures
        r == supported_extensions@.map_values(|s: String| s@).contains(extension@),
{
    contains_string(supported_extensions, extension)
}

/// The extensions among `required` that the device offers, in order.
pub open spec fn spec_offered(required: Seq<Seq<char>>, available: Seq<Seq<char>>) -> Seq<Seq<char>> {
    required.filter(|e: Seq<char>| available.contains(e))
}

/// The extensions among `required` that the device lacks, in order.
pub open spec fn spec_lacking(required: Seq<Seq<char>>, available: Seq<Seq<char>>) -> Seq<Seq<char>> {
    required.filter(|e: Seq<char>| !available.contains(e))
}

/// The required extensions split into those the device offers and those it
/// lacks, each in the order required.
pub fn partition_extensions(required: &[String], available: &[String]) -> (r: (Vec<String>, Vec<String>))
    ensures
        r.0@.map_values(|s: String| s@) == spec_offered(
            required@.map_values(|s: String| s@),
            available@.map_values(|s: String| s@),
        ),
        r.1@.map_values(|s: String| s@) == spec_lacking(
            required@.map_values(|s: String| s@),
            available@.map_values(|s: String| s@),
        ),
{
    let ghost req = required@.map_values(|s: String| s@);
    let ghost avail = available@.map_values(|s: String| s@);
    let mut offered: Vec<String> = Vec::new();
    let mut lacking: Vec<String> = Vec::new();
    let mut i: usize = 0;
    while i < required.len()
        invariant
            0 <= i <= required.len(),
            req == required@.map_values(|s: String| s@),
            avail == available@.map_values(|s: String| s@),
            offered@.map_values(|s: String| s@) == spec_offered(req.take(i as int), avail),
            lacking@.map_values(|s: String| s@) == spec_lacking(req.take(i as int), avail),
        decreases required.len() - i,
    {
        let name: String = required[i].clone();
        let ghost before_offered = offered@;
        let ghost before_lacking = lacking@;
        proof {
            assert(req.take(i + 1).drop_last() =~= req.take(i as int));
            assert(req.take(i + 1).last() == req[i as int]);
            reveal(Seq::filter);
        }
        if contains_string(available, &required[i]) {
            offered.push(name);
            proof {
                assert(offered@.map_values(|s: String| s@) =~= before_offered.map_values(
                    |s: String| s@,
                ).push(req[i as int]));
            }
        } else {
            lacking.push(name);
            proof {
                assert(lacking@.map_values(|s: String| s@) =~= before_lacking.map_values(
                    |s: String| s@,
                ).push(req[i as int]));
            }
        }
        i = i + 1;
    }
    proof {
        assert(req.take(required.len() as int) =~= req);
    }
    (offered, lacking)
}

/// The device extensions to enable: those the renderer needs that the device
/// offers; and those it lacks, which are left out.
pub fn required_device_extensions(supported_extensions: &[String], features: Features) -> (r: (
    Vec<String>,
    Vec<String>,
))
    ensures
        r.0@.map_values(|s: String| s@) == spec_offered(
            seq!["VK_KHR_swapchain"@],
            supported_extensions@.map_values(|s: String| s@),
        ),
        r.1@.map_values(|s: String| s@) == spec_lacking(
            seq!["VK_KHR_swapchain"@],
            supported_extensions@.map_values(|s: String| s@),
        ),
{
    let required = get_required_extensions(features);
    partition_extensions(required.as_slice(), supported_extensions)
}

/// Every required extension is either offered or lacking, never both, and
/// the two lists together are as long as the requirement.
pub proof fn lemma_extensions_are_offered_or_lacking(
    required: Seq<Seq<char>>,
    available: Seq<Seq<char>>,
    e: Seq<char>,
)
    ensures
        spec_offered(required, available).contains(e) <==> (required.contains(e)
            && available.contains(e)),
        spec_lacking(required, available).contains(e) <==> (required.contains(e)
            && !available.contains(e)),
        spec_offered(required, available).len() + spec_lacking(required, available).len()
            == required.len(),
    decreases required.len(),
{
    reveal(Seq::filter);
    if required.len() > 0 {
        lemma_extensions_are_offered_or_lacking(required.drop_last(), available, e);
        assert(required =~= required.drop_last().push(required.last()));
        assert(required.contains(e) <==> (required.drop_last().contains(e) || required.last() == e))
            by {
            if required.contains(e) {
                let k = choose|k: int| 0 <= k < required.len() && required[k] == e;
                if k < required.len() - 1 {
                    assert(required.drop_last()[k] == e);
                }
            }
            if required.drop_last().contains(e) {
                let k = choose|k: int|
                    0 <= k < required.drop_last().len() && required.drop_last()[k] == e;
                assert(required[k] == e);
            }
            if required.last() == e {
                assert(required[required.len() - 1] == e);
            }
        }
        let o = spec_offered(required.drop_last(), available);
        let l = spec_lacking(required.drop_last(), available);
        assert(o.push(required.last()).contains(e) <==> (o.contains(e) || required.last() == e))
            by {
            if o.push(required.last()).contains(e) {
                let k = choose|k: int|
                    0 <= k < o.push(required.last()).len() && o.push(required.last())[k] == e;
                if k < o.len() {
                    assert(o[k] == e);
                }
            }
            if o.contains(e) {
                let k = choose|k: int| 0 <= k < o.len() && o[k] == e;
                assert(o.push(required.last())[k] == e);
            }
            if required.last() == e {
                assert(o.push(required.last())[o.len() as int] == e);
            }
        }
        assert(l.push(required.last()).contains(e) <==> (l.contains(e) || required.last() == e))
            by {
            if l.push(required.last()).contains(e) {
                let k = choose|k: int|
                    0 <= k < l.push(required.last()).len() && l.push(required.last())[k] == e;
                if k < l.len() {
                    assert(l[k] == e);
                }
            }
            if l.contains(e) {
                let k = choose|k: int| 0 <= k < l.len() && l[k] == e;
                assert(l.push(required.last())[k] == e);
            }
            if required.last() == e {
                assert(l.push(required.last())[l.len() as int] == e);
            }
        }
    }
}

// ---------------------------------------------------------------------------
// Core features and downlevel support.

/// The core Vulkan features a device is opened with.
#[derive(Debug, Clone, Copy, PartialEq, Eq, Structural)]
pub struct PhysicalDeviceFeatures {
    pub core: vk::PhysicalDeviceFeatures,
}

/// What a device supports below the full feature set: anisotropic filtering
/// and multisampled shading.
#[derive(Debug, Clone, Copy, PartialEq, Eq, Structural)]
pub struct DownlevelSupport {
    pub anisotropic_filtering: bool,
    pub multisampled_shading: bool,
}

/// Anisotropic sampling when anisotropic filtering is supported, sample rate
/// shading when multisampled shading is, and no other core feature.
pub open spec fn spec_core_features_for(downlevel: DownlevelSupport) -> vk::PhysicalDeviceFeatures {
    vk::PhysicalDeviceFeatures {
        sampler_anisotropy: spec_bool32(downlevel.anisotropic_filtering),
        sample_rate_shading: spec_bool32(downlevel.multisampled_shading),
        fragment_stores_and_atomics: vk::FALSE,
        independent_blend: vk::FALSE,
        geometry_shader: vk::FALSE,
    }
}

/// The downlevel support that core features show: anisotropic filtering
/// when anisotropic sampling is on, multisampled shading when sample rate
/// shading is.
pub open spec fn spec_downlevel_of(core: vk::PhysicalDeviceFeatures) -> DownlevelSupport {
    DownlevelSupport {
        anisotropic_filtering: core.sampler_anisotropy != 0,
        multisampled_shading: core.sample_rate_shading != 0,
    }
}

impl PhysicalDeviceFeatures {
    /// The features a device is opened with follow its downlevel support
    /// alone; the extensions enabled and the features requested do not
    /// change them.
    pub fn from_extensions_and_requested_features(
        _enabled_extensions: &[String],
        _requested_features: Features,
        downlevel: DownlevelSupport,
    ) -> (r: Self)
        ensures
            r.core == spec_core_features_for(downlevel),
    {
        PhysicalDeviceFeatures {
            core: vk::PhysicalDeviceFeatures {
                sampler_anisotropy: if downlevel.anisotropic_filtering {
                    vk::TRUE
                } else {
                    vk::FALSE
                },
                sample_rate_shading: if downlevel.multisampled_shading {
                    vk::TRUE
                } else {
                    vk::FALSE
                },
                fragment_stores_and_atomics: vk::FALSE,
                independent_blend: vk::FALSE,
                geometry_shader: vk::FALSE,
            },
        }
    }

    /// No optional feature, and the downlevel support the core features
    /// show.
    pub fn get_features_and_downlevel_flags(&self) -> (r: (Features, DownlevelSupport))
        ensures
            r.0.bits == 0,
            r.1 == spec_downlevel_of(self.core),
    {
        (
            Features::empty(),
            DownlevelSupport {
                anisotropic_filtering: self.core.sampler_anisotropy != 0,
                multisampled_shading: self.core.sample_rate_shading != 0,
            },
        )
    }
}

/// Opening a device with the downlevel support read off its features, then
/// reading the support back, gives the same support.
pub proof fn lemma_downlevel_round_trip(downlevel: DownlevelSupport)
    ensures
        spec_downlevel_of(spec_core_features_for(downlevel)) == downlevel,
{
}

} // verus!
