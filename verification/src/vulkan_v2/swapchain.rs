//! Choosing what a swapchain is made of: its format, its presentation mode,
//! its extent and how many images it holds.
use vstd::prelude::*;

use crate::rhi_types::QueueFamilyIndices;
use crate::vk;
use crate::MAX_FRAMES_IN_FLIGHT;

verus! {

/// `num::clamp`: `input` held between `min` and `max`. Its source returns
/// `min` below the range, `max` above it and `input` inside it; it asserts
/// `min <= max` in debug builds.
#[verifier::external_body]
pub(crate) fn clamp_u32(input: u32, min: u32, max: u32) -> (r: u32)
    requires
        min <= max,
    ensures
        r == spec_clamp(input, min, max),
{
    num::clamp(input, min, max)
}

/// `input` held between `min` and `max`.
pub open spec fn spec_clamp(input: u32, min: u32, max: u32) -> u32 {
    if input < min {
        min
    } else if input > max {
        max
    } else {
        input
    }
}

/// The format, presentation mode and extent a swapchain is created with.
#[derive(Clone, Copy, Debug, PartialEq, Eq, Structural)]
pub struct SwapchainProperties {
    pub surface_format: vk::SurfaceFormatKHR,
    pub present_mode: vk::PresentModeKHR,
    pub extent: vk::Extent2D,
}

/// What a surface offers a swapchain.
pub struct SwapChainSupportDetail {
    pub capabilities: vk::SurfaceCapabilitiesKHR,
    pub surface_formats: Vec<vk::SurfaceFormatKHR>,
    pub present_modes: Vec<vk::PresentModeKHR>,
}

/// What the swapchain is asked to be.
#[derive(Clone, Copy, Default, Debug, PartialEq, Eq, Structural)]
pub struct SwapchainDescriptor {
    pub width: u32,
    pub height: u32,
    pub vsync: bool,
}

/// The format the renderer prefers: 8-bit BGRA, non-linear sRGB.
pub open spec fn spec_preferred_surface_format() -> vk::SurfaceFormatKHR {
    vk::SurfaceFormatKHR {
        format: vk::Format(vk::Format::B8G8R8A8_UNORM),
        color_space: vk::ColorSpaceKHR(vk::ColorSpaceKHR::SRGB_NONLINEAR),
    }
}

/// The preferred format when the surface offers it, else the first it offers.
pub open spec fn spec_choose_swapchain_format(formats: Seq<vk::SurfaceFormatKHR>) -> vk::SurfaceFormatKHR {
    if formats.contains(spec_preferred_surface_format()) {
        spec_preferred_surface_format()
    } else {
        formats[0]
    }
}

/// Whether vsync asks for the mode: relaxed or plain FIFO with vsync, mailbox
/// or immediate without. Among the modes asked for, the surface's list
/// order decides.
pub open spec fn spec_is_wanted_present_mode(mode: vk::PresentModeKHR, vsync: bool) -> bool {
    if vsync {
        mode.0 == vk::PresentModeKHR::FIFO_RELAXED || mode.0 == vk::PresentModeKHR::FIFO
    } else {
        mode.0 == vk::PresentModeKHR::MAILBOX || mode.0 == vk::PresentModeKHR::IMMEDIATE
    }
}

/// The first mode the surface lists that vsync asks for; immediate
/// presentation when it lists none.
pub open spec fn spec_choose_swapchain_present_mode(
    modes: Seq<vk::PresentModeKHR>,
    vsync: bool,
) -> vk::PresentModeKHR
    decreases modes.len(),
{
    if modes.len() == 0 {
        vk::PresentModeKHR(vk::PresentModeKHR::IMMEDIATE)
    } else if spec_is_wanted_present_mode(modes[0], vsync) {
        modes[0]
    } else {
        spec_choose_swapchain_present_mode(modes.drop_first(), vsync)
    }
}

/// The surface's own extent when it has one; otherwise the preferred
/// dimensions, each held within what the surface allows.
pub open spec fn spec_choose_swapchain_extent(
    capabilities: vk::SurfaceCapabilitiesKHR,
    preferred_dimensions: [u32; 2],
) -> vk::Extent2D {
    if capabilities.current_extent.width != u32::MAX {
        capabilities.current_extent
    } else {
        vk::Extent2D {
            width: spec_clamp(
                preferred_dimensions@[0],
                capabilities.min_image_extent.width,
                capabilities.max_image_extent.width,
            ),
            height: spec_clamp(
                preferred_dimensions@[1],
                capabilities.min_image_extent.height,
                capabilities.max_image_extent.height,
            ),
        }
    }
}

/// The surface's limits are consistent where the extent is chosen by clamping.
pub open spec fn spec_extent_range_is_valid(capabilities: vk::SurfaceCapabilitiesKHR) -> bool {
    capabilities.current_extent.width == u32::MAX ==> {
        &&& capabilities.min_image_extent.width <= capabilities.max_image_extent.width
        &&& capabilities.min_image_extent.height <= capabilities.max_image_extent.height
    }
}

impl SwapChainSupportDetail {
    pub fn get_ideal_swapchain_properties(&self, preferred_dimensions: [u32; 2], vsync: bool) -> (r:
        SwapchainProperties)
        requires
            self.surface_formats.len() > 0,
            spec_extent_range_is_valid(self.capabilities),
        ensures
            r.surface_format == spec_choose_swapchain_format(self.surface_formats@),
            r.present_mode == spec_choose_swapchain_present_mode(self.present_modes@, vsync),
            r.extent == spec_choose_swapchain_extent(self.capabilities, preferred_dimensions),
    {
        let format = Self::choose_swapchain_format(&self.surface_formats);
        let present_mode = Self::choose_swapchain_present_mode(self.present_modes.as_slice(), vsync);
        let extent = Self::choose_swapchain_extent(&self.capabilities, preferred_dimensions);
        SwapchainProperties { surface_format: format, present_mode, extent }
    }

    pub fn choose_swapchain_format(available_formats: &Vec<vk::SurfaceFormatKHR>) -> (r:
        vk::SurfaceFormatKHR)
        requires
            available_formats.len() > 0,
        ensures
            r == spec_choose_swapchain_format(available_formats@),
    {
        let mut i: usize = 0;
        while i < available_formats.len()
            invariant
                0 <= i <= available_formats.len(),
                forall|j: int| 0 <= j < i ==> available_formats@[j] != spec_preferred_surface_format(),
            decreases available_formats.len() - i,
        {
            let available_format = available_formats[i];
            if available_format.format.0 == vk::Format::B8G8R8A8_UNORM
                && available_format.color_space.0 == vk::ColorSpaceKHR::SRGB_NONLINEAR {
                proof {
                    assert(available_formats@.contains(spec_preferred_surface_format()));
                }
                return available_format;
            }
            i = i + 1;
        }
        available_formats[0]
    }

    pub fn choose_swapchain_present_mode(available_present_modes: &[vk::PresentModeKHR], vsync: bool) -> (r:
        vk::PresentModeKHR)
        ensures
            r == spec_choose_swapchain_present_mode(available_present_modes@, vsync),
    {
        let best_first = if vsync {
            vk::PresentModeKHR(vk::PresentModeKHR::FIFO_RELAXED)
        } else {
            vk::PresentModeKHR(vk::PresentModeKHR::MAILBOX)
        };
        let best_second = if vsync {
            vk::PresentModeKHR(vk::PresentModeKHR::FIFO)
        } else {
            vk::PresentModeKHR(vk::PresentModeKHR::IMMEDIATE)
        };
        let mut i: usize = 0;
        proof {
            assert(available_present_modes@.skip(0) =~= available_present_modes@);
        }
        while i < available_present_modes.len()
            invariant
                0 <= i <= available_present_modes@.len(),
                spec_choose_swapchain_present_mode(available_present_modes@, vsync)
                    == spec_choose_swapchain_present_mode(available_present_modes@.skip(i as int), vsync),
                best_first.0 == (if vsync { vk::PresentModeKHR::FIFO_RELAXED } else { vk::PresentModeKHR::MAILBOX }),
                best_second.0 == (if vsync { vk::PresentModeKHR::FIFO } else { vk::PresentModeKHR::IMMEDIATE }),
            decreases available_present_modes.len() - i,
        {
            let available_present_mode = available_present_modes[i];
            proof {
                let rest = available_present_modes@.skip(i as int);
                assert(rest[0] == available_present_mode);
                assert(rest.drop_first() =~= available_present_modes@.skip(i + 1));
            }
            if available_present_mode.0 == best_first.0 || available_present_mode.0 == best_second.0 {
                return available_present_mode;
            }
            i = i + 1;
        }
        vk::PresentModeKHR(vk::PresentModeKHR::IMMEDIATE)
    }

    pub fn choose_swapchain_extent(capabilities: &vk::SurfaceCapabilitiesKHR, preferred_dimensions: [u32; 2]) -> (r:
        vk::Extent2D)
        requires
            spec_extent_range_is_valid(*capabilities),
        ensures
            r == spec_choose_swapchain_extent(*capabilities, preferred_dimensions),
    {
        if capabilities.current_extent.width != u32::MAX {
            capabilities.current_extent
        } else {
            let width = preferred_dimensions[0];
            let height = preferred_dimensions[1];
            vk::Extent2D {
                width: clamp_u32(
                    width,
                    capabilities.min_image_extent.width,
                    capabilities.max_image_extent.width,
                ),
                height: clamp_u32(
                    height,
                    capabilities.min_image_extent.height,
                    capabilities.max_image_extent.height,
                ),
            }
        }
    }
}

/// The number of images to ask for: one more than the surface's minimum, at
/// least one more than the frames in flight, and no more than the surface's
/// maximum when it has one.
pub open spec fn spec_swapchain_image_count(capabilities: vk::SurfaceCapabilitiesKHR) -> u32 {
    let wanted = if capabilities.min_image_count + 1 >= MAX_FRAMES_IN_FLIGHT + 1 {
        (capabilities.min_image_count + 1) as u32
    } else {
        (MAX_FRAMES_IN_FLIGHT + 1) as u32
    };
    if capabilities.max_image_count > 0 && capabilities.max_image_count < wanted {
        capabilities.max_image_count
    } else {
        wanted
    }
}

pub fn swapchain_image_count(capabilities: &vk::SurfaceCapabilitiesKHR) -> (r: u32)
    requires
        capabilities.min_image_count < u32::MAX,
    ensures
        r == spec_swapchain_image_count(*capabilities),
{
    let mut image_count = capabilities.min_image_count + 1;
    let frames = MAX_FRAMES_IN_FLIGHT as u32 + 1;
    if image_count < frames {
        image_count = frames;
    }
    if capabilities.max_image_count > 0 && capabilities.max_image_count < image_count {
        capabilities.max_image_count
    } else {
        image_count
    }
}

/// How swapchain images are shared: by both families at once when graphics
/// and presentation use different families, by one at a time otherwise.
pub open spec fn spec_image_sharing(indices: QueueFamilyIndices) -> (vk::SharingMode, Seq<u32>) {
    if indices.graphics_family != indices.present_family {
        (
            vk::SharingMode(vk::SharingMode::CONCURRENT),
            seq![indices.graphics_family->Some_0, indices.present_family->Some_0],
        )
    } else {
        (vk::SharingMode(vk::SharingMode::EXCLUSIVE), Seq::empty())
    }
}

pub fn image_sharing(indices: &QueueFamilyIndices) -> (r: (vk::SharingMode, Vec<u32>))
    requires
        indices.graphics_family != indices.present_family ==> indices.graphics_family is Some
            && indices.present_family is Some,
    ensures
        r.0 == spec_image_sharing(*indices).0,
        r.1@ == spec_image_sharing(*indices).1,
{
    if indices.graphics_family != indices.present_family {
        let g = indices.graphics_family.unwrap();
        let p = indices.present_family.unwrap();
        let v = vec![g, p];
        proof {
            assert(v@ =~= seq![g, p]);
        }
        (vk::SharingMode(vk::SharingMode::CONCURRENT), v)
    } else {
        (vk::SharingMode(vk::SharingMode::EXCLUSIVE), Vec::new())
    }
}

/// The chosen mode is one the surface lists and vsync asks for, or immediate
/// presentation when none is listed; and a listed mode that vsync asks for is
/// never passed over for immediate presentation.
pub proof fn lemma_present_mode_is_listed_or_immediate(modes: Seq<vk::PresentModeKHR>, vsync: bool)
    ensures
        ({
            let r = spec_choose_swapchain_present_mode(modes, vsync);
            (modes.contains(r) && spec_is_wanted_present_mode(r, vsync)) || (r.0
                == vk::PresentModeKHR::IMMEDIATE && forall|i: int|
                0 <= i < modes.len() ==> !spec_is_wanted_present_mode(#[trigger] modes[i], vsync))
        }),
    decreases modes.len(),
{
    if modes.len() > 0 {
        let r = spec_choose_swapchain_present_mode(modes, vsync);
        if spec_is_wanted_present_mode(modes[0], vsync) {
            assert(modes.contains(modes[0]));
        } else {
            lemma_present_mode_is_listed_or_immediate(modes.drop_first(), vsync);
            let rest = modes.drop_first();
            if rest.contains(r) && spec_is_wanted_present_mode(r, vsync) {
                let k = choose|k: int| 0 <= k < rest.len() && rest[k] == r;
                assert(modes[k + 1] == r);
                assert(modes.contains(r));
            } else {
                assert forall|i: int| 0 <= i < modes.len() implies !spec_is_wanted_present_mode(
                    #[trigger] modes[i],
                    vsync,
                ) by {
                    if i > 0 {
                        assert(modes[i] == rest[i - 1]);
                    }
                }
            }
        }
    }
}

/// The mode chosen is the first mode the surface lists among the ones vsync
/// asks for (relaxed FIFO, numbered 3, or FIFO, numbered 2, with vsync;
/// mailbox, numbered 1, or immediate, numbered 0, without); immediate
/// presentation is chosen in their place only when the surface lists none of
/// them.
pub proof fn lemma_present_mode_is_first_listed_wanted(modes: Seq<vk::PresentModeKHR>, vsync: bool)
    ensures
        (exists|i: int|
            0 <= i < modes.len() && (if vsync {
                (#[trigger] modes[i]).0 == 3 || modes[i].0 == 2
            } else {
                modes[i].0 == 1 || modes[i].0 == 0
            })) ==> exists|i: int|
            0 <= i < modes.len() && #[trigger] modes[i] == spec_choose_swapchain_present_mode(modes, vsync)
                && (if vsync {
                modes[i].0 == 3 || modes[i].0 == 2
            } else {
                modes[i].0 == 1 || modes[i].0 == 0
            }) && forall|j: int|
                0 <= j < i ==> !(if vsync {
                    (#[trigger] modes[j]).0 == 3 || modes[j].0 == 2
                } else {
                    modes[j].0 == 1 || modes[j].0 == 0
                }),
        (forall|i: int|
            0 <= i < modes.len() ==> !(if vsync {
                (#[trigger] modes[i]).0 == 3 || modes[i].0 == 2
            } else {
                modes[i].0 == 1 || modes[i].0 == 0
            })) ==> spec_choose_swapchain_present_mode(modes, vsync).0 == 0,
    decreases modes.len(),
{
    if modes.len() > 0 {
        let wanted0 = if vsync {
            modes[0].0 == 3 || modes[0].0 == 2
        } else {
            modes[0].0 == 1 || modes[0].0 == 0
        };
        if wanted0 {
            assert(spec_choose_swapchain_present_mode(modes, vsync) == modes[0]);
        } else {
            let rest = modes.drop_first();
            lemma_present_mode_is_first_listed_wanted(rest, vsync);
            assert(spec_choose_swapchain_present_mode(modes, vsync)
                == spec_choose_swapchain_present_mode(rest, vsync));
            if exists|i: int|
                0 <= i < modes.len() && (if vsync {
                    (#[trigger] modes[i]).0 == 3 || modes[i].0 == 2
                } else {
                    modes[i].0 == 1 || modes[i].0 == 0
                }) {
                let i = choose|i: int|
                    0 <= i < modes.len() && (if vsync {
                        (#[trigger] modes[i]).0 == 3 || modes[i].0 == 2
                    } else {
                        modes[i].0 == 1 || modes[i].0 == 0
                    });
                assert(i > 0);
                assert(rest[i - 1] == modes[i]);
                let k = choose|k: int|
                    0 <= k < rest.len() && #[trigger] rest[k] == spec_choose_swapchain_present_mode(
                        rest,
                        vsync,
                    ) && (if vsync {
                        rest[k].0 == 3 || rest[k].0 == 2
                    } else {
                        rest[k].0 == 1 || rest[k].0 == 0
                    }) && forall|j: int|
                        0 <= j < k ==> !(if vsync {
                            (#[trigger] rest[j]).0 == 3 || rest[j].0 == 2
                        } else {
                            rest[j].0 == 1 || rest[j].0 == 0
                        });
                assert(modes[k + 1] == rest[k]);
                assert forall|j: int|
                    0 <= j < k + 1 implies !(if vsync {
                        (#[trigger] modes[j]).0 == 3 || modes[j].0 == 2
                    } else {
                        modes[j].0 == 1 || modes[j].0 == 0
                    }) by {
                    if j > 0 {
                        assert(modes[j] == rest[j - 1]);
                    }
                }
            } else {
                assert forall|i: int|
                    0 <= i < rest.len() implies !(if vsync {
                        (#[trigger] rest[i]).0 == 3 || rest[i].0 == 2
                    } else {
                        rest[i].0 == 1 || rest[i].0 == 0
                    }) by {
                    assert(rest[i] == modes[i + 1]);
                }
            }
        }
    }
}

/// The chosen surface format is 8-bit BGRA (Vulkan format 44) in the
/// non-linear sRGB color space (0) when the surface offers it, and otherwise
/// the first format the surface offers.
pub proof fn lemma_chosen_format_is_bgra_srgb_or_first(formats: Seq<vk::SurfaceFormatKHR>)
    requires
        formats.len() > 0,
    ensures
        (exists|i: int|
            0 <= i < formats.len() && (#[trigger] formats[i]).format.0 == 44 && formats[i].color_space.0
                == 0) ==> spec_choose_swapchain_format(formats).format.0 == 44
            && spec_choose_swapchain_format(formats).color_space.0 == 0,
        !(exists|i: int|
            0 <= i < formats.len() && (#[trigger] formats[i]).format.0 == 44 && formats[i].color_space.0
                == 0) ==> spec_choose_swapchain_format(formats) == formats[0],
{
    if exists|i: int|
        0 <= i < formats.len() && (#[trigger] formats[i]).format.0 == 44 && formats[i].color_space.0 == 0 {
        let i = choose|i: int|
            0 <= i < formats.len() && (#[trigger] formats[i]).format.0 == 44 && formats[i].color_space.0
                == 0;
        assert(formats[i] == spec_preferred_surface_format());
        assert(formats.contains(spec_preferred_surface_format()));
    } else {
        if formats.contains(spec_preferred_surface_format()) {
            let i = choose|i: int| 0 <= i < formats.len() && formats[i] == spec_preferred_surface_format();
            assert(formats[i].format.0 == 44);
        }
    }
}

/// The swapchain asks for one image more than the surface's least and at
/// least one more than the frames in flight (four), but never more than the
/// surface's most when it has one (a most of zero means no limit).
pub proof fn lemma_swapchain_image_count_bounds(capabilities: vk::SurfaceCapabilitiesKHR)
    requires
        capabilities.min_image_count < u32::MAX,
    ensures
        capabilities.max_image_count > 0 ==> spec_swapchain_image_count(capabilities)
            <= capabilities.max_image_count,
        capabilities.max_image_count == 0 || capabilities.max_image_count >= capabilities.min_image_count
            + 1 ==> spec_swapchain_image_count(capabilities) >= capabilities.min_image_count + 1,
        capabilities.max_image_count == 0 || capabilities.max_image_count >= 4
            ==> spec_swapchain_image_count(capabilities) >= 4,
        spec_swapchain_image_count(capabilities) == capabilities.min_image_count + 1
            || spec_swapchain_image_count(capabilities) == 4 || spec_swapchain_image_count(capabilities)
            == capabilities.max_image_count,
{
}

/// Swapchain images are shared by both families at once (Vulkan sharing
/// mode 1), listing the graphics family then the present family, when they
/// differ; and owned by one family at a time (mode 0), listing none, when
/// they are the same.
pub proof fn lemma_image_sharing_follows_the_families(indices: QueueFamilyIndices)
    ensures
        indices.graphics_family != indices.present_family ==> spec_image_sharing(indices).0.0 == 1
            && spec_image_sharing(indices).1.len() == 2 && Some(spec_image_sharing(indices).1[0])
            == indices.graphics_family && Some(spec_image_sharing(indices).1[1])
            == indices.present_family || indices.graphics_family is None || indices.present_family is None,
        indices.graphics_family == indices.present_family ==> spec_image_sharing(indices).0.0 == 0
            && spec_image_sharing(indices).1.len() == 0,
{
}

/// The chosen extent lies within what the surface allows whenever the
/// surface lets the swapchain decide it.
pub proof fn lemma_chosen_extent_within_limits(
    capabilities: vk::SurfaceCapabilitiesKHR,
    preferred_dimensions: [u32; 2],
)
    requires
        spec_extent_range_is_valid(capabilities),
        capabilities.current_extent.width == u32::MAX,
    ensures
        ({
            let e = spec_choose_swapchain_extent(capabilities, preferred_dimensions);
            &&& capabilities.min_image_extent.width <= e.width <= capabilities.max_image_extent.width
            &&& capabilities.min_image_extent.height <= e.height
                <= capabilities.max_image_extent.height
        }),
{
}

/// What a swapchain is created with.
pub struct SwapchainCreatePlan {
    pub min_image_count: u32,
    pub surface_format: vk::SurfaceFormatKHR,
    pub present_mode: vk::PresentModeKHR,
    pub extent: vk::Extent2D,
    pub image_usage: vk::ImageUsageFlags,
    pub image_sharing_mode: vk::SharingMode,
    pub queue_family_indices: Vec<u32>,
    pub pre_transform: u32,
    pub composite_alpha: vk::CompositeAlphaFlagsKHR,
    pub clipped: bool,
    pub image_array_layers: u32,
    /// The swapchain replaced, or the null handle.
    pub old_swapchain: u64,
}

/// The swapchain the renderer creates for a surface: the ideal format, mode
/// and extent for the descriptor, the image count, the sharing between the
/// queue families, the surface's current transform, color attachment use,
/// opaque composition, clipping, one layer, and the swapchain it replaces.
pub fn plan_swapchain(
    support: &SwapChainSupportDetail,
    config: SwapchainDescriptor,
    indices: &QueueFamilyIndices,
    old_swapchain: Option<u64>,
) -> (r: SwapchainCreatePlan)
    requires
        support.surface_formats.len() > 0,
        spec_extent_range_is_valid(support.capabilities),
        support.capabilities.min_image_count < u32::MAX,
        indices.graphics_family != indices.present_family ==> indices.graphics_family is Some
            && indices.present_family is Some,
    ensures
        r.surface_format == spec_choose_swapchain_format(support.surface_formats@),
        r.present_mode == spec_choose_swapchain_present_mode(support.present_modes@, config.vsync),
        r.extent == spec_choose_swapchain_extent(support.capabilities, [config.width, config.height]),
        r.min_image_count == spec_swapchain_image_count(support.capabilities),
        r.image_sharing_mode == spec_image_sharing(*indices).0,
        r.queue_family_indices@ == spec_image_sharing(*indices).1,
        r.image_usage.0 == vk::ImageUsageFlags::COLOR_ATTACHMENT,
        r.pre_transform == support.capabilities.current_transform,
        r.composite_alpha.0 == vk::CompositeAlphaFlagsKHR::OPAQUE,
        r.clipped,
        r.image_array_layers == 1,
        r.old_swapchain == match old_swapchain {
            Some(h) => h,
            None => 0,
        },
{
    let properties = support.get_ideal_swapchain_properties([config.width, config.height], config.vsync);
    let min_image_count = swapchain_image_count(&support.capabilities);
    let (image_sharing_mode, queue_family_indices) = image_sharing(indices);
    let old = match old_swapchain {
        Some(h) => h,
        None => 0,
    };
    SwapchainCreatePlan {
        min_image_count,
        surface_format: properties.surface_format,
        present_mode: properties.present_mode,
        extent: properties.extent,
        image_usage: vk::ImageUsageFlags(vk::ImageUsageFlags::COLOR_ATTACHMENT),
        image_sharing_mode,
        queue_family_indices,
        pre_transform: support.capabilities.current_transform,
        composite_alpha: vk::CompositeAlphaFlagsKHR(vk::CompositeAlphaFlagsKHR::OPAQUE),
        clipped: true,
        image_array_layers: 1,
        old_swapchain: old,
    }
}

/// The descriptor of each swapchain image: a two-dimensional color
/// attachment in 8-bit BGRA, optimally tiled, with one mip level and one
/// layer, of the swapchain's extent and depth zero.
pub fn swapchain_image_descriptor(extent: vk::Extent2D) -> (r: crate::vulkan_v2::image::ImageDescriptor)
    ensures
        r == (crate::vulkan_v2::image::ImageDescriptor {
            image_type: crate::vulkan_v2::image::ImageType::Tex2d,
            usage: vk::ImageUsageFlags(vk::ImageUsageFlags::COLOR_ATTACHMENT),
            flags: vk::ImageCreateFlags(0),
            format: vk::Format(vk::Format::B8G8R8A8_UNORM),
            extent: crate::types::Extent3d {
                width: extent.width,
                height: extent.height,
                depth_or_array_layers: 0,
            },
            tiling: vk::ImageTiling(vk::ImageTiling::OPTIMAL),
            mip_levels: 1,
            array_elements: 1,
        }),
{
    crate::vulkan_v2::image::ImageDescriptor {
        image_type: crate::vulkan_v2::image::ImageType::Tex2d,
        usage: vk::ImageUsageFlags(vk::ImageUsageFlags::COLOR_ATTACHMENT),
        flags: vk::ImageCreateFlags(0),
        format: vk::Format(vk::Format::B8G8R8A8_UNORM),
        extent: crate::types::Extent3d {
            width: extent.width,
            height: extent.height,
            depth_or_array_layers: 0,
        },
        tiling: vk::ImageTiling(vk::ImageTiling::OPTIMAL),
        mip_levels: 1,
        array_elements: 1,
    }
}

} // verus!
