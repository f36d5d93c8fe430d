//! Second-generation images: their types, and the views the renderer makes
//! of them.
use vstd::prelude::*;

use crate::error::DeviceError;
use crate::types::Extent3d;
use crate::vk;

verus! {

/// The shape of an image and of its default view.
#[derive(Debug, Clone, Copy, PartialEq, Eq, Structural, Hash)]
pub enum ImageType {
    Tex1d,
    Tex1dArray,
    Tex2d,
    Tex2dArray,
    Tex3d,
    Cube,
    CubeArray,
}

impl ImageType {
    /// The number the Vulkan API gives to the variant.
    pub open spec fn spec_to_i32(self) -> i32 {
        match self {
            ImageType::Tex1d => 0,
            ImageType::Tex1dArray => 1,
            ImageType::Tex2d => 2,
            ImageType::Tex2dArray => 3,
            ImageType::Tex3d => 4,
            ImageType::Cube => 5,
            ImageType::CubeArray => 6,
        }
    }

    /// The variant that the Vulkan API numbers `value`, if there is one.
    pub open spec fn spec_from_i32(value: i32) -> Option<ImageType> {
        if value == 0 {
            Some(ImageType::Tex1d)
        } else if value == 1 {
            Some(ImageType::Tex1dArray)
        } else if value == 2 {
            Some(ImageType::Tex2d)
        } else if value == 3 {
            Some(ImageType::Tex2dArray)
        } else if value == 4 {
            Some(ImageType::Tex3d)
        } else if value == 5 {
            Some(ImageType::Cube)
        } else if value == 6 {
            Some(ImageType::CubeArray)
        } else {
            None
        }
    }

    pub fn to_i32(&self) -> (r: i32)
        ensures
            r == self.spec_to_i32(),
    {
        match self {
            ImageType::Tex1d => 0,
            ImageType::Tex1dArray => 1,
            ImageType::Tex2d => 2,
            ImageType::Tex2dArray => 3,
            ImageType::Tex3d => 4,
            ImageType::Cube => 5,
            ImageType::CubeArray => 6,
        }
    }

    pub fn from_i32(value: i32) -> (r: Option<Self>)
        ensures
            r == Self::spec_from_i32(value),
    {
        match value {
            0 => Some(ImageType::Tex1d),
            1 => Some(ImageType::Tex1dArray),
            2 => Some(ImageType::Tex2d),
            3 => Some(ImageType::Tex2dArray),
            4 => Some(ImageType::Tex3d),
            5 => Some(ImageType::Cube),
            6 => Some(ImageType::CubeArray),
            _ => None,
        }
    }

    /// Reading back the number of a variant gives the variant.
    pub proof fn lemma_from_to(self)
        ensures
            Self::spec_from_i32(self.spec_to_i32()) == Some(self),
    {
    }

    /// A number that names a variant is that variant's number.
    pub proof fn lemma_to_from(value: i32)
        ensures
            Self::spec_from_i32(value) matches Some(v) ==> v.spec_to_i32() == value,
    {
    }
}

impl ImageType {
    /// The Vulkan view type of the image type.
    pub open spec fn spec_to_vk_image_view_type(self) -> vk::ImageViewType {
        match self {
            ImageType::Tex1d => vk::ImageViewType(vk::ImageViewType::TYPE_1D),
            ImageType::Tex1dArray => vk::ImageViewType(vk::ImageViewType::TYPE_1D_ARRAY),
            ImageType::Tex2d => vk::ImageViewType(vk::ImageViewType::TYPE_2D),
            ImageType::Tex2dArray => vk::ImageViewType(vk::ImageViewType::TYPE_2D_ARRAY),
            ImageType::Tex3d => vk::ImageViewType(vk::ImageViewType::TYPE_3D),
            ImageType::Cube => vk::ImageViewType(vk::ImageViewType::CUBE),
            ImageType::CubeArray => vk::ImageViewType(vk::ImageViewType::CUBE_ARRAY),
        }
    }

    pub fn to_vk_image_view_type(self) -> (r: vk::ImageViewType)
        ensures
            r == self.spec_to_vk_image_view_type(),
    {
        match self {
            ImageType::Tex1d => vk::ImageViewType(vk::ImageViewType::TYPE_1D),
            ImageType::Tex1dArray => vk::ImageViewType(vk::ImageViewType::TYPE_1D_ARRAY),
            ImageType::Tex2d => vk::ImageViewType(vk::ImageViewType::TYPE_2D),
            ImageType::Tex2dArray => vk::ImageViewType(vk::ImageViewType::TYPE_2D_ARRAY),
            ImageType::Tex3d => vk::ImageViewType(vk::ImageViewType::TYPE_3D),
            ImageType::Cube => vk::ImageViewType(vk::ImageViewType::CUBE),
            ImageType::CubeArray => vk::ImageViewType(vk::ImageViewType::CUBE_ARRAY),
        }
    }
}

/// Distinct image types have distinct view types.
pub proof fn lemma_view_types_are_distinct(a: ImageType, b: ImageType)
    ensures
        a.spec_to_vk_image_view_type() == b.spec_to_vk_image_view_type() ==> a == b,
{
}

/// What an image is created with.
#[derive(Clone, Copy, Debug, PartialEq, Eq, Structural)]
pub struct ImageDescriptor {
    pub image_type: ImageType,
    pub usage: vk::ImageUsageFlags,
    pub flags: vk::ImageCreateFlags,
    pub format: vk::Format,
    pub extent: Extent3d,
    pub tiling: vk::ImageTiling,
    pub mip_levels: u16,
    pub array_elements: u32,
}

/// What a view of an image is asked to be; what it leaves out comes from
/// the image.
#[derive(Clone, Copy, Debug, PartialEq, Eq, Structural, Default)]
pub struct ImageViewDescriptorKey {
    pub view_type: Option<vk::ImageViewType>,
    pub format: Option<vk::Format>,
    pub aspect_mask: vk::ImageAspectFlags,
    pub base_mip_level: u32,
    pub mip_levels: Option<u32>,
}

/// What a view of an image is created with.
#[derive(Clone, Copy, Debug, PartialEq, Eq, Structural)]
pub struct ImageViewPlan {
    pub view_type: vk::ImageViewType,
    pub format: vk::Format,
    pub aspect_mask: vk::ImageAspectFlags,
    pub base_mip_level: u32,
    pub level_count: u32,
    pub base_array_layer: u32,
    pub layer_count: u32,
}

/// The view: the asked view type, format and mip levels, or else the
/// image's; six layers for a cube, one otherwise.
pub open spec fn spec_view_desc(key: ImageViewDescriptorKey, image: ImageDescriptor) -> ImageViewPlan {
    ImageViewPlan {
        view_type: match key.view_type {
            Some(t) => t,
            None => image.image_type.spec_to_vk_image_view_type(),
        },
        format: match key.format {
            Some(f) => f,
            None => image.format,
        },
        aspect_mask: key.aspect_mask,
        base_mip_level: key.base_mip_level,
        level_count: match key.mip_levels {
            Some(m) => m,
            None => image.mip_levels as u32,
        },
        base_array_layer: 0,
        layer_count: match image.image_type {
            ImageType::Cube | ImageType::CubeArray => 6,
            _ => 1,
        },
    }
}

pub fn view_desc_impl(image_view_desc: ImageViewDescriptorKey, image_desc: &ImageDescriptor) -> (r:
    ImageViewPlan)
    ensures
        r == spec_view_desc(image_view_desc, *image_desc),
{
    let layer_count: u32 = match image_desc.image_type {
        ImageType::Cube | ImageType::CubeArray => 6,
        _ => 1,
    };
    let level_count = match image_view_desc.mip_levels {
        Some(m) => m,
        None => image_desc.mip_levels as u32,
    };
    let view_type = match image_view_desc.view_type {
        Some(t) => t,
        None => image_desc.image_type.to_vk_image_view_type(),
    };
    let format = match image_view_desc.format {
        Some(f) => f,
        None => image_desc.format,
    };
    ImageViewPlan {
        view_type,
        format,
        aspect_mask: image_view_desc.aspect_mask,
        base_mip_level: image_view_desc.base_mip_level,
        level_count,
        base_array_layer: 0,
        layer_count,
    }
}

/// Whether a view may be made: a view of a `D32_SFLOAT` image must cover
/// its depth.
pub open spec fn spec_image_view_allowed(key: ImageViewDescriptorKey, image: ImageDescriptor) -> bool {
    !(image.format.0 == vk::Format::D32_SFLOAT && key.aspect_mask.0 & vk::ImageAspectFlags::DEPTH
        != vk::ImageAspectFlags::DEPTH)
}

/// The view to create, or the error for a depth image viewed without its
/// depth.
pub fn plan_image_view(image_view_desc: ImageViewDescriptorKey, image_desc: &ImageDescriptor) -> (r:
    Result<ImageViewPlan, DeviceError>)
    ensures
        spec_image_view_allowed(image_view_desc, *image_desc) ==> r == Ok::<
            ImageViewPlan,
            DeviceError,
        >(spec_view_desc(image_view_desc, *image_desc)),
        !spec_image_view_allowed(image_view_desc, *image_desc) ==> r == Err::<
            ImageViewPlan,
            DeviceError,
        >(
            DeviceError::Other(
                "image_view_desc.aspect_mask should contain vk::ImageAspectFlags::DEPTH ",
            ),
        ),
{
    if image_desc.format.0 == vk::Format::D32_SFLOAT && image_view_desc.aspect_mask.0
        & vk::ImageAspectFlags::DEPTH != vk::ImageAspectFlags::DEPTH {
        return Err(
            DeviceError::Other(
                "image_view_desc.aspect_mask should contain vk::ImageAspectFlags::DEPTH ",
            ),
        );
    }
    Ok(view_desc_impl(image_view_desc, image_desc))
}


/// What a request for a view of an image comes to.
#[derive(Clone, Copy, Debug, PartialEq, Eq, Structural)]
pub enum ViewRequest {
    /// The view made before for the same key.
    Cached(vk::ImageView),
    /// A view to create with this plan, then keep under the key.
    Create(ImageViewPlan),
}

/// The views made of an image so far, each under the key it was asked for.
pub struct ImageViewCache {
    entries: Vec<(ImageViewDescriptorKey, vk::ImageView)>,
}

impl ImageViewCache {
    /// The view made for each key asked for so far.
    pub closed spec fn views(&self) -> Map<ImageViewDescriptorKey, vk::ImageView> {
        Map::new(
            |k: ImageViewDescriptorKey| exists|i: int| 0 <= i < self.entries@.len() && #[trigger] self.entries@[i].0 == k,
            |k: ImageViewDescriptorKey| {
                let i = choose|i: int| 0 <= i < self.entries@.len() && #[trigger] self.entries@[i].0 == k;
                self.entries@[i].1
            },
        )
    }

    /// No key is stored twice.
    pub closed spec fn wf(&self) -> bool {
        forall|i: int, j: int|
            0 <= i < j < self.entries@.len() ==> #[trigger] self.entries@[i].0 != #[trigger] self.entries@[j].0
    }

    /// No view made yet.
    pub fn new() -> (r: Self)
        ensures
            r.wf(),
            r.views() == Map::<ImageViewDescriptorKey, vk::ImageView>::empty(),
    {
        let r = ImageViewCache { entries: Vec::new() };
        proof {
            assert(r.views() =~= Map::<ImageViewDescriptorKey, vk::ImageView>::empty());
        }
        r
    }

    /// The view already made for the key, if there is one.
    pub fn cached_view(&self, key: ImageViewDescriptorKey) -> (r: Option<vk::ImageView>)
        requires
            self.wf(),
        ensures
            r == (if self.views().contains_key(key) {
                Some(self.views()[key])
            } else {
                None
            }),
    {
        let mut i: usize = 0;
        while i < self.entries.len()
            invariant
                self.wf(),
                0 <= i <= self.entries@.len(),
                forall|j: int| 0 <= j < i ==> (#[trigger] self.entries@[j]).0 != key,
            decreases self.entries.len() - i,
        {
            if self.entries[i].0 == key {
                proof {
                    assert(self.views().contains_key(key));
                    let c = choose|c: int| 0 <= c < self.entries@.len() && #[trigger] self.entries@[c].0 == key;
                    if c != i as int {
                        if c < i {
                            assert(self.entries@[c].0 != self.entries@[i as int].0);
                        } else {
                            assert(self.entries@[i as int].0 != self.entries@[c].0);
                        }
                    }
                }
                return Some(self.entries[i].1);
            }
            i = i + 1;
        }
        proof {
            if self.views().contains_key(key) {
                let c = choose|c: int| 0 <= c < self.entries@.len() && #[trigger] self.entries@[c].0 == key;
                assert(self.entries@[c].0 != key);
            }
        }
        None
    }

    /// What asking for a view of the image comes to: the view already made
    /// for the key; else the view to create and keep, or the error for a
    /// depth image viewed without its depth.
    pub fn get_view(&self, key: ImageViewDescriptorKey, image_desc: &ImageDescriptor) -> (r: Result<
        ViewRequest,
        DeviceError,
    >)
        requires
            self.wf(),
        ensures
            self.views().contains_key(key) ==> r == Ok::<ViewRequest, DeviceError>(
                ViewRequest::Cached(self.views()[key]),
            ),
            !self.views().contains_key(key) && spec_image_view_allowed(key, *image_desc) ==> r
                == Ok::<ViewRequest, DeviceError>(
                ViewRequest::Create(spec_view_desc(key, *image_desc)),
            ),
            !self.views().contains_key(key) && !spec_image_view_allowed(key, *image_desc) ==> r
                == Err::<ViewRequest, DeviceError>(
                DeviceError::Other(
                    "image_view_desc.aspect_mask should contain vk::ImageAspectFlags::DEPTH ",
                ),
            ),
    {
        match self.cached_view(key) {
            Some(view) => Ok(ViewRequest::Cached(view)),
            None => match plan_image_view(key, image_desc) {
                Ok(plan) => Ok(ViewRequest::Create(plan)),
                Err(e) => Err(e),
            },
        }
    }

    /// Keeps the view made for a key asked for the first time.
    pub fn record_view(&mut self, key: ImageViewDescriptorKey, view: vk::ImageView)
        requires
            old(self).wf(),
            !old(self).views().contains_key(key),
        ensures
            final(self).wf(),
            final(self).views() == old(self).views().insert(key, view),
    {
        let ghost before = self.entries@;
        self.entries.push((key, view));
        proof {
            let after = self.entries@;
            assert(after.len() == before.len() + 1);
            assert forall|i: int| 0 <= i < before.len() implies #[trigger] after[i] == before[i] by {}
            assert forall|i: int| 0 <= i < before.len() implies before[i].0 != key by {
                if before[i].0 == key {
                    assert(0 <= i < old(self).entries@.len() && old(self).entries@[i].0 == key);
                }
            }
            assert forall|i: int, j: int|
                0 <= i < j < after.len() implies #[trigger] after[i].0 != #[trigger] after[j].0 by {
                if j < before.len() {
                    assert(before[i].0 != before[j].0);
                }
            }
            let m_old = old(self).views();
            let m_new = self.views();
            assert forall|k: ImageViewDescriptorKey| #[trigger] m_new.contains_key(k) <==> m_old.insert(key, view).contains_key(k) by {
                if m_new.contains_key(k) {
                    let c = choose|c: int| 0 <= c < after.len() && #[trigger] after[c].0 == k;
                    if c < before.len() {
                        assert(before[c].0 == k);
                    }
                }
                if m_old.contains_key(k) {
                    let c = choose|c: int| 0 <= c < before.len() && #[trigger] before[c].0 == k;
                    assert(after[c].0 == k);
                }
                if k == key {
                    assert(after[before.len() as int].0 == k);
                }
            }
            assert forall|k: ImageViewDescriptorKey| #[trigger] m_new.contains_key(k) implies m_new[k] == m_old.insert(key, view)[k] by {
                let c = choose|c: int| 0 <= c < after.len() && #[trigger] after[c].0 == k;
                if k == key {
                    if c < before.len() {
                        assert(before[c].0 == key);
                    }
                    assert(c == before.len());
                } else {
                    assert(c < before.len());
                    assert(before[c].0 == k);
                    let d = choose|d: int| 0 <= d < before.len() && #[trigger] before[d].0 == k;
                    if d != c {
                        if d < c {
                            assert(after[d].0 != after[c].0);
                        } else {
                            assert(after[c].0 != after[d].0);
                        }
                    }
                }
            }
            assert(m_new =~= m_old.insert(key, view));
        }
    }
}

/// A view asked for again is the one made the first time: once a view is
/// recorded for a key, the cache gives it back for that key, and the views of
/// other keys stay as they were.
pub proof fn lemma_recorded_view_is_returned(
    before: Map<ImageViewDescriptorKey, vk::ImageView>,
    key: ImageViewDescriptorKey,
    view: vk::ImageView,
    other: ImageViewDescriptorKey,
)
    requires
        other != key,
    ensures
        before.insert(key, view).contains_key(key),
        before.insert(key, view)[key] == view,
        before.insert(key, view).contains_key(other) == before.contains_key(other),
        before.contains_key(other) ==> before.insert(key, view)[other] == before[other],
{
}

/// Each image type is viewed with the Vulkan view type of the same shape
/// (one-dimensional 0, two-dimensional 1, three-dimensional 2, cube 3, and
/// their arrays 4, 5 and 6); a view planned without a view type of its own
/// takes its image's, and without a format or a mip count of its own takes
/// its image's; cube images are viewed as six layers, other images as one.
pub proof fn lemma_view_type_follows_image_shape(key: ImageViewDescriptorKey, image: ImageDescriptor)
    ensures
        ImageType::Tex1d.spec_to_vk_image_view_type().0 == 0,
        ImageType::Tex2d.spec_to_vk_image_view_type().0 == 1,
        ImageType::Tex3d.spec_to_vk_image_view_type().0 == 2,
        ImageType::Cube.spec_to_vk_image_view_type().0 == 3,
        ImageType::Tex1dArray.spec_to_vk_image_view_type().0 == 4,
        ImageType::Tex2dArray.spec_to_vk_image_view_type().0 == 5,
        ImageType::CubeArray.spec_to_vk_image_view_type().0 == 6,
        key.view_type is None ==> spec_view_desc(key, image).view_type.0 == (match image.image_type {
            ImageType::Tex1d => 0int,
            ImageType::Tex2d => 1int,
            ImageType::Tex3d => 2int,
            ImageType::Cube => 3int,
            ImageType::Tex1dArray => 4int,
            ImageType::Tex2dArray => 5int,
            ImageType::CubeArray => 6int,
        }),
        key.view_type matches Some(t) ==> spec_view_desc(key, image).view_type == t,
        key.format is None ==> spec_view_desc(key, image).format == image.format,
        key.format matches Some(f) ==> spec_view_desc(key, image).format == f,
        key.mip_levels is None ==> spec_view_desc(key, image).level_count == image.mip_levels,
        key.mip_levels matches Some(m) ==> spec_view_desc(key, image).level_count == m,
        spec_view_desc(key, image).layer_count == (if image.image_type == ImageType::Cube
            || image.image_type == ImageType::CubeArray {
            6int
        } else {
            1int
        }),
        spec_view_desc(key, image).base_array_layer == 0,
        spec_view_desc(key, image).base_mip_level == key.base_mip_level,
        spec_view_desc(key, image).aspect_mask == key.aspect_mask,
{
}

} // verus!
