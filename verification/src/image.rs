//! Images: their formats, uses, sampling and sizes.
use vstd::prelude::*;

verus! {

/// Pixel formats an image of the renderer can have.
#[derive(Copy, Clone, Debug, PartialEq, Eq, Structural)]
pub enum ImageFormat {
    Bgra8UnormSrgb,
    Depth32Float,
    Depth24Stencil8,
}

impl ImageFormat {
    /// Whether the format stores depth.
    pub open spec fn spec_is_depth_format(self) -> bool {
        self == ImageFormat::Depth24Stencil8 || self == ImageFormat::Depth32Float
    }

    pub fn is_depth_format(&self) -> (r: bool)
        ensures
            r == self.spec_is_depth_format(),
    {
        *self == ImageFormat::Depth24Stencil8 || *self == ImageFormat::Depth32Float
    }
}

/// What an image is used for.
#[derive(Debug, Clone, Copy, PartialEq, Eq, Structural)]
pub enum ImageUsage {
    Texture,
    Attachment,
    Storage,
}

/// How a sampler treats coordinates outside an image.
#[derive(Debug, Clone, Copy, PartialEq, Eq, Structural)]
pub enum ImageWrap {
    Clamp,
    Repeat,
}

/// How a sampler blends texels.
#[derive(Debug, Clone, Copy, PartialEq, Eq, Structural)]
pub enum ImageFilter {
    Linear,
    Nearest,
}

/// The shape of an image.
#[derive(Debug, Clone, Copy, PartialEq, Eq, Structural)]
pub enum ImageType {
    D2,
    Cube,
}

/// How an image is sampled and whether it gets mipmaps.
#[derive(Debug, Clone, Copy, PartialEq, Eq, Structural)]
pub struct ImageProperties {
    pub sampler_wrap: ImageWrap,
    pub sampler_filter: ImageFilter,
    pub generate_mipmaps: bool,
    pub storage: bool,
}

impl ImageProperties {
    /// Repeating, linearly filtered, with mipmaps, not a storage image.
    pub open spec fn spec_default() -> ImageProperties {
        ImageProperties {
            sampler_wrap: ImageWrap::Repeat,
            sampler_filter: ImageFilter::Linear,
            generate_mipmaps: true,
            storage: false,
        }
    }
}

impl Default for ImageProperties {
    fn default() -> (r: Self)
        ensures
            r == Self::spec_default(),
    {
        ImageProperties {
            sampler_wrap: ImageWrap::Repeat,
            sampler_filter: ImageFilter::Linear,
            generate_mipmaps: true,
            storage: false,
        }
    }
}

/// The format, use and size of an image.
#[derive(Debug, Clone, Copy, PartialEq, Eq, Structural)]
pub struct ImageSpecification {
    pub format: ImageFormat,
    pub usage: ImageUsage,
    pub width: u32,
    pub height: u32,
    pub mip_levels: u32,
    pub layers: u32,
}

impl ImageSpecification {
    /// An empty texture in the swapchain's format, with one mip level and
    /// one layer.
    pub open spec fn spec_default() -> ImageSpecification {
        ImageSpecification {
            format: ImageFormat::Bgra8UnormSrgb,
            usage: ImageUsage::Texture,
            width: 0,
            height: 0,
            mip_levels: 1,
            layers: 1,
        }
    }
}

impl Default for ImageSpecification {
    fn default() -> (r: Self)
        ensures
            r == Self::spec_default(),
    {
        ImageSpecification {
            format: ImageFormat::Bgra8UnormSrgb,
            usage: ImageUsage::Texture,
            width: 0,
            height: 0,
            mip_levels: 1,
            layers: 1,
        }
    }
}

/// An image of some backend.
pub trait Image: Sized {
    /// The image's width in texels.
    spec fn spec_width(&self) -> u32;

    /// The image's height in texels.
    spec fn spec_height(&self) -> u32;

    fn get_width(&self) -> (r: u32)
        ensures
            r == self.spec_width(),
    ;

    fn get_height(&self) -> (r: u32)
        ensures
            r == self.spec_height(),
    ;

    fn get_specification(&self) -> ImageSpecification;

    fn release(self);

    /// The number of mip levels a full chain for this image has.
    fn max_mip_levels(&self) -> (r: u32)
        ensures
            r == spec_max_mip_levels(self.spec_width(), self.spec_height()),
    {
        get_max_mip_levels(self.get_width(), self.get_height())
    }
}

/// The exponent of the largest power of two that is at most `n`, for a
/// positive `n`; zero for zero.
pub open spec fn spec_floor_log2(n: nat) -> nat
    decreases n,
{
    if n <= 1 {
        0
    } else {
        1 + spec_floor_log2(n / 2)
    }
}

/// The number of levels of a full mip chain for an image of the given size:
/// one more than the number of times the larger side can be halved before it
/// reaches one. An empty image has one level.
pub open spec fn spec_max_mip_levels(width: u32, height: u32) -> nat {
    let largest = if width >= height {
        width
    } else {
        height
    };
    spec_floor_log2(largest as nat) + 1
}

/// Below two to the power `k + 1`, the exponent is at most `k`.
proof fn lemma_floor_log2_bound_at(n: nat, k: nat)
    requires
        n < vstd::arithmetic::power2::pow2(k + 1),
    ensures
        spec_floor_log2(n) <= k,
    decreases n,
{
    vstd::arithmetic::power2::lemma_pow2_unfold(k + 1);
    if n > 1 {
        if k == 0 {
            vstd::arithmetic::power2::lemma2_to64();
        } else {
            vstd::arithmetic::power2::lemma_pow2_unfold(k);
            lemma_floor_log2_bound_at(n / 2, (k - 1) as nat);
        }
    }
}

/// Two to the power of the exponent is at most `n`, and twice that exceeds it.
proof fn lemma_floor_log2_brackets(n: nat)
    requires
        n >= 1,
    ensures
        vstd::arithmetic::power2::pow2(spec_floor_log2(n)) <= n,
        n < vstd::arithmetic::power2::pow2(spec_floor_log2(n) + 1),
    decreases n,
{
    let k = spec_floor_log2(n);
    vstd::arithmetic::power2::lemma_pow2_unfold(k + 1);
    if n == 1 {
        vstd::arithmetic::power2::lemma2_to64();
    } else {
        lemma_floor_log2_brackets(n / 2);
        vstd::arithmetic::power2::lemma_pow2_unfold(k);
    }
}

/// A full mip chain halves the larger side down to one texel: for a
/// non-empty image with `l` levels, the larger side is at least two to the
/// power `l - 1` and below two to the power `l`.
pub proof fn lemma_max_mip_levels_bracket_the_size(width: u32, height: u32)
    requires
        width > 0 || height > 0,
    ensures
        ({
            let largest = if width >= height { width } else { height };
            let levels = spec_max_mip_levels(width, height);
            &&& vstd::arithmetic::power2::pow2((levels - 1) as nat) <= largest
            &&& largest < vstd::arithmetic::power2::pow2(levels)
        }),
{
    let largest = if width >= height { width } else { height };
    lemma_floor_log2_brackets(largest as nat);
}

pub fn get_max_mip_levels(width: u32, height: u32) -> (r: u32)
    ensures
        r == spec_max_mip_levels(width, height),
{
    let largest = if width >= height {
        width
    } else {
        height
    };
    proof {
        vstd::arithmetic::power2::lemma2_to64();
        lemma_floor_log2_bound_at(largest as nat, 31);
    }
    let mut n: u32 = largest;
    let mut levels: u32 = 1;
    while n > 1
        invariant
            levels + spec_floor_log2(n as nat) == spec_max_mip_levels(width, height),
            1 <= levels <= 32,
            levels - 1 + spec_floor_log2(n as nat) <= 31,
        decreases n,
    {
        assert(spec_floor_log2(n as nat) == 1 + spec_floor_log2((n / 2) as nat));
        n = n / 2;
        levels = levels + 1;
    }
    levels
}

} // verus!
