//! Negotiation of swapchain parameters against what a surface reports.

use vstd::prelude::*;
use crate::vulkan::teardown::{ResourceKind, TeardownStep};

verus! {

/// Width reported by a surface whose extent is decided by the swapchain.
pub const UNDEFINED_EXTENT: u32 = 0xFFFF_FFFF;

/// Raw value of the format that stands for "no preference".
pub const FORMAT_UNDEFINED: i32 = 0;

/// Bit of the identity transform in a transform mask.
pub const TRANSFORM_IDENTITY: u32 = 0x1;

/// Bit of the colour attachment usage in an image usage mask.
pub const IMAGE_USAGE_COLOR_ATTACHMENT: u32 = 0x10;

/// Size of an image in pixels.
#[derive(Clone, Copy, Debug, PartialEq, Eq, Structural)]
pub struct Extent2D {
    pub width: u32,
    pub height: u32,
}

/// How the presentation engine synchronises with the display.
#[derive(Clone, Copy, Debug, PartialEq, Eq, Structural)]
pub enum PresentMode {
    Immediate,
    Mailbox,
    Fifo,
    FifoRelaxed,
    /// A mode this crate has no name for, by its raw value.
    Other(i32),
}

/// A pixel format together with the colour space it is shown in, both by
/// their raw values.
#[derive(Clone, Copy, Debug, PartialEq, Eq, Structural)]
pub struct SurfaceFormat {
    pub format: i32,
    pub color_space: i32,
}

/// The number of images to ask for: one more than the minimum, held down to
/// the maximum where the surface has one (`max == 0` means unbounded).
pub open spec fn negotiated_image_count(min: u32, max: u32) -> int {
    if max > 0 && min + 1 > max {
        max as int
    } else {
        min + 1
    }
}

/// Computes `negotiated_image_count`.
///
/// The one pair left out is an unbounded surface whose minimum is already
/// the largest `u32`: the count would not fit.
pub fn choose_image_count(min: u32, max: u32) -> (count: u32)
    requires
        max > 0 || min < u32::MAX,
    ensures
        count == negotiated_image_count(min, max),
{
    if max > 0 && min >= max {
        max
    } else {
        min + 1
    }
}

/// The present mode to use: mailbox where the surface offers it, FIFO
/// otherwise.
pub open spec fn preferred_present_mode(modes: Seq<PresentMode>) -> PresentMode {
    if modes.contains(PresentMode::Mailbox) {
        PresentMode::Mailbox
    } else {
        PresentMode::Fifo
    }
}

/// Computes `preferred_present_mode`.
pub fn choose_present_mode(modes: &Vec<PresentMode>) -> (mode: PresentMode)
    ensures
        mode == preferred_present_mode(modes@),
{
    let mut i: usize = 0;
    while i < modes.len()
        invariant
            i <= modes.len(),
            forall|j: int| 0 <= j < i ==> modes@[j] != PresentMode::Mailbox,
        decreases modes.len() - i,
    {
        if modes[i] == PresentMode::Mailbox {
            return PresentMode::Mailbox;
        }
        i += 1;
    }
    PresentMode::Fifo
}

/// What a surface reports of itself, as far as a swapchain depends on it.
#[derive(Clone, Copy, Debug, PartialEq, Eq, Structural)]
pub struct SurfaceCapabilities {
    pub min_image_count: u32,
    /// Zero where the surface sets no upper bound.
    pub max_image_count: u32,
    /// The size the surface has; its width is `UNDEFINED_EXTENT` where the
    /// swapchain decides the size.
    pub current_extent: Extent2D,
    pub min_image_extent: Extent2D,
    pub max_image_extent: Extent2D,
    pub supported_transforms: u32,
    pub current_transform: u32,
    pub supported_usage_flags: u32,
}

/// `value` held into `[low, high]`; the lower bound is tested first, so it
/// wins where the two bounds cross.
pub open spec fn clamped(value: u32, low: u32, high: u32) -> u32 {
    if value < low {
        low
    } else if value > high {
        high
    } else {
        value
    }
}

/// `extent` held, width and height apart, into the bounds of the surface.
pub open spec fn clamped_extent(extent: Extent2D, caps: SurfaceCapabilities) -> Extent2D {
    Extent2D {
        width: clamped(extent.width, caps.min_image_extent.width, caps.max_image_extent.width),
        height: clamped(
            extent.height,
            caps.min_image_extent.height,
            caps.max_image_extent.height,
        ),
    }
}

/// The size of the swapchain images: the size of the surface where it has
/// one, else the size of the window held into the bounds of the surface.
pub open spec fn negotiated_extent(caps: SurfaceCapabilities, window: Extent2D) -> Extent2D {
    if caps.current_extent.width == UNDEFINED_EXTENT {
        clamped_extent(window, caps)
    } else {
        caps.current_extent
    }
}

fn clamp(value: u32, low: u32, high: u32) -> (held: u32)
    ensures
        held == clamped(value, low, high),
{
    if value < low {
        low
    } else if value > high {
        high
    } else {
        value
    }
}

/// Computes `clamped_extent`.
pub fn clamp_extent(extent: Extent2D, caps: &SurfaceCapabilities) -> (held: Extent2D)
    ensures
        held == clamped_extent(extent, *caps),
{
    Extent2D {
        width: clamp(extent.width, caps.min_image_extent.width, caps.max_image_extent.width),
        height: clamp(extent.height, caps.min_image_extent.height, caps.max_image_extent.height),
    }
}

/// Computes `negotiated_extent`.
pub fn choose_extent(caps: &SurfaceCapabilities, window: Extent2D) -> (extent: Extent2D)
    ensures
        extent == negotiated_extent(*caps, window),
{
    if caps.current_extent.width == UNDEFINED_EXTENT {
        clamp_extent(window, caps)
    } else {
        caps.current_extent
    }
}

/// The transform applied before presentation: identity where the surface
/// supports it, else the one the surface has now.
pub open spec fn preferred_transform(caps: SurfaceCapabilities) -> u32 {
    if caps.supported_transforms & TRANSFORM_IDENTITY == TRANSFORM_IDENTITY {
        TRANSFORM_IDENTITY
    } else {
        caps.current_transform
    }
}

/// Computes `preferred_transform`.
pub fn choose_transform(caps: &SurfaceCapabilities) -> (transform: u32)
    ensures
        transform == preferred_transform(*caps),
{
    if caps.supported_transforms & TRANSFORM_IDENTITY == TRANSFORM_IDENTITY {
        TRANSFORM_IDENTITY
    } else {
        caps.current_transform
    }
}

/// The part of the colour attachment usage that the surface supports.
pub fn choose_image_usage(caps: &SurfaceCapabilities) -> (usage: u32)
    ensures
        usage == IMAGE_USAGE_COLOR_ATTACHMENT & caps.supported_usage_flags,
{
    IMAGE_USAGE_COLOR_ATTACHMENT & caps.supported_usage_flags
}

/// Whether `formats` is the one-entry list by which a surface says that it
/// has no preference.
pub open spec fn no_preference(formats: Seq<SurfaceFormat>) -> bool {
    formats.len() == 1 && formats[0].format == FORMAT_UNDEFINED
}

/// Whether `i` is the first place in `formats` that holds `format`.
pub open spec fn is_first_with_format(formats: Seq<SurfaceFormat>, format: i32, i: int) -> bool {
    &&& 0 <= i < formats.len()
    &&& formats[i].format == format
    &&& forall|j: int| 0 <= j < i ==> formats[j].format != format
}

/// The surface format to use for a non-empty list of supported formats.
///
/// The desired pair where the surface has no preference or lists that very
/// pair; else the desired format in the colour space of its first listing;
/// else the first listed pair.
pub open spec fn supported_format(formats: Seq<SurfaceFormat>, desired: SurfaceFormat)
    -> SurfaceFormat {
    if no_preference(formats) || formats.contains(desired) {
        desired
    } else if exists|i: int| is_first_with_format(formats, desired.format, i) {
        let i = choose|i: int| is_first_with_format(formats, desired.format, i);
        SurfaceFormat { format: desired.format, color_space: formats[i].color_space }
    } else {
        formats[0]
    }
}

/// Computes `supported_format`.
pub fn get_supported_image_format_and_color_space(
    surface_formats: &Vec<SurfaceFormat>,
    desired_format: SurfaceFormat,
) -> (chosen: SurfaceFormat)
    requires
        surface_formats.len() > 0,
    ensures
        chosen == supported_format(surface_formats@, desired_format),
{
    if surface_formats.len() == 1 && surface_formats[0].format == FORMAT_UNDEFINED {
        return desired_format;
    }
    let mut i: usize = 0;
    while i < surface_formats.len()
        invariant
            i <= surface_formats.len(),
            forall|j: int| 0 <= j < i ==> surface_formats@[j] != desired_format,
        decreases surface_formats.len() - i,
    {
        if surface_formats[i].format == desired_format.format && surface_formats[i].color_space
            == desired_format.color_space {
            return desired_format;
        }
        i += 1;
    }
    let mut k: usize = 0;
    while k < surface_formats.len()
        invariant
            k <= surface_formats.len(),
            !no_preference(surface_formats@),
            !surface_formats@.contains(desired_format),
            forall|j: int| 0 <= j < k ==> surface_formats@[j].format != desired_format.format,
        decreases surface_formats.len() - k,
    {
        if surface_formats[k].format == desired_format.format {
            proof {
                let formats = surface_formats@;
                assert(is_first_with_format(formats, desired_format.format, k as int));
                let c = choose|c: int| is_first_with_format(formats, desired_format.format, c);
                assert(c == k);
            }
            return SurfaceFormat {
                format: desired_format.format,
                color_space: surface_formats[k].color_space,
            };
        }
        k += 1;
    }
    surface_formats[0]
}

/// Why no swapchain could be negotiated.
#[derive(Clone, Copy, Debug, PartialEq, Eq, Structural)]
pub enum SwapchainError {
    /// The surface lists no format at all.
    NoSurfaceFormat,
    /// The surface sets no upper bound and its minimum is the largest count
    /// there is, so one more image cannot be asked for.
    ImageCountOverflow,
}

/// The parameters a swapchain is created with.
#[derive(Clone, Copy, Debug, PartialEq, Eq, Structural)]
pub struct VkSwapchain {
    pub surface_format: SurfaceFormat,
    pub surface_resolution: Extent2D,
    pub present_mode: PresentMode,
    pub image_count: u32,
    pub pre_transform: u32,
    pub image_usage: u32,
}

impl VkSwapchain {
    /// The outcome of a negotiation, for every input.
    pub open spec fn negotiated(
        caps: SurfaceCapabilities,
        formats: Seq<SurfaceFormat>,
        present_modes: Seq<PresentMode>,
        desired_format: SurfaceFormat,
        window_size: Extent2D,
    ) -> Result<VkSwapchain, SwapchainError> {
        if formats.len() == 0 {
            Err(SwapchainError::NoSurfaceFormat)
        } else if caps.max_image_count == 0 && caps.min_image_count == u32::MAX {
            Err(SwapchainError::ImageCountOverflow)
        } else {
            Ok(
                VkSwapchain {
                    surface_format: supported_format(formats, desired_format),
                    surface_resolution: negotiated_extent(caps, window_size),
                    present_mode: preferred_present_mode(present_modes),
                    image_count: negotiated_image_count(
                        caps.min_image_count,
                        caps.max_image_count,
                    ) as u32,
                    pre_transform: preferred_transform(caps),
                    image_usage: IMAGE_USAGE_COLOR_ATTACHMENT & caps.supported_usage_flags,
                },
            )
        }
    }

    /// Negotiates the parameters of a swapchain from what the surface
    /// reports and the size of the window.
    pub fn new(
        caps: &SurfaceCapabilities,
        formats: &Vec<SurfaceFormat>,
        present_modes: &Vec<PresentMode>,
        desired_format: SurfaceFormat,
        window_size: Extent2D,
    ) -> (result: Result<VkSwapchain, SwapchainError>)
        ensures
            result == Self::negotiated(
                *caps,
                formats@,
                present_modes@,
                desired_format,
                window_size,
            ),
    {
        if formats.len() == 0 {
            return Err(SwapchainError::NoSurfaceFormat);
        }
        if caps.max_image_count == 0 && caps.min_image_count == u32::MAX {
            return Err(SwapchainError::ImageCountOverflow);
        }
        Ok(
            VkSwapchain {
                surface_format: get_supported_image_format_and_color_space(
                    formats,
                    desired_format,
                ),
                surface_resolution: choose_extent(caps, window_size),
                present_mode: choose_present_mode(present_modes),
                image_count: choose_image_count(caps.min_image_count, caps.max_image_count),
                pre_transform: choose_transform(caps),
                image_usage: choose_image_usage(caps),
            },
        )
    }

    /// Negotiates anew, after the surface went out of date or the window
    /// changed its size. The parameters are replaced as a whole, or not at
    /// all where the negotiation fails.
    pub fn recreate(
        &mut self,
        caps: &SurfaceCapabilities,
        formats: &Vec<SurfaceFormat>,
        present_modes: &Vec<PresentMode>,
        desired_format: SurfaceFormat,
        window_size: Extent2D,
    ) -> (result: Result<(), SwapchainError>)
        ensures
            match Self::negotiated(*caps, formats@, present_modes@, desired_format, window_size) {
                Ok(fresh) => result == Ok::<(), SwapchainError>(()) && *final(self) == fresh,
                Err(e) => result == Err::<(), SwapchainError>(e) && *final(self) == *old(self),
            },
    {
        match VkSwapchain::new(caps, formats, present_modes, desired_format, window_size) {
            Ok(fresh) => {
                *self = fresh;
                Ok(())
            },
            Err(e) => Err(e),
        }
    }
}

impl VkSwapchain {
    /// What is destroyed with the swapchain: the swapchain itself.
    pub fn destroy(&self) -> (steps: Vec<TeardownStep>)
        ensures
            steps@ == seq![TeardownStep::Destroy(ResourceKind::Swapchain)],
    {
        let mut steps: Vec<TeardownStep> = Vec::new();
        steps.push(TeardownStep::Destroy(ResourceKind::Swapchain));
        steps
    }
}

/// The image count of a surface with consistent bounds lies within them;
/// an unbounded surface gets one image more than its minimum.
pub proof fn lemma_image_count_within_bounds(min: u32, max: u32)
    requires
        max == 0 || max >= min,
    ensures
        max > 0 ==> min <= negotiated_image_count(min, max) <= max,
        max == 0 ==> negotiated_image_count(min, max) == min + 1,
{
}

/// The extent of a surface with consistent bounds, where the swapchain
/// decides it, lies within those bounds in width and in height, and is the
/// size of the window where that lies within them.
pub proof fn lemma_extent_within_bounds(caps: SurfaceCapabilities, window: Extent2D)
    requires
        caps.current_extent.width == UNDEFINED_EXTENT,
        caps.min_image_extent.width <= caps.max_image_extent.width,
        caps.min_image_extent.height <= caps.max_image_extent.height,
    ensures
        caps.min_image_extent.width <= negotiated_extent(caps, window).width
            <= caps.max_image_extent.width,
        caps.min_image_extent.height <= negotiated_extent(caps, window).height
            <= caps.max_image_extent.height,
        caps.min_image_extent.width <= window.width <= caps.max_image_extent.width
            && caps.min_image_extent.height <= window.height <= caps.max_image_extent.height
            ==> negotiated_extent(caps, window) == window,
{
}

/// A negotiated swapchain presents in mailbox or FIFO mode, and in FIFO
/// mode exactly where the surface does not offer mailbox.
pub proof fn lemma_present_mode_is_mailbox_or_fifo(modes: Seq<PresentMode>)
    ensures
        preferred_present_mode(modes) == PresentMode::Mailbox || preferred_present_mode(modes)
            == PresentMode::Fifo,
        preferred_present_mode(modes) == PresentMode::Fifo <==> !modes.contains(
            PresentMode::Mailbox,
        ),
{
}

/// Where neither the desired pair is accepted nor the first format is
/// fallen back to, the chosen format is the desired one, in the colour
/// space of the first place that lists it.
pub proof fn lemma_format_match_gives_color_space(
    formats: Seq<SurfaceFormat>,
    desired: SurfaceFormat,
    i: int,
)
    requires
        !no_preference(formats),
        !formats.contains(desired),
        is_first_with_format(formats, desired.format, i),
    ensures
        supported_format(formats, desired) == (SurfaceFormat {
            format: desired.format,
            color_space: formats[i].color_space,
        }),
{
    let c = choose|c: int| is_first_with_format(formats, desired.format, c);
    assert(c == i);
}

/// The format chosen for a surface that states a preference is one that
/// the surface lists.
pub proof fn lemma_supported_format_is_listed(formats: Seq<SurfaceFormat>, desired: SurfaceFormat)
    requires
        formats.len() > 0,
        !no_preference(formats),
    ensures
        formats.contains(supported_format(formats, desired)),
{
    let chosen = supported_format(formats, desired);
    if formats.contains(desired) {
    } else if exists|i: int| is_first_with_format(formats, desired.format, i) {
        let i = choose|i: int| is_first_with_format(formats, desired.format, i);
        assert(formats[i] == chosen);
    } else {
        assert(formats[0] == chosen);
    }
}

} // verus!
