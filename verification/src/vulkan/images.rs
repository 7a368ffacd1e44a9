//! The images that belong to a swapchain: a view of each presentable image
//! and one depth attachment.

use vstd::prelude::*;
use crate::vulkan::memory::MEMORY_PROPERTY_DEVICE_LOCAL;
use crate::vulkan::swapchain::Extent2D;

verus! {

/// Raw value of the 32-bit floating point depth format.
pub const FORMAT_D32_SFLOAT: i32 = 126;

/// Raw value of the tiling that the device lays out for its own access.
pub const IMAGE_TILING_OPTIMAL: i32 = 0;

/// Bit of the depth and stencil attachment usage in an image usage mask.
pub const IMAGE_USAGE_DEPTH_STENCIL_ATTACHMENT: u32 = 0x20;

/// Bit of the colour aspect in an aspect mask.
pub const IMAGE_ASPECT_COLOR: u32 = 0x1;

/// Bit of the depth aspect in an aspect mask.
pub const IMAGE_ASPECT_DEPTH: u32 = 0x2;

/// What a view of an image is created with. Its components are mapped to
/// themselves.
#[derive(Clone, Copy, Debug, PartialEq, Eq, Structural)]
pub struct ImageViewRequest {
    /// The handle of the image.
    pub image: u64,
    pub format: i32,
    pub aspect_mask: u32,
    pub mip_levels: u32,
    pub array_layers: u32,
}

/// What the depth image is created with.
#[derive(Clone, Copy, Debug, PartialEq, Eq, Structural)]
pub struct DepthImageRequest {
    pub format: i32,
    pub extent: Extent2D,
    pub tiling: i32,
    pub usage: u32,
    /// The properties the memory behind the image has to have.
    pub memory_properties: u32,
}

/// The view of a presentable image: its colour, one mip level, one layer.
pub open spec fn color_view_of(image: u64, format: i32) -> ImageViewRequest {
    ImageViewRequest {
        image,
        format,
        aspect_mask: IMAGE_ASPECT_COLOR,
        mip_levels: 1,
        array_layers: 1,
    }
}

/// The view of a depth image: its depth, one mip level, one layer.
pub open spec fn depth_view_of(image: u64) -> ImageViewRequest {
    ImageViewRequest {
        image,
        format: FORMAT_D32_SFLOAT,
        aspect_mask: IMAGE_ASPECT_DEPTH,
        mip_levels: 1,
        array_layers: 1,
    }
}

/// The depth image for swapchain images of size `extent`: of that size, in
/// the most precise depth format, laid out for the device and kept in
/// memory local to it.
pub open spec fn depth_image_for(extent: Extent2D) -> DepthImageRequest {
    DepthImageRequest {
        format: FORMAT_D32_SFLOAT,
        extent,
        tiling: IMAGE_TILING_OPTIMAL,
        usage: IMAGE_USAGE_DEPTH_STENCIL_ATTACHMENT,
        memory_properties: MEMORY_PROPERTY_DEVICE_LOCAL,
    }
}

/// One view for each presentable image, in the order of the images.
pub fn color_image_views(images: &Vec<u64>, format: i32) -> (views: Vec<ImageViewRequest>)
    ensures
        views@ == Seq::new(images.len() as nat, |i: int| color_view_of(images@[i], format)),
{
    let mut views: Vec<ImageViewRequest> = Vec::new();
    let mut i: usize = 0;
    while i < images.len()
        invariant
            i <= images.len(),
            views.len() == i,
            forall|j: int| 0 <= j < i ==> views@[j] == color_view_of(images@[j], format),
        decreases images.len() - i,
    {
        views.push(
            ImageViewRequest {
                image: images[i],
                format,
                aspect_mask: IMAGE_ASPECT_COLOR,
                mip_levels: 1,
                array_layers: 1,
            },
        );
        i += 1;
    }
    views
}

/// Computes `depth_image_for`.
pub fn depth_image_request(extent: Extent2D) -> (request: DepthImageRequest)
    ensures
        request == depth_image_for(extent),
{
    DepthImageRequest {
        format: FORMAT_D32_SFLOAT,
        extent,
        tiling: IMAGE_TILING_OPTIMAL,
        usage: IMAGE_USAGE_DEPTH_STENCIL_ATTACHMENT,
        memory_properties: MEMORY_PROPERTY_DEVICE_LOCAL,
    }
}

/// Computes `depth_view_of`.
pub fn depth_image_view(image: u64) -> (view: ImageViewRequest)
    ensures
        view == depth_view_of(image),
{
    ImageViewRequest {
        image,
        format: FORMAT_D32_SFLOAT,
        aspect_mask: IMAGE_ASPECT_DEPTH,
        mip_levels: 1,
        array_layers: 1,
    }
}

} // verus!
