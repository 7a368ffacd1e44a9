use resa::vulkan::images::{
    color_image_views, depth_image_request, depth_image_view, DepthImageRequest, ImageViewRequest,
    FORMAT_D32_SFLOAT, IMAGE_ASPECT_COLOR, IMAGE_ASPECT_DEPTH, IMAGE_TILING_OPTIMAL,
    IMAGE_USAGE_DEPTH_STENCIL_ATTACHMENT,
};
use resa::vulkan::memory::{find_memory_type, MemoryType, MEMORY_PROPERTY_DEVICE_LOCAL};
use resa::vulkan::swapchain::Extent2D;

const HOST_VISIBLE: u32 = 0x2;
const HOST_COHERENT: u32 = 0x4;

fn types() -> Vec<MemoryType> {
    vec![
        MemoryType { property_flags: HOST_VISIBLE | HOST_COHERENT, heap_index: 1 },
        MemoryType { property_flags: MEMORY_PROPERTY_DEVICE_LOCAL, heap_index: 0 },
        MemoryType {
            property_flags: MEMORY_PROPERTY_DEVICE_LOCAL | HOST_VISIBLE | HOST_COHERENT,
            heap_index: 0,
        },
    ]
}

#[test]
fn first_allowed_type_with_the_properties_is_found() {
    assert_eq!(find_memory_type(&types(), 0b111, MEMORY_PROPERTY_DEVICE_LOCAL), Some(1));
    assert_eq!(find_memory_type(&types(), 0b111, HOST_VISIBLE), Some(0));
    assert_eq!(
        find_memory_type(&types(), 0b111, MEMORY_PROPERTY_DEVICE_LOCAL | HOST_VISIBLE),
        Some(2)
    );
    assert_eq!(find_memory_type(&types(), 0b111, 0), Some(0));
}

#[test]
fn type_bits_rule_types_out() {
    assert_eq!(find_memory_type(&types(), 0b100, MEMORY_PROPERTY_DEVICE_LOCAL), Some(2));
    assert_eq!(find_memory_type(&types(), 0b110, HOST_VISIBLE), Some(2));
    assert_eq!(find_memory_type(&types(), 0b001, MEMORY_PROPERTY_DEVICE_LOCAL), None);
    assert_eq!(find_memory_type(&types(), 0, 0), None);
}

#[test]
fn no_type_is_found_where_none_suits() {
    assert_eq!(find_memory_type(&types(), 0b111, 0x10), None);
    assert_eq!(find_memory_type(&vec![], u32::MAX, 0), None);
    assert_eq!(find_memory_type(&types(), 0b1000, 0), None);
}

#[test]
fn types_beyond_the_mask_are_never_found() {
    let mut many = Vec::new();
    for _ in 0..40 {
        many.push(MemoryType { property_flags: HOST_VISIBLE, heap_index: 0 });
    }
    many[35].property_flags = MEMORY_PROPERTY_DEVICE_LOCAL;
    assert_eq!(find_memory_type(&many, u32::MAX, MEMORY_PROPERTY_DEVICE_LOCAL), None);
    many[31].property_flags = MEMORY_PROPERTY_DEVICE_LOCAL;
    assert_eq!(find_memory_type(&many, u32::MAX, MEMORY_PROPERTY_DEVICE_LOCAL), Some(31));
    assert_eq!(find_memory_type(&many, 0x7FFF_FFFF, MEMORY_PROPERTY_DEVICE_LOCAL), None);
}

#[test]
fn one_colour_view_for_each_image() {
    let views = color_image_views(&vec![7, 8, 9], 44);
    assert_eq!(views.len(), 3);
    for (i, view) in views.iter().enumerate() {
        assert_eq!(
            *view,
            ImageViewRequest {
                image: 7 + i as u64,
                format: 44,
                aspect_mask: IMAGE_ASPECT_COLOR,
                mip_levels: 1,
                array_layers: 1,
            }
        );
    }
    assert_eq!(color_image_views(&vec![], 44), vec![]);
}

#[test]
fn depth_image_is_device_local_and_of_the_swapchain_size() {
    let extent = Extent2D { width: 800, height: 600 };
    assert_eq!(
        depth_image_request(extent),
        DepthImageRequest {
            format: FORMAT_D32_SFLOAT,
            extent,
            tiling: IMAGE_TILING_OPTIMAL,
            usage: IMAGE_USAGE_DEPTH_STENCIL_ATTACHMENT,
            memory_properties: MEMORY_PROPERTY_DEVICE_LOCAL,
        }
    );
    assert_eq!(FORMAT_D32_SFLOAT, 126);
    assert_eq!(IMAGE_USAGE_DEPTH_STENCIL_ATTACHMENT, 0x20);
}

#[test]
fn depth_view_shows_the_depth_aspect() {
    assert_eq!(
        depth_image_view(5),
        ImageViewRequest {
            image: 5,
            format: FORMAT_D32_SFLOAT,
            aspect_mask: IMAGE_ASPECT_DEPTH,
            mip_levels: 1,
            array_layers: 1,
        }
    );
}
