use resa::vulkan::swapchain::{
    choose_extent, choose_image_count, choose_image_usage, choose_present_mode, choose_transform,
    clamp_extent, get_supported_image_format_and_color_space, Extent2D, PresentMode,
    SurfaceCapabilities, SurfaceFormat, SwapchainError, VkSwapchain, FORMAT_UNDEFINED,
    IMAGE_USAGE_COLOR_ATTACHMENT, TRANSFORM_IDENTITY, UNDEFINED_EXTENT,
};

fn caps() -> SurfaceCapabilities {
    SurfaceCapabilities {
        min_image_count: 2,
        max_image_count: 4,
        current_extent: Extent2D { width: UNDEFINED_EXTENT, height: UNDEFINED_EXTENT },
        min_image_extent: Extent2D { width: 1, height: 1 },
        max_image_extent: Extent2D { width: 4096, height: 4096 },
        supported_transforms: 0x1 | 0x2,
        current_transform: 0x2,
        supported_usage_flags: 0x10 | 0x4,
    }
}

const A: i32 = 37;
const B: i32 = 44;
const X: i32 = 0;
const Y: i32 = 1_000_104_002;
const Z: i32 = 1_000_104_003;

#[test]
fn image_count_is_one_more_than_the_minimum() {
    assert_eq!(choose_image_count(2, 4), 3);
    assert_eq!(choose_image_count(0, 8), 1);
}

#[test]
fn image_count_is_held_down_to_the_maximum() {
    assert_eq!(choose_image_count(2, 2), 2);
    assert_eq!(choose_image_count(3, 3), 3);
    assert_eq!(choose_image_count(u32::MAX, u32::MAX), u32::MAX);
}

#[test]
fn image_count_of_an_unbounded_surface() {
    assert_eq!(choose_image_count(2, 0), 3);
    assert_eq!(choose_image_count(u32::MAX - 1, 0), u32::MAX);
}

#[test]
fn image_count_stays_within_consistent_bounds() {
    for min in 0u32..6 {
        for max in min.max(1)..8 {
            let count = choose_image_count(min, max);
            assert!(min <= count && count <= max);
        }
        assert_eq!(choose_image_count(min, 0), min + 1);
    }
}

#[test]
fn undefined_extent_takes_the_window_size() {
    let extent = choose_extent(&caps(), Extent2D { width: 800, height: 600 });
    assert_eq!(extent, Extent2D { width: 800, height: 600 });
}

#[test]
fn window_larger_than_the_surface_allows_is_clamped() {
    let mut c = caps();
    c.max_image_extent = Extent2D { width: 1920, height: 1080 };
    let extent = choose_extent(&c, Extent2D { width: 2560, height: 1440 });
    assert_eq!(extent, Extent2D { width: 1920, height: 1080 });
    let extent = choose_extent(&c, Extent2D { width: 2560, height: 720 });
    assert_eq!(extent, Extent2D { width: 1920, height: 720 });
}

#[test]
fn window_smaller_than_the_surface_allows_is_clamped() {
    let mut c = caps();
    c.min_image_extent = Extent2D { width: 64, height: 32 };
    let extent = choose_extent(&c, Extent2D { width: 0, height: 16 });
    assert_eq!(extent, Extent2D { width: 64, height: 32 });
}

#[test]
fn defined_extent_is_used_as_it_is() {
    let mut c = caps();
    c.current_extent = Extent2D { width: 5000, height: 3 };
    let extent = choose_extent(&c, Extent2D { width: 800, height: 600 });
    assert_eq!(extent, Extent2D { width: 5000, height: 3 });
}

#[test]
fn lower_bound_wins_where_the_bounds_cross() {
    let mut c = caps();
    c.min_image_extent = Extent2D { width: 100, height: 100 };
    c.max_image_extent = Extent2D { width: 50, height: 50 };
    assert_eq!(
        clamp_extent(Extent2D { width: 10, height: 70 }, &c),
        Extent2D { width: 100, height: 100 }
    );
    assert_eq!(
        clamp_extent(Extent2D { width: 200, height: 100 }, &c),
        Extent2D { width: 50, height: 50 }
    );
}

#[test]
fn fifo_is_chosen_where_mailbox_is_missing() {
    assert_eq!(choose_present_mode(&vec![PresentMode::Fifo]), PresentMode::Fifo);
    assert_eq!(choose_present_mode(&vec![]), PresentMode::Fifo);
    assert_eq!(
        choose_present_mode(&vec![PresentMode::Immediate, PresentMode::Other(1000111000)]),
        PresentMode::Fifo
    );
}

#[test]
fn mailbox_is_chosen_where_it_is_offered() {
    assert_eq!(
        choose_present_mode(&vec![PresentMode::Fifo, PresentMode::Mailbox]),
        PresentMode::Mailbox
    );
    assert_eq!(
        choose_present_mode(&vec![PresentMode::Mailbox, PresentMode::Fifo]),
        PresentMode::Mailbox
    );
}

#[test]
fn single_undefined_format_accepts_the_desired_one() {
    let formats = vec![SurfaceFormat { format: FORMAT_UNDEFINED, color_space: X }];
    let desired = SurfaceFormat { format: B, color_space: Y };
    assert_eq!(get_supported_image_format_and_color_space(&formats, desired), desired);
}

#[test]
fn exact_format_match_is_chosen() {
    let formats = vec![
        SurfaceFormat { format: A, color_space: X },
        SurfaceFormat { format: B, color_space: Y },
    ];
    let desired = SurfaceFormat { format: B, color_space: Y };
    assert_eq!(get_supported_image_format_and_color_space(&formats, desired), desired);
}

#[test]
fn format_match_wins_over_colour_space() {
    let formats = vec![
        SurfaceFormat { format: A, color_space: X },
        SurfaceFormat { format: B, color_space: Y },
    ];
    let desired = SurfaceFormat { format: B, color_space: Z };
    assert_eq!(
        get_supported_image_format_and_color_space(&formats, desired),
        SurfaceFormat { format: B, color_space: Y }
    );
}

#[test]
fn first_listing_of_the_format_gives_the_colour_space() {
    let formats = vec![
        SurfaceFormat { format: A, color_space: X },
        SurfaceFormat { format: B, color_space: X },
        SurfaceFormat { format: B, color_space: Y },
    ];
    let desired = SurfaceFormat { format: B, color_space: Z };
    assert_eq!(
        get_supported_image_format_and_color_space(&formats, desired),
        SurfaceFormat { format: B, color_space: X }
    );
}

#[test]
fn exact_match_later_in_the_list_wins_over_an_earlier_format_match() {
    let formats = vec![
        SurfaceFormat { format: B, color_space: X },
        SurfaceFormat { format: B, color_space: Y },
    ];
    let desired = SurfaceFormat { format: B, color_space: Y };
    assert_eq!(get_supported_image_format_and_color_space(&formats, desired), desired);
}

#[test]
fn first_format_is_chosen_where_nothing_matches() {
    let formats = vec![
        SurfaceFormat { format: A, color_space: X },
        SurfaceFormat { format: A, color_space: Y },
    ];
    let desired = SurfaceFormat { format: B, color_space: Y };
    assert_eq!(
        get_supported_image_format_and_color_space(&formats, desired),
        SurfaceFormat { format: A, color_space: X }
    );
}

#[test]
fn undefined_format_among_others_is_no_wildcard() {
    let formats = vec![
        SurfaceFormat { format: FORMAT_UNDEFINED, color_space: X },
        SurfaceFormat { format: A, color_space: Y },
    ];
    let desired = SurfaceFormat { format: B, color_space: Y };
    assert_eq!(
        get_supported_image_format_and_color_space(&formats, desired),
        SurfaceFormat { format: FORMAT_UNDEFINED, color_space: X }
    );
}

#[test]
fn identity_transform_is_preferred() {
    assert_eq!(choose_transform(&caps()), TRANSFORM_IDENTITY);
    let mut c = caps();
    c.supported_transforms = 0x2 | 0x4;
    c.current_transform = 0x4;
    assert_eq!(choose_transform(&c), 0x4);
}

#[test]
fn image_usage_is_what_the_surface_supports_of_colour_attachment() {
    assert_eq!(choose_image_usage(&caps()), IMAGE_USAGE_COLOR_ATTACHMENT);
    let mut c = caps();
    c.supported_usage_flags = 0x4;
    assert_eq!(choose_image_usage(&c), 0);
}

#[test]
fn swapchain_is_negotiated_as_a_whole() {
    let formats = vec![
        SurfaceFormat { format: A, color_space: X },
        SurfaceFormat { format: B, color_space: Y },
    ];
    let modes = vec![PresentMode::Fifo, PresentMode::Mailbox];
    let swapchain = VkSwapchain::new(
        &caps(),
        &formats,
        &modes,
        SurfaceFormat { format: B, color_space: Z },
        Extent2D { width: 800, height: 600 },
    );
    assert_eq!(
        swapchain,
        Ok(VkSwapchain {
            surface_format: SurfaceFormat { format: B, color_space: Y },
            surface_resolution: Extent2D { width: 800, height: 600 },
            present_mode: PresentMode::Mailbox,
            image_count: 3,
            pre_transform: TRANSFORM_IDENTITY,
            image_usage: IMAGE_USAGE_COLOR_ATTACHMENT,
        })
    );
}

#[test]
fn swapchain_needs_a_surface_format() {
    let result = VkSwapchain::new(
        &caps(),
        &vec![],
        &vec![PresentMode::Fifo],
        SurfaceFormat { format: B, color_space: Y },
        Extent2D { width: 800, height: 600 },
    );
    assert_eq!(result, Err(SwapchainError::NoSurfaceFormat));
}

#[test]
fn swapchain_image_count_must_fit() {
    let mut c = caps();
    c.min_image_count = u32::MAX;
    c.max_image_count = 0;
    let formats = vec![SurfaceFormat { format: A, color_space: X }];
    let result = VkSwapchain::new(
        &c,
        &formats,
        &vec![],
        SurfaceFormat { format: B, color_space: Y },
        Extent2D { width: 1, height: 1 },
    );
    assert_eq!(result, Err(SwapchainError::ImageCountOverflow));
    let none = VkSwapchain::new(
        &c,
        &vec![],
        &vec![],
        SurfaceFormat { format: B, color_space: Y },
        Extent2D { width: 1, height: 1 },
    );
    assert_eq!(none, Err(SwapchainError::NoSurfaceFormat));
}

#[test]
fn recreation_replaces_the_swapchain_as_a_whole() {
    let formats = vec![SurfaceFormat { format: A, color_space: X }];
    let desired = SurfaceFormat { format: A, color_space: X };
    let mut swapchain = VkSwapchain::new(
        &caps(),
        &formats,
        &vec![PresentMode::Fifo],
        desired,
        Extent2D { width: 800, height: 600 },
    )
    .unwrap();
    let result = swapchain.recreate(
        &caps(),
        &formats,
        &vec![PresentMode::Mailbox],
        desired,
        Extent2D { width: 1024, height: 768 },
    );
    assert_eq!(result, Ok(()));
    assert_eq!(swapchain.surface_resolution, Extent2D { width: 1024, height: 768 });
    assert_eq!(swapchain.present_mode, PresentMode::Mailbox);
    assert_eq!(swapchain.image_count, 3);
}

#[test]
fn failed_recreation_leaves_the_swapchain_as_it_was() {
    let formats = vec![SurfaceFormat { format: A, color_space: X }];
    let desired = SurfaceFormat { format: A, color_space: X };
    let mut swapchain = VkSwapchain::new(
        &caps(),
        &formats,
        &vec![PresentMode::Fifo],
        desired,
        Extent2D { width: 800, height: 600 },
    )
    .unwrap();
    let before = swapchain;
    let result = swapchain.recreate(
        &caps(),
        &vec![],
        &vec![PresentMode::Mailbox],
        desired,
        Extent2D { width: 1024, height: 768 },
    );
    assert_eq!(result, Err(SwapchainError::NoSurfaceFormat));
    assert_eq!(swapchain, before);
}
