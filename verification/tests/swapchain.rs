use pelkan::swapchain::choose_present_mode;
use pelkan::swapchain::choose_surface_format;
use pelkan::swapchain::plan_swapchain;
use pelkan::swapchain::resolve_extent;
use pelkan::swapchain::resolve_image_count;
use pelkan::swapchain::resolve_sharing_mode;
use pelkan::swapchain::Extent2D;
use pelkan::swapchain::SharingMode;
use pelkan::swapchain::SurfaceCapabilities;
use pelkan::swapchain::SurfaceFormat;
use pelkan::swapchain::Swapchain;
use pelkan::swapchain::SwapchainRequestInfo;
use pelkan::swapchain::COLOR_SPACE_SRGB_NONLINEAR;
use pelkan::swapchain::EXTENT_MATCH_WINDOW;
use pelkan::swapchain::FORMAT_B8G8R8A8_SRGB;
use pelkan::swapchain::PRESENT_MODE_FIFO;
use pelkan::swapchain::PRESENT_MODE_IMMEDIATE;
use pelkan::swapchain::PRESENT_MODE_MAILBOX;
use pelkan::error::Error;

fn caps(min_count: u32, max_count: u32, current: (u32, u32), lo: (u32, u32), hi: (u32, u32)) -> SurfaceCapabilities {
    SurfaceCapabilities {
        min_image_count: min_count,
        max_image_count: max_count,
        current_extent: Extent2D { width: current.0, height: current.1 },
        min_image_extent: Extent2D { width: lo.0, height: lo.1 },
        max_image_extent: Extent2D { width: hi.0, height: hi.1 },
        current_transform: 1,
    }
}

const BGRA_SRGB: SurfaceFormat =
    SurfaceFormat { format: FORMAT_B8G8R8A8_SRGB, color_space: COLOR_SPACE_SRGB_NONLINEAR };

#[test]
fn image_count_uses_exact_bound_when_min_equals_max() {
    // min 2, max 2: the resolved count is 2, not 3.
    let c = caps(2, 2, (100, 100), (1, 1), (4096, 4096));
    assert_eq!(resolve_image_count(&c), 2);
}

#[test]
fn image_count_is_min_plus_one_otherwise() {
    // min 1, max 8: the resolved count is 2.
    let c = caps(1, 8, (100, 100), (1, 1), (4096, 4096));
    assert_eq!(resolve_image_count(&c), 2);
}

#[test]
fn unadvertised_present_mode_falls_back_to_fifo() {
    let advertised = vec![PRESENT_MODE_FIFO];
    assert_eq!(choose_present_mode(&advertised, Some(PRESENT_MODE_MAILBOX)), PRESENT_MODE_FIFO);
}

#[test]
fn advertised_present_mode_preference_is_kept() {
    let advertised = vec![PRESENT_MODE_FIFO, PRESENT_MODE_IMMEDIATE];
    assert_eq!(
        choose_present_mode(&advertised, Some(PRESENT_MODE_IMMEDIATE)),
        PRESENT_MODE_IMMEDIATE
    );
}

#[test]
fn no_present_mode_preference_means_fifo() {
    let advertised = vec![PRESENT_MODE_IMMEDIATE, PRESENT_MODE_MAILBOX];
    assert_eq!(choose_present_mode(&advertised, None), PRESENT_MODE_FIFO);
}

#[test]
fn unadvertised_format_preference_falls_back_to_default() {
    let advertised = vec![SurfaceFormat { format: 44, color_space: 0 }];
    let preferred = SurfaceFormat { format: 97, color_space: 1 };
    assert_eq!(choose_surface_format(&advertised, Some(preferred)), BGRA_SRGB);
}

#[test]
fn advertised_format_preference_is_kept() {
    let preferred = SurfaceFormat { format: 97, color_space: 1 };
    let advertised = vec![SurfaceFormat { format: 44, color_space: 0 }, preferred];
    assert_eq!(choose_surface_format(&advertised, Some(preferred)), preferred);
}

#[test]
fn extent_is_clamped_per_dimension() {
    let c = caps(1, 4, (EXTENT_MATCH_WINDOW, 0), (200, 100), (800, 600));
    assert_eq!(
        resolve_extent(&c, Extent2D { width: 50, height: 10_000 }),
        Extent2D { width: 200, height: 600 }
    );
    assert_eq!(
        resolve_extent(&c, Extent2D { width: 640, height: 480 }),
        Extent2D { width: 640, height: 480 }
    );
}

#[test]
fn window_matching_extent_overrides_the_request() {
    let c = caps(1, 4, (1280, 720), (1, 1), (800, 600));
    assert_eq!(
        resolve_extent(&c, Extent2D { width: 50, height: 10_000 }),
        Extent2D { width: 1280, height: 720 }
    );
}

#[test]
fn swapchain_image_usage_is_color_attachment_plus_transfer_dst() {
    const USAGE_TRANSFER_DST: u32 = 0x2;
    const USAGE_COLOR_ATTACHMENT: u32 = 0x10;
    assert_eq!(
        pelkan::swapchain::SWAPCHAIN_IMAGE_USAGE,
        USAGE_COLOR_ATTACHMENT | USAGE_TRANSFER_DST
    );
}

#[test]
fn single_family_means_exclusive_sharing() {
    assert_eq!(resolve_sharing_mode(&vec![0]), SharingMode::Exclusive);
}

#[test]
fn two_families_mean_concurrent_sharing_with_deduplicated_list() {
    let plan = plan_swapchain(
        &SwapchainRequestInfo {
            extent: Extent2D { width: 640, height: 480 },
            surface_format: None,
            present_mode: None,
        },
        &Vec::new(),
        &Vec::new(),
        &caps(1, 4, (EXTENT_MATCH_WINDOW, 0), (1, 1), (4096, 4096)),
        &vec![0, 1, 0, 1],
    );
    assert_eq!(plan.sharing_mode, SharingMode::Concurrent);
    let mut fams = plan.queue_family_indices.clone();
    fams.sort();
    assert_eq!(fams, vec![0, 1]);
}

#[test]
fn plan_resolves_every_field() {
    let plan = plan_swapchain(
        &SwapchainRequestInfo {
            extent: Extent2D { width: 5000, height: 5000 },
            surface_format: Some(SurfaceFormat { format: 97, color_space: 1 }),
            present_mode: Some(PRESENT_MODE_MAILBOX),
        },
        &vec![SurfaceFormat { format: 44, color_space: 0 }],
        &vec![PRESENT_MODE_FIFO],
        &caps(2, 2, (EXTENT_MATCH_WINDOW, 0), (16, 16), (2048, 2048)),
        &vec![3],
    );
    assert_eq!(plan.surface_format, BGRA_SRGB);
    assert_eq!(plan.present_mode, PRESENT_MODE_FIFO);
    assert_eq!(plan.extent, Extent2D { width: 2048, height: 2048 });
    assert_eq!(plan.image_count, 2);
    assert_eq!(plan.sharing_mode, SharingMode::Exclusive);
    assert_eq!(plan.queue_family_indices, vec![3]);
}

fn tracked_swapchain() -> Swapchain {
    let plan = plan_swapchain(
        &SwapchainRequestInfo {
            extent: Extent2D { width: 640, height: 480 },
            surface_format: None,
            present_mode: None,
        },
        &Vec::new(),
        &Vec::new(),
        &caps(1, 8, (EXTENT_MATCH_WINDOW, 0), (1, 1), (4096, 4096)),
        &vec![0],
    );
    Swapchain::new(
        plan,
        caps(1, 8, (EXTENT_MATCH_WINDOW, 0), (1, 1), (4096, 4096)),
        71,
        vec![101, 102],
        vec![201, 202],
    )
    .unwrap()
}

#[test]
fn assembling_with_unpaired_views_is_rejected() {
    let plan = plan_swapchain(
        &SwapchainRequestInfo {
            extent: Extent2D { width: 640, height: 480 },
            surface_format: None,
            present_mode: None,
        },
        &Vec::new(),
        &Vec::new(),
        &caps(1, 8, (EXTENT_MATCH_WINDOW, 0), (1, 1), (4096, 4096)),
        &vec![0],
    );
    let r = Swapchain::new(
        plan,
        caps(1, 8, (EXTENT_MATCH_WINDOW, 0), (1, 1), (4096, 4096)),
        71,
        vec![101, 102],
        vec![201],
    );
    assert_eq!(r.unwrap_err(), Error::NoSwapchainImages);
}

#[test]
fn assembling_with_wrong_image_count_is_rejected() {
    let plan = plan_swapchain(
        &SwapchainRequestInfo {
            extent: Extent2D { width: 640, height: 480 },
            surface_format: None,
            present_mode: None,
        },
        &Vec::new(),
        &Vec::new(),
        &caps(1, 8, (EXTENT_MATCH_WINDOW, 0), (1, 1), (4096, 4096)),
        &vec![0],
    );
    assert_eq!(plan.image_count, 2);
    let r = Swapchain::new(
        plan,
        caps(1, 8, (EXTENT_MATCH_WINDOW, 0), (1, 1), (4096, 4096)),
        71,
        vec![101, 102, 103],
        vec![201, 202, 203],
    );
    assert_eq!(r.unwrap_err(), Error::NoSwapchainImages);
}

#[test]
fn recreate_twice_at_same_size_is_idempotent() {
    let mut s = tracked_swapchain();
    let format = s.surface_format;
    let present_mode = s.present_mode;
    let sharing_mode = s.sharing_mode;
    let image_count = s.image_count;

    let fresh = caps(1, 8, (EXTENT_MATCH_WINDOW, 0), (100, 100), (1000, 1000));
    let e1 = s.recreate(&fresh, 50, 2000);
    s.replace_images(72, vec![103, 104], vec![203, 204]).unwrap();
    let e2 = s.recreate(&fresh, 50, 2000);
    s.replace_images(73, vec![105, 106], vec![205, 206]).unwrap();

    assert_eq!(e1, Extent2D { width: 100, height: 1000 });
    assert_eq!(e2, e1);
    assert_eq!(s.extent, e1);
    assert_eq!(s.surface_format, format);
    assert_eq!(s.present_mode, present_mode);
    assert_eq!(s.sharing_mode, sharing_mode);
    assert_eq!(s.image_count, image_count);
    assert_eq!(s.handle, 73);
}

#[test]
fn recreate_picks_up_changed_bounds() {
    let mut s = tracked_swapchain();
    let narrow = caps(1, 8, (EXTENT_MATCH_WINDOW, 0), (1, 1), (640, 640));
    let e = s.recreate(&narrow, 1920, 1080);
    assert_eq!(e, Extent2D { width: 640, height: 640 });
    assert_eq!(s.capabilities, narrow);
}

#[test]
fn replacing_with_unpaired_views_is_rejected_and_state_kept() {
    let mut s = tracked_swapchain();
    let r = s.replace_images(99, vec![1, 2, 3], vec![4]);
    assert_eq!(r.unwrap_err(), Error::NoSwapchainImages);
    assert_eq!(s.handle, 71);
    assert_eq!(s.images, vec![101, 102]);
    assert_eq!(s.image_views, vec![201, 202]);
}
