use cen::image::Image;
use cen::memory::TeardownStep;
use cen::swapchain::preferred_format;
use cen::swapchain::present_mode_for;
use cen::swapchain::select_extent;
use cen::swapchain::select_image_count;
use cen::swapchain::select_pre_transform;
use cen::swapchain::select_present_mode;
use cen::swapchain::select_surface_format;
use cen::swapchain::AcquireOutcome;
use cen::swapchain::PresentOutcome;
use cen::swapchain::SurfaceCapabilities;
use cen::swapchain::Swapchain;
use cen::swapchain::SwapchainState;
use cen::vk::Extent2D;
use cen::vk::Platform;
use cen::vk::SurfaceFormat;
use cen::vk::COLOR_SPACE_SRGB_NONLINEAR;
use cen::vk::COMPOSITE_ALPHA_OPAQUE;
use cen::vk::FORMAT_B8G8R8A8_SRGB;
use cen::vk::FORMAT_R8G8B8A8_SRGB;
use cen::vk::FORMAT_R8G8B8A8_UNORM;
use cen::vk::PRESENT_MODE_FIFO;
use cen::vk::PRESENT_MODE_IMMEDIATE;
use cen::vk::RESULT_ERROR_OUT_OF_DATE;
use cen::vk::RESULT_SUBOPTIMAL;
use cen::vk::RESULT_SUCCESS;
use cen::vk::SHARING_MODE_EXCLUSIVE;
use cen::vk::SURFACE_TRANSFORM_IDENTITY;

fn format(format: i32) -> SurfaceFormat {
    SurfaceFormat { format, color_space: COLOR_SPACE_SRGB_NONLINEAR }
}

fn capabilities() -> SurfaceCapabilities {
    SurfaceCapabilities {
        min_image_count: 2,
        max_image_count: 3,
        current_extent: Extent2D { width: 800, height: 600 },
        supported_transforms: SURFACE_TRANSFORM_IDENTITY | 0x2,
        current_transform: 0x2,
    }
}

fn images(count: usize) -> Vec<Image> {
    (0..count)
        .map(|i| {
            Image::from_raw(i, 100 + i as u64, 200 + i as u64, 300 + i as u64, Extent2D { width: 800, height: 600 })
        })
        .collect()
}

#[test]
fn preferred_format_is_offered_and_chosen() {
    let available = vec![format(FORMAT_R8G8B8A8_UNORM), format(FORMAT_R8G8B8A8_SRGB)];
    assert_eq!(select_surface_format(Platform::Linux, &available), format(FORMAT_R8G8B8A8_SRGB));
    assert_eq!(select_surface_format(Platform::Windows, &available), format(FORMAT_R8G8B8A8_SRGB));
}

#[test]
fn macos_prefers_bgra() {
    assert_eq!(preferred_format(Platform::MacOs), format(FORMAT_B8G8R8A8_SRGB));
    let available = vec![format(FORMAT_R8G8B8A8_SRGB), format(FORMAT_B8G8R8A8_SRGB)];
    assert_eq!(select_surface_format(Platform::MacOs, &available), format(FORMAT_B8G8R8A8_SRGB));
}

#[test]
fn missing_preferred_format_falls_back_to_the_first() {
    let x = format(FORMAT_R8G8B8A8_UNORM);
    let y = format(FORMAT_B8G8R8A8_SRGB);
    let available = vec![x, y];
    assert_eq!(select_surface_format(Platform::Linux, &available), x);
}

#[test]
fn format_selection_is_repeatable() {
    let available = vec![format(FORMAT_R8G8B8A8_UNORM), format(FORMAT_B8G8R8A8_SRGB)];
    let first = select_surface_format(Platform::Linux, &available);
    for _ in 0..5 {
        assert_eq!(select_surface_format(Platform::Linux, &available), first);
    }
}

#[test]
fn same_format_in_another_color_space_is_not_the_preferred_one() {
    let other_space = SurfaceFormat { format: FORMAT_R8G8B8A8_SRGB, color_space: 7 };
    let available = vec![format(FORMAT_R8G8B8A8_UNORM), other_space];
    assert_eq!(select_surface_format(Platform::Linux, &available), format(FORMAT_R8G8B8A8_UNORM));
}

#[test]
fn vsync_asks_for_fifo() {
    assert_eq!(present_mode_for(true), PRESENT_MODE_FIFO);
    assert_eq!(present_mode_for(false), PRESENT_MODE_IMMEDIATE);
}

#[test]
fn requested_present_mode_is_used_where_supported() {
    assert_eq!(select_present_mode(&vec![PRESENT_MODE_FIFO, PRESENT_MODE_IMMEDIATE], PRESENT_MODE_IMMEDIATE), PRESENT_MODE_IMMEDIATE);
}

#[test]
fn unsupported_present_mode_falls_back_to_fifo() {
    assert_eq!(select_present_mode(&vec![PRESENT_MODE_FIFO, 1], PRESENT_MODE_IMMEDIATE), PRESENT_MODE_FIFO);
    assert_eq!(select_present_mode(&vec![], PRESENT_MODE_IMMEDIATE), PRESENT_MODE_FIFO);
}

#[test]
fn image_count_is_the_minimum_capped_by_the_maximum() {
    let mut caps = capabilities();
    assert_eq!(select_image_count(&caps), 2);
    caps.min_image_count = 5;
    assert_eq!(select_image_count(&caps), 3);
    caps.max_image_count = 0;
    assert_eq!(select_image_count(&caps), 5);
}

#[test]
fn identity_transform_is_preferred() {
    let mut caps = capabilities();
    assert_eq!(select_pre_transform(&caps), SURFACE_TRANSFORM_IDENTITY);
    caps.supported_transforms = 0x2 | 0x4;
    caps.current_transform = 0x4;
    assert_eq!(select_pre_transform(&caps), 0x4);
}

#[test]
fn extent_comes_from_the_window_where_the_surface_leaves_it_open() {
    let mut caps = capabilities();
    let window = Extent2D { width: 1024, height: 768 };
    assert_eq!(select_extent(&caps, window), Extent2D { width: 800, height: 600 });
    caps.current_extent = Extent2D { width: u32::MAX, height: u32::MAX };
    assert_eq!(select_extent(&caps, window), window);
}

#[test]
fn create_info_collects_every_choice() {
    let formats = vec![format(FORMAT_R8G8B8A8_UNORM), format(FORMAT_R8G8B8A8_SRGB)];
    let info = Swapchain::create_info(
        Platform::Linux,
        77,
        Extent2D { width: 1024, height: 768 },
        &formats,
        &capabilities(),
        &vec![PRESENT_MODE_FIFO],
        PRESENT_MODE_IMMEDIATE,
        Some(55),
    );
    assert_eq!(info.surface, 77);
    assert_eq!(info.min_image_count, 2);
    assert_eq!(info.image_format, FORMAT_R8G8B8A8_SRGB);
    assert_eq!(info.image_color_space, COLOR_SPACE_SRGB_NONLINEAR);
    assert_eq!(info.image_extent, Extent2D { width: 800, height: 600 });
    assert_eq!(info.image_array_layers, 1);
    assert_eq!(info.image_usage, 0x12);
    assert_eq!(info.image_sharing_mode, SHARING_MODE_EXCLUSIVE);
    assert_eq!(info.pre_transform, SURFACE_TRANSFORM_IDENTITY);
    assert_eq!(info.composite_alpha, COMPOSITE_ALPHA_OPAQUE);
    assert_eq!(info.present_mode, PRESENT_MODE_FIFO);
    assert!(info.clipped);
    assert_eq!(info.old_swapchain, 55);
}

#[test]
fn first_swapchain_has_no_predecessor() {
    let info = Swapchain::create_info(
        Platform::Linux,
        1,
        Extent2D { width: 1, height: 1 },
        &vec![format(FORMAT_R8G8B8A8_SRGB)],
        &capabilities(),
        &vec![],
        PRESENT_MODE_FIFO,
        None,
    );
    assert_eq!(info.old_swapchain, 0);
}

fn swapchain(count: usize) -> Swapchain {
    let info = Swapchain::create_info(
        Platform::Linux,
        1,
        Extent2D { width: 1, height: 1 },
        &vec![format(FORMAT_R8G8B8A8_SRGB)],
        &capabilities(),
        &vec![],
        PRESENT_MODE_FIFO,
        None,
    );
    Swapchain::new(&info, 9, images(count))
}

#[test]
fn new_swapchain_is_created_with_its_images() {
    let chain = swapchain(3);
    assert_eq!(chain.state(), SwapchainState::Created);
    assert_eq!(chain.handle(), 9);
    assert_eq!(chain.get_image_count(), 3);
    assert_eq!(chain.get_images().len(), 3);
    assert_eq!(chain.get_image_views(), vec![200, 201, 202]);
    assert_eq!(chain.get_extent(), Extent2D { width: 800, height: 600 });
    assert_eq!(chain.get_format(), format(FORMAT_R8G8B8A8_SRGB));
}

#[test]
fn acquire_request_waits_without_limit() {
    let chain = swapchain(2);
    let request = chain.acquire_next_image(42);
    assert_eq!(request.swapchain, 9);
    assert_eq!(request.timeout, u64::MAX);
    assert_eq!(request.semaphore, 42);
    assert_eq!(request.fence, 0);
}

#[test]
fn acquired_image_starts_the_cycle() {
    let mut chain = swapchain(2);
    assert_eq!(chain.image_acquired(RESULT_SUCCESS, 1), AcquireOutcome::Image(1));
    assert_eq!(chain.state(), SwapchainState::Presenting);
    assert_eq!(chain.image_acquired(RESULT_SUBOPTIMAL, 0), AcquireOutcome::Image(0));
    assert_eq!(chain.state(), SwapchainState::Presenting);
}

#[test]
fn out_of_date_acquire_invalidates_and_is_not_fatal() {
    let mut chain = swapchain(2);
    assert_eq!(chain.image_acquired(RESULT_ERROR_OUT_OF_DATE, 0), AcquireOutcome::OutOfDate);
    assert_eq!(chain.state(), SwapchainState::Invalidated);
    assert_eq!(chain.image_acquired(RESULT_SUCCESS, 0), AcquireOutcome::OutOfDate);
    assert_eq!(chain.state(), SwapchainState::Invalidated);
}

#[test]
fn other_acquire_errors_are_fatal() {
    let mut chain = swapchain(2);
    assert_eq!(chain.image_acquired(-4, 0), AcquireOutcome::Fatal(-4));
    assert_eq!(chain.state(), SwapchainState::Created);
    assert_eq!(chain.image_acquired(RESULT_SUCCESS, 2), AcquireOutcome::Fatal(RESULT_SUCCESS));
    assert_eq!(chain.image_acquired(2, 0), AcquireOutcome::Fatal(2));
}

#[test]
fn present_request_names_image_and_semaphore() {
    let chain = swapchain(2);
    let info = chain.queue_present(5, 1);
    assert_eq!(info.swapchain, 9);
    assert_eq!(info.wait_semaphore, 5);
    assert_eq!(info.image_index, 1);
}

#[test]
fn present_results_are_classified() {
    let mut chain = swapchain(2);
    assert_eq!(chain.image_acquired(RESULT_SUCCESS, 0), AcquireOutcome::Image(0));
    assert_eq!(chain.presented(RESULT_SUCCESS), PresentOutcome::Presented);
    assert_eq!(chain.state(), SwapchainState::Presenting);
    assert_eq!(chain.presented(RESULT_SUBOPTIMAL), PresentOutcome::Presented);
    assert_eq!(chain.presented(-3), PresentOutcome::Fatal(-3));
    assert_eq!(chain.state(), SwapchainState::Presenting);
    assert_eq!(chain.presented(RESULT_ERROR_OUT_OF_DATE), PresentOutcome::OutOfDate);
    assert_eq!(chain.state(), SwapchainState::Invalidated);
}

#[test]
fn resize_invalidates() {
    let mut chain = swapchain(2);
    chain.invalidate();
    assert_eq!(chain.state(), SwapchainState::Invalidated);
    assert_eq!(chain.handle(), 9);
    assert_eq!(chain.get_image_count(), 2);
}

#[test]
fn swapchain_teardown_never_destroys_the_presentable_images() {
    let chain = swapchain(2);
    let steps = chain.teardown();
    assert_eq!(
        steps,
        vec![
            TeardownStep::DestroySwapchain(9),
            TeardownStep::DestroySampler(300),
            TeardownStep::DestroyImageView(200),
            TeardownStep::DestroySampler(301),
            TeardownStep::DestroyImageView(201),
        ]
    );
    assert!(!steps.iter().any(|step| matches!(step, TeardownStep::DestroyImage(_))));
}
