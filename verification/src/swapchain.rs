//! The presentable images: how their format, count, extent and mode are
//! chosen, and what an acquire or present result means for the frame loop.

use vstd::prelude::*;
use crate::image::Image;
use crate::memory::GpuHandle;
use crate::memory::TeardownStep;
use crate::vk::Extent2D;
use crate::vk::Platform;
use crate::vk::SurfaceFormat;
use crate::vk::flags_contain;
use crate::vk::transform_flags_contain;
use crate::vk::COLOR_SPACE_SRGB_NONLINEAR;
use crate::vk::COMPOSITE_ALPHA_OPAQUE;
use crate::vk::FORMAT_B8G8R8A8_SRGB;
use crate::vk::FORMAT_R8G8B8A8_SRGB;
use crate::vk::IMAGE_USAGE_COLOR_ATTACHMENT;
use crate::vk::IMAGE_USAGE_TRANSFER_DST;
use crate::vk::PRESENT_MODE_FIFO;
use crate::vk::PRESENT_MODE_IMMEDIATE;
use crate::vk::RESULT_ERROR_OUT_OF_DATE;
use crate::vk::RESULT_SUBOPTIMAL;
use crate::vk::RESULT_SUCCESS;
use crate::vk::SHARING_MODE_EXCLUSIVE;
use crate::vk::SURFACE_TRANSFORM_IDENTITY;

verus! {

/// What the surface reports about the images it can present.
#[derive(Clone, Copy, PartialEq, Eq, Structural, Debug)]
pub struct SurfaceCapabilities {
    pub min_image_count: u32,
    /// Zero means that the surface sets no upper limit.
    pub max_image_count: u32,
    /// A width of `u32::MAX` means that the window decides the extent.
    pub current_extent: Extent2D,
    pub supported_transforms: u32,
    pub current_transform: u32,
}

/// Everything the driver is told when the presentable images are created.
#[derive(Clone, Copy, PartialEq, Eq, Structural, Debug)]
pub struct SwapchainCreateInfo {
    pub surface: u64,
    pub min_image_count: u32,
    pub image_format: i32,
    pub image_color_space: i32,
    pub image_extent: Extent2D,
    pub image_array_layers: u32,
    pub image_usage: u32,
    pub image_sharing_mode: i32,
    pub pre_transform: u32,
    pub composite_alpha: u32,
    pub present_mode: i32,
    pub clipped: bool,
    /// The instance being replaced, as a hint to the driver; zero when there is none.
    pub old_swapchain: u64,
}

/// The present mode asked for: first-in-first-out with vertical sync, immediate without.
pub open spec fn requested_present_mode(vsync: bool) -> i32 {
    if vsync {
        PRESENT_MODE_FIFO
    } else {
        PRESENT_MODE_IMMEDIATE
    }
}

/// The colour format each platform presents best.
pub open spec fn preferred_surface_format(platform: Platform) -> SurfaceFormat {
    match platform {
        Platform::MacOs => SurfaceFormat {
            format: FORMAT_B8G8R8A8_SRGB,
            color_space: COLOR_SPACE_SRGB_NONLINEAR,
        },
        _ => SurfaceFormat { format: FORMAT_R8G8B8A8_SRGB, color_space: COLOR_SPACE_SRGB_NONLINEAR },
    }
}

/// The platform's preferred format where the surface offers it, else the
/// first format the surface offers.
pub open spec fn selected_surface_format(
    platform: Platform,
    available: Seq<SurfaceFormat>,
) -> SurfaceFormat {
    if available.contains(preferred_surface_format(platform)) {
        preferred_surface_format(platform)
    } else {
        available[0]
    }
}

/// The requested mode where the surface supports it, else first-in-first-out,
/// which every surface supports.
pub open spec fn selected_present_mode(available: Seq<i32>, preferred: i32) -> i32 {
    if available.contains(preferred) {
        preferred
    } else {
        PRESENT_MODE_FIFO
    }
}

/// The surface's minimum image count, capped by its maximum where it has one.
pub open spec fn selected_image_count(capabilities: SurfaceCapabilities) -> u32 {
    if capabilities.max_image_count > 0 && capabilities.min_image_count
        > capabilities.max_image_count {
        capabilities.max_image_count
    } else {
        capabilities.min_image_count
    }
}

/// No transform where the surface supports that, else whatever it applies now.
pub open spec fn selected_pre_transform(capabilities: SurfaceCapabilities) -> u32 {
    if flags_contain(capabilities.supported_transforms, SURFACE_TRANSFORM_IDENTITY) {
        SURFACE_TRANSFORM_IDENTITY
    } else {
        capabilities.current_transform
    }
}

/// The surface's extent, or the window's where the surface leaves it open.
pub open spec fn selected_extent(capabilities: SurfaceCapabilities, window: Extent2D) -> Extent2D {
    if capabilities.current_extent.width == u32::MAX {
        window
    } else {
        capabilities.current_extent
    }
}

/// The complete creation request for the given surface state.
pub open spec fn planned_create_info(
    platform: Platform,
    surface: u64,
    window: Extent2D,
    formats: Seq<SurfaceFormat>,
    capabilities: SurfaceCapabilities,
    present_modes: Seq<i32>,
    preferred_present_mode: i32,
    old_swapchain: Option<u64>,
) -> SwapchainCreateInfo {
    SwapchainCreateInfo {
        surface,
        min_image_count: selected_image_count(capabilities),
        image_format: selected_surface_format(platform, formats).format,
        image_color_space: selected_surface_format(platform, formats).color_space,
        image_extent: selected_extent(capabilities, window),
        image_array_layers: 1,
        image_usage: IMAGE_USAGE_COLOR_ATTACHMENT | IMAGE_USAGE_TRANSFER_DST,
        image_sharing_mode: SHARING_MODE_EXCLUSIVE,
        pre_transform: selected_pre_transform(capabilities),
        composite_alpha: COMPOSITE_ALPHA_OPAQUE,
        present_mode: selected_present_mode(present_modes, preferred_present_mode),
        clipped: true,
        old_swapchain: match old_swapchain {
            Some(handle) => handle,
            None => 0,
        },
    }
}

/// Maps the vertical-sync setting to the present mode to ask for.
pub fn present_mode_for(vsync: bool) -> (mode: i32)
    ensures
        mode == requested_present_mode(vsync),
{
    if vsync {
        PRESENT_MODE_FIFO
    } else {
        PRESENT_MODE_IMMEDIATE
    }
}

/// Gives the colour format a platform presents best.
pub fn preferred_format(platform: Platform) -> (format: SurfaceFormat)
    ensures
        format == preferred_surface_format(platform),
{
    match platform {
        Platform::MacOs => SurfaceFormat {
            format: FORMAT_B8G8R8A8_SRGB,
            color_space: COLOR_SPACE_SRGB_NONLINEAR,
        },
        _ => SurfaceFormat { format: FORMAT_R8G8B8A8_SRGB, color_space: COLOR_SPACE_SRGB_NONLINEAR },
    }
}

/// Chooses the surface format: the platform's preferred one where the
/// surface lists it, else the first one listed.
pub fn select_surface_format(platform: Platform, available: &Vec<SurfaceFormat>) -> (chosen:
    SurfaceFormat)
    requires
        available.len() > 0,
    ensures
        chosen == selected_surface_format(platform, available@),
{
    let preferred = preferred_format(platform);
    let mut i: usize = 0;
    while i < available.len()
        invariant
            i <= available.len(),
            preferred == preferred_surface_format(platform),
            forall|j: int| 0 <= j < i ==> available@[j] != preferred,
        decreases available.len() - i,
    {
        if available[i] == preferred {
            return preferred;
        }
        i += 1;
    }
    available[0]
}

/// Chooses the present mode: the requested one where the surface lists it,
/// else first-in-first-out.
pub fn select_present_mode(available: &Vec<i32>, preferred: i32) -> (chosen: i32)
    ensures
        chosen == selected_present_mode(available@, preferred),
{
    let mut i: usize = 0;
    while i < available.len()
        invariant
            i <= available.len(),
            forall|j: int| 0 <= j < i ==> available@[j] != preferred,
        decreases available.len() - i,
    {
        if available[i] == preferred {
            return preferred;
        }
        i += 1;
    }
    PRESENT_MODE_FIFO
}

/// Chooses how many images to ask for.
pub fn select_image_count(capabilities: &SurfaceCapabilities) -> (count: u32)
    ensures
        count == selected_image_count(*capabilities),
{
    if capabilities.max_image_count > 0 && capabilities.min_image_count
        > capabilities.max_image_count {
        capabilities.max_image_count
    } else {
        capabilities.min_image_count
    }
}

/// Chooses the transform applied before presentation.
pub fn select_pre_transform(capabilities: &SurfaceCapabilities) -> (transform: u32)
    ensures
        transform == selected_pre_transform(*capabilities),
{
    if transform_flags_contain(capabilities.supported_transforms, SURFACE_TRANSFORM_IDENTITY) {
        SURFACE_TRANSFORM_IDENTITY
    } else {
        capabilities.current_transform
    }
}

/// Chooses the extent of the images.
pub fn select_extent(capabilities: &SurfaceCapabilities, window: Extent2D) -> (extent: Extent2D)
    ensures
        extent == selected_extent(*capabilities, window),
{
    if capabilities.current_extent.width == u32::MAX {
        window
    } else {
        capabilities.current_extent
    }
}

/// Where a set of presentable images stands.
#[derive(Clone, Copy, PartialEq, Eq, Structural, Debug)]
pub enum SwapchainState {
    /// Built, and not yet used.
    Created,
    /// In the cycle of acquire and present.
    Presenting,
    /// The surface changed; the images must be rebuilt before the next frame.
    Invalidated,
}

/// What the driver is asked when the next image is acquired: to wait without
/// a time limit, and to signal the semaphore and no fence.
#[derive(Clone, Copy, PartialEq, Eq, Structural, Debug)]
pub struct AcquireRequest {
    pub swapchain: u64,
    pub timeout: u64,
    pub semaphore: u64,
    pub fence: u64,
}

/// What an acquire came to.
#[derive(Clone, Copy, PartialEq, Eq, Structural, Debug)]
pub enum AcquireOutcome {
    /// The image with this index may be written once the semaphore signals.
    Image(usize),
    /// The surface changed; rebuild the images and try again.
    OutOfDate,
    /// The driver failed with this code; there is no way on.
    Fatal(i32),
}

/// What the driver is asked when an image is queued for display.
#[derive(Clone, Copy, PartialEq, Eq, Structural, Debug)]
pub struct PresentInfo {
    pub swapchain: u64,
    pub wait_semaphore: u64,
    pub image_index: u32,
}

/// What a present came to.
#[derive(Clone, Copy, PartialEq, Eq, Structural, Debug)]
pub enum PresentOutcome {
    Presented,
    /// The surface changed; rebuild the images before the next frame.
    OutOfDate,
    /// The driver failed with this code; there is no way on.
    Fatal(i32),
}

/// The presentable images as a mathematical value.
pub struct SwapchainView {
    pub handle: u64,
    pub images: Seq<Image>,
    pub extent: Extent2D,
    pub format: SurfaceFormat,
    pub state: SwapchainState,
}

/// Whether the driver's code says that an image was acquired or presented.
pub open spec fn is_success(code: i32) -> bool {
    code == RESULT_SUCCESS || code == RESULT_SUBOPTIMAL
}

impl SwapchainView {
    /// What an acquire that the driver answered with `code` and `image_index` comes to.
    pub open spec fn acquire_outcome(self, code: i32, image_index: u32) -> AcquireOutcome {
        if self.state == SwapchainState::Invalidated || code == RESULT_ERROR_OUT_OF_DATE {
            AcquireOutcome::OutOfDate
        } else if is_success(code) && image_index < self.images.len() {
            AcquireOutcome::Image(image_index as usize)
        } else {
            AcquireOutcome::Fatal(code)
        }
    }

    /// What a present that the driver answered with `code` comes to.
    pub open spec fn present_outcome(self, code: i32) -> PresentOutcome {
        if code == RESULT_ERROR_OUT_OF_DATE {
            PresentOutcome::OutOfDate
        } else if is_success(code) {
            PresentOutcome::Presented
        } else {
            PresentOutcome::Fatal(code)
        }
    }

    /// The state after an acquire: in the cycle once an image was handed
    /// out, invalid once the surface was found changed, else as before.
    pub open spec fn state_after_acquire(self, code: i32, image_index: u32) -> SwapchainState {
        match self.acquire_outcome(code, image_index) {
            AcquireOutcome::Image(_) => SwapchainState::Presenting,
            AcquireOutcome::OutOfDate => SwapchainState::Invalidated,
            AcquireOutcome::Fatal(_) => self.state,
        }
    }

    /// The state after a present: invalid once the surface was found
    /// changed, else as before.
    pub open spec fn state_after_present(self, code: i32) -> SwapchainState {
        match self.present_outcome(code) {
            PresentOutcome::OutOfDate => SwapchainState::Invalidated,
            _ => self.state,
        }
    }

    /// What goes when the images go: the swapchain first, then what was
    /// made around each image. The images themselves are the driver's.
    pub open spec fn teardown_plan(self) -> Seq<TeardownStep> {
        seq![TeardownStep::DestroySwapchain(self.handle)] + images_teardown(self.images)
    }
}

/// The teardown of each image in turn.
pub open spec fn images_teardown(images: Seq<Image>) -> Seq<TeardownStep>
    decreases images.len(),
{
    if images.len() == 0 {
        Seq::empty()
    } else {
        images_teardown(images.drop_last()) + images.last().teardown_steps()
    }
}

/// The presentable images and what is known of them.
#[derive(Debug)]
pub struct Swapchain {
    handle: u64,
    images: Vec<Image>,
    extent: Extent2D,
    format: SurfaceFormat,
    state: SwapchainState,
}

impl View for Swapchain {
    type V = SwapchainView;

    closed spec fn view(&self) -> SwapchainView {
        SwapchainView {
            handle: self.handle,
            images: self.images@,
            extent: self.extent,
            format: self.format,
            state: self.state,
        }
    }
}

impl Swapchain {
    /// Plans the creation of the presentable images for a surface.
    ///
    /// The surface must offer at least one format. `old_swapchain` is the
    /// instance being replaced, if any; the driver uses it for a smooth
    /// change-over.
    pub fn create_info(
        platform: Platform,
        surface: u64,
        window: Extent2D,
        formats: &Vec<SurfaceFormat>,
        capabilities: &SurfaceCapabilities,
        present_modes: &Vec<i32>,
        preferred_present_mode: i32,
        old_swapchain: Option<u64>,
    ) -> (info: SwapchainCreateInfo)
        requires
            formats@.len() > 0,
        ensures
            info == planned_create_info(
                platform,
                surface,
                window,
                formats@,
                *capabilities,
                present_modes@,
                preferred_present_mode,
                old_swapchain,
            ),
    {
        let format = select_surface_format(platform, formats);
        SwapchainCreateInfo {
            surface,
            min_image_count: select_image_count(capabilities),
            image_format: format.format,
            image_color_space: format.color_space,
            image_extent: select_extent(capabilities, window),
            image_array_layers: 1,
            image_usage: IMAGE_USAGE_COLOR_ATTACHMENT | IMAGE_USAGE_TRANSFER_DST,
            image_sharing_mode: SHARING_MODE_EXCLUSIVE,
            pre_transform: select_pre_transform(capabilities),
            composite_alpha: COMPOSITE_ALPHA_OPAQUE,
            present_mode: select_present_mode(present_modes, preferred_present_mode),
            clipped: true,
            old_swapchain: match old_swapchain {
                Some(handle) => handle,
                None => 0,
            },
        }
    }

    /// The presentable images that were created as `info` says.
    pub fn new(info: &SwapchainCreateInfo, handle: u64, images: Vec<Image>) -> (made: Self)
        ensures
            made@ == (SwapchainView {
                handle,
                images: images@,
                extent: info.image_extent,
                format: SurfaceFormat {
                    format: info.image_format,
                    color_space: info.image_color_space,
                },
                state: SwapchainState::Created,
            }),
    {
        Swapchain {
            handle,
            images,
            extent: info.image_extent,
            format: SurfaceFormat {
                format: info.image_format,
                color_space: info.image_color_space,
            },
            state: SwapchainState::Created,
        }
    }

    /// The images, in the driver's order.
    pub fn get_images(&self) -> (images: &Vec<Image>)
        ensures
            images@ == self@.images,
    {
        &self.images
    }

    /// The view of each image, in the driver's order.
    pub fn get_image_views(&self) -> (views: Vec<u64>)
        ensures
            views@ == self@.images.map_values(|image: Image| image.image_view),
    {
        let mut views: Vec<u64> = Vec::new();
        let mut i: usize = 0;
        while i < self.images.len()
            invariant
                i <= self.images@.len(),
                views@ == self.images@.subrange(0, i as int).map_values(
                    |image: Image| image.image_view,
                ),
            decreases self.images@.len() - i,
        {
            views.push(self.images[i].image_view);
            proof {
                let done = self.images@.subrange(0, i as int);
                let next = self.images@.subrange(0, i + 1);
                assert(next =~= done.push(self.images@[i as int]));
                assert(views@ =~= next.map_values(|image: Image| image.image_view));
            }
            i += 1;
        }
        proof {
            assert(self.images@.subrange(0, self.images@.len() as int) =~= self.images@);
        }
        views
    }

    /// The number of images.
    pub fn get_image_count(&self) -> (count: usize)
        ensures
            count == self@.images.len(),
    {
        self.images.len()
    }

    /// The extent of the images.
    pub fn get_extent(&self) -> (extent: Extent2D)
        ensures
            extent == self@.extent,
    {
        self.extent
    }

    /// The format of the images.
    pub fn get_format(&self) -> (format: SurfaceFormat)
        ensures
            format == self@.format,
    {
        self.format
    }

    /// The native swapchain.
    pub fn handle(&self) -> (raw: u64)
        ensures
            raw == self@.handle,
    {
        self.handle
    }

    /// Where the images stand.
    pub fn state(&self) -> (state: SwapchainState)
        ensures
            state == self@.state,
    {
        self.state
    }

    /// Notes that the surface changed size or scale: the images must be rebuilt.
    pub fn invalidate(&mut self)
        ensures
            final(self)@ == (SwapchainView { state: SwapchainState::Invalidated, ..old(self)@ }),
    {
        self.state = SwapchainState::Invalidated;
    }

    /// Describes the acquire of the next image, which is to signal
    /// `signal_semaphore` when the image may be written.
    pub fn acquire_next_image(&self, signal_semaphore: u64) -> (request: AcquireRequest)
        ensures
            request == (AcquireRequest {
                swapchain: self@.handle,
                timeout: u64::MAX,
                semaphore: signal_semaphore,
                fence: 0,
            }),
    {
        AcquireRequest {
            swapchain: self.handle,
            timeout: u64::MAX,
            semaphore: signal_semaphore,
            fence: 0,
        }
    }

    /// Reads the driver's answer to an acquire.
    ///
    /// A changed surface is no failure: it invalidates the images, which are
    /// then to be rebuilt. Any other error code is fatal, and so is an image
    /// index that names no image.
    pub fn image_acquired(&mut self, code: i32, image_index: u32) -> (outcome: AcquireOutcome)
        ensures
            outcome == old(self)@.acquire_outcome(code, image_index),
            final(self)@ == (SwapchainView {
                state: old(self)@.state_after_acquire(code, image_index),
                ..old(self)@
            }),
    {
        match self.state {
            SwapchainState::Invalidated => {
                return AcquireOutcome::OutOfDate;
            },
            _ => {},
        }
        if code == RESULT_ERROR_OUT_OF_DATE {
            self.state = SwapchainState::Invalidated;
            AcquireOutcome::OutOfDate
        } else if (code == RESULT_SUCCESS || code == RESULT_SUBOPTIMAL) && (image_index as usize)
            < self.images.len() {
            self.state = SwapchainState::Presenting;
            AcquireOutcome::Image(image_index as usize)
        } else {
            AcquireOutcome::Fatal(code)
        }
    }

    /// Describes the present of an image, which is to wait for `wait_semaphore`.
    pub fn queue_present(&self, wait_semaphore: u64, image_index: u32) -> (info: PresentInfo)
        ensures
            info == (PresentInfo { swapchain: self@.handle, wait_semaphore, image_index }),
    {
        PresentInfo { swapchain: self.handle, wait_semaphore, image_index }
    }

    /// Reads the driver's answer to a present. A changed surface
    /// invalidates the images; any other error code is fatal.
    pub fn presented(&mut self, code: i32) -> (outcome: PresentOutcome)
        ensures
            outcome == old(self)@.present_outcome(code),
            final(self)@ == (SwapchainView {
                state: old(self)@.state_after_present(code),
                ..old(self)@
            }),
    {
        if code == RESULT_ERROR_OUT_OF_DATE {
            self.state = SwapchainState::Invalidated;
            PresentOutcome::OutOfDate
        } else if code == RESULT_SUCCESS || code == RESULT_SUBOPTIMAL {
            PresentOutcome::Presented
        } else {
            PresentOutcome::Fatal(code)
        }
    }

    /// Ends the life of the images and lists what to release, in order.
    pub fn teardown(self) -> (steps: Vec<TeardownStep>)
        ensures
            steps@ == self@.teardown_plan(),
    {
        let mut steps: Vec<TeardownStep> = Vec::new();
        steps.push(TeardownStep::DestroySwapchain(self.handle));
        let mut i: usize = 0;
        proof {
            assert(self.images@.subrange(0, 0) =~= Seq::<Image>::empty());
        }
        while i < self.images.len()
            invariant
                i <= self.images@.len(),
                steps@ == seq![TeardownStep::DestroySwapchain(self.handle)] + images_teardown(
                    self.images@.subrange(0, i as int),
                ),
            decreases self.images@.len() - i,
        {
            let ghost before = steps@;
            let mut part = self.images[i].teardown();
            steps.append(&mut part);
            proof {
                let done = self.images@.subrange(0, i as int);
                let next = self.images@.subrange(0, i + 1);
                assert(next.drop_last() =~= done);
                assert(next.last() == self.images@[i as int]);
                assert(steps@ =~= seq![TeardownStep::DestroySwapchain(self.handle)]
                    + images_teardown(next));
            }
            i += 1;
        }
        proof {
            assert(self.images@.subrange(0, self.images@.len() as int) =~= self.images@);
        }
        steps
    }
}

/// Format fallback: where the surface does not offer the platform's
/// preferred format, the first format it offers is chosen.
pub proof fn lemma_format_falls_back_to_first(platform: Platform, available: Seq<SurfaceFormat>)
    requires
        available.len() > 0,
        !available.contains(preferred_surface_format(platform)),
    ensures
        selected_surface_format(platform, available) == available[0],
{
}

/// The chosen format is always one the surface offers.
pub proof fn lemma_selected_format_is_offered(platform: Platform, available: Seq<SurfaceFormat>)
    requires
        available.len() > 0,
    ensures
        available.contains(selected_surface_format(platform, available)),
{
    if !available.contains(preferred_surface_format(platform)) {
        assert(available[0] == selected_surface_format(platform, available));
    }
}

/// Invalid images stay invalid until they are rebuilt: no answer of the
/// driver brings them back into the cycle.
pub proof fn lemma_invalidated_stays(images: SwapchainView, code: i32, image_index: u32)
    requires
        images.state == SwapchainState::Invalidated,
    ensures
        images.state_after_acquire(code, image_index) == SwapchainState::Invalidated,
        images.state_after_present(code) == SwapchainState::Invalidated,
        images.acquire_outcome(code, image_index) == AcquireOutcome::OutOfDate,
{
}

} // verus!
