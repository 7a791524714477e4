//! Images: how one is requested, what stands for it once it exists, and what
//! is given back when it goes. An image that came from outside is never
//! destroyed here, only what was made around it.

use vstd::prelude::*;
use crate::buffer::Allocation;
use crate::buffer::AllocationRequest;
use crate::buffer::MemoryLocation;
use crate::memory::GpuHandle;
use crate::memory::GpuResource;
use crate::memory::TeardownStep;
use crate::resources::ResourceId;
use crate::vk::Extent2D;
use crate::vk::Extent3D;
use crate::vk::COMPONENT_SWIZZLE_A;
use crate::vk::COMPONENT_SWIZZLE_B;
use crate::vk::COMPONENT_SWIZZLE_G;
use crate::vk::COMPONENT_SWIZZLE_R;
use crate::vk::FORMAT_R8G8B8A8_UNORM;
use crate::vk::IMAGE_ASPECT_COLOR;
use crate::vk::IMAGE_LAYOUT_UNDEFINED;
use crate::vk::IMAGE_TYPE_2D;
use crate::vk::IMAGE_VIEW_TYPE_2D;
use crate::vk::SAMPLE_COUNT_1;
use crate::vk::SHARING_MODE_EXCLUSIVE;

verus! {

/// What the driver is told when an image is created.
#[derive(Clone, Copy, PartialEq, Eq, Structural, Debug)]
pub struct ImageCreateInfo {
    pub extent: Extent3D,
    pub samples: u32,
    pub usage: u32,
    pub sharing_mode: i32,
    pub initial_layout: i32,
    pub array_layers: u32,
    pub mip_levels: u32,
    pub image_type: i32,
    pub format: i32,
}

/// Which channel of the image each channel of a view reads.
#[derive(Clone, Copy, PartialEq, Eq, Structural, Debug)]
pub struct ComponentMapping {
    pub r: i32,
    pub g: i32,
    pub b: i32,
    pub a: i32,
}

/// The mip levels and array layers an operation covers.
#[derive(Clone, Copy, PartialEq, Eq, Structural, Debug)]
pub struct ImageSubresourceRange {
    pub aspect_mask: u32,
    pub base_mip_level: u32,
    pub level_count: u32,
    pub base_array_layer: u32,
    pub layer_count: u32,
}

/// What the driver is told when a view of an image is created.
#[derive(Clone, Copy, PartialEq, Eq, Structural, Debug)]
pub struct ImageViewCreateInfo {
    pub image: u64,
    pub format: i32,
    pub view_type: i32,
    pub components: ComponentMapping,
    pub subresource_range: ImageSubresourceRange,
}

/// How an image is named in a descriptor.
#[derive(Clone, Copy, PartialEq, Eq, Structural, Debug)]
pub struct DescriptorImageInfo {
    pub sampler: u64,
    pub image_view: u64,
    pub image_layout: i32,
}

/// Everything needed to bring an image into being.
#[derive(Clone, Copy, PartialEq, Eq, Structural, Debug)]
pub struct ImagePlan {
    pub create_info: ImageCreateInfo,
    /// The view to create once the image exists; its `image` is still zero.
    pub view_create_info: ImageViewCreateInfo,
    pub allocation: AllocationRequest,
}

/// Whether the native image belongs to this object.
#[derive(Clone, Copy, PartialEq, Eq, Structural, Debug)]
pub enum ImageOrigin {
    /// Borrowed, for instance from the presentation engine.
    External,
    /// Created for this object.
    Created,
}

/// The first mip level and array layer of the colour aspect.
pub open spec fn color_range() -> ImageSubresourceRange {
    ImageSubresourceRange {
        aspect_mask: IMAGE_ASPECT_COLOR,
        base_mip_level: 0,
        level_count: 1,
        base_array_layer: 0,
        layer_count: 1,
    }
}

/// A two-dimensional colour view that reads each channel from itself.
pub open spec fn color_view(image: u64, format: i32) -> ImageViewCreateInfo {
    ImageViewCreateInfo {
        image,
        format,
        view_type: IMAGE_VIEW_TYPE_2D,
        components: ComponentMapping {
            r: COMPONENT_SWIZZLE_R,
            g: COMPONENT_SWIZZLE_G,
            b: COMPONENT_SWIZZLE_B,
            a: COMPONENT_SWIZZLE_A,
        },
        subresource_range: color_range(),
    }
}

/// A single-sampled two-dimensional 8-bit RGBA image of one layer and one level.
pub open spec fn rgba_image(width: u32, height: u32, usage: u32) -> ImageCreateInfo {
    ImageCreateInfo {
        extent: Extent3D { width, height, depth: 1 },
        samples: SAMPLE_COUNT_1,
        usage,
        sharing_mode: SHARING_MODE_EXCLUSIVE,
        initial_layout: IMAGE_LAYOUT_UNDEFINED,
        array_layers: 1,
        mip_levels: 1,
        image_type: IMAGE_TYPE_2D,
        format: FORMAT_R8G8B8A8_UNORM,
    }
}

/// The plan that creates an image as described, in device-only linear memory.
pub open spec fn plan_for(create_info: ImageCreateInfo) -> ImagePlan {
    ImagePlan {
        create_info,
        view_create_info: color_view(0, create_info.format),
        allocation: AllocationRequest { location: MemoryLocation::GpuOnly, linear: true },
    }
}

/// Gives the first mip level and array layer of the colour aspect.
pub fn color_subresource_range() -> (range: ImageSubresourceRange)
    ensures
        range == color_range(),
{
    ImageSubresourceRange {
        aspect_mask: IMAGE_ASPECT_COLOR,
        base_mip_level: 0,
        level_count: 1,
        base_array_layer: 0,
        layer_count: 1,
    }
}

/// Describes the colour view of an image.
pub fn color_view_info(image: u64, format: i32) -> (info: ImageViewCreateInfo)
    ensures
        info == color_view(image, format),
{
    ImageViewCreateInfo {
        image,
        format,
        view_type: IMAGE_VIEW_TYPE_2D,
        components: ComponentMapping {
            r: COMPONENT_SWIZZLE_R,
            g: COMPONENT_SWIZZLE_G,
            b: COMPONENT_SWIZZLE_B,
            a: COMPONENT_SWIZZLE_A,
        },
        subresource_range: color_subresource_range(),
    }
}

/// Collects the settings of an image before it is created.
#[derive(Clone, Copy, PartialEq, Eq, Structural, Debug)]
pub struct ImageBuilder {
    pub extent: Extent3D,
    pub samples: u32,
    pub image_usage_flags: u32,
    pub sharing_mode: i32,
    pub initial_layout: i32,
    pub array_layers: u32,
    pub mip_levels: u32,
    pub image_type: i32,
    pub format: i32,
}

impl ImageBuilder {
    /// The settings as a creation request.
    pub open spec fn create_info(self) -> ImageCreateInfo {
        ImageCreateInfo {
            extent: self.extent,
            samples: self.samples,
            usage: self.image_usage_flags,
            sharing_mode: self.sharing_mode,
            initial_layout: self.initial_layout,
            array_layers: self.array_layers,
            mip_levels: self.mip_levels,
            image_type: self.image_type,
            format: self.format,
        }
    }

    /// An empty single-sampled 8-bit RGBA image without any usage.
    pub fn default() -> (builder: Self)
        ensures
            builder.create_info() == rgba_image(0, 0, 0),
    {
        ImageBuilder {
            extent: Extent3D { width: 0, height: 0, depth: 1 },
            samples: SAMPLE_COUNT_1,
            image_usage_flags: 0,
            sharing_mode: SHARING_MODE_EXCLUSIVE,
            initial_layout: IMAGE_LAYOUT_UNDEFINED,
            array_layers: 1,
            mip_levels: 1,
            image_type: IMAGE_TYPE_2D,
            format: FORMAT_R8G8B8A8_UNORM,
        }
    }

    /// Turns the settings into the plan that creates the image.
    pub fn build(self) -> (plan: ImagePlan)
        ensures
            plan == plan_for(self.create_info()),
    {
        ImagePlan {
            create_info: ImageCreateInfo {
                extent: self.extent,
                samples: self.samples,
                usage: self.image_usage_flags,
                sharing_mode: self.sharing_mode,
                initial_layout: self.initial_layout,
                array_layers: self.array_layers,
                mip_levels: self.mip_levels,
                image_type: self.image_type,
                format: self.format,
            },
            view_create_info: color_view_info(0, self.format),
            allocation: AllocationRequest { location: MemoryLocation::GpuOnly, linear: true },
        }
    }

    /// Sets the whole extent.
    pub fn extent(self, extent: Extent3D) -> (builder: Self)
        ensures
            builder == (ImageBuilder { extent, ..self }),
    {
        ImageBuilder { extent, ..self }
    }

    /// Sets the width and keeps height and depth.
    pub fn width(self, width: u32) -> (builder: Self)
        ensures
            builder == (ImageBuilder { extent: Extent3D { width, ..self.extent }, ..self }),
    {
        ImageBuilder { extent: Extent3D { width, ..self.extent }, ..self }
    }

    /// Sets the height and keeps width and depth.
    pub fn height(self, height: u32) -> (builder: Self)
        ensures
            builder == (ImageBuilder { extent: Extent3D { height, ..self.extent }, ..self }),
    {
        ImageBuilder { extent: Extent3D { height, ..self.extent }, ..self }
    }

    /// Sets the sample count.
    pub fn samples(self, samples: u32) -> (builder: Self)
        ensures
            builder == (ImageBuilder { samples, ..self }),
    {
        ImageBuilder { samples, ..self }
    }

    /// Sets what the image will be used for.
    pub fn image_usage_flags(self, image_usage_flags: u32) -> (builder: Self)
        ensures
            builder == (ImageBuilder { image_usage_flags, ..self }),
    {
        ImageBuilder { image_usage_flags, ..self }
    }

    /// Sets how queues share the image.
    pub fn sharing_mode(self, sharing_mode: i32) -> (builder: Self)
        ensures
            builder == (ImageBuilder { sharing_mode, ..self }),
    {
        ImageBuilder { sharing_mode, ..self }
    }

    /// Sets the layout the image starts in.
    pub fn initial_layout(self, initial_layout: i32) -> (builder: Self)
        ensures
            builder == (ImageBuilder { initial_layout, ..self }),
    {
        ImageBuilder { initial_layout, ..self }
    }

    /// Sets the number of array layers.
    pub fn array_layers(self, array_layers: u32) -> (builder: Self)
        ensures
            builder == (ImageBuilder { array_layers, ..self }),
    {
        ImageBuilder { array_layers, ..self }
    }

    /// Sets the number of mip levels.
    pub fn mip_levels(self, mip_levels: u32) -> (builder: Self)
        ensures
            builder == (ImageBuilder { mip_levels, ..self }),
    {
        ImageBuilder { mip_levels, ..self }
    }

    /// Sets the dimensionality.
    pub fn image_type(self, image_type: i32) -> (builder: Self)
        ensures
            builder == (ImageBuilder { image_type, ..self }),
    {
        ImageBuilder { image_type, ..self }
    }

    /// Sets the pixel format.
    pub fn format(self, format: i32) -> (builder: Self)
        ensures
            builder == (ImageBuilder { format, ..self }),
    {
        ImageBuilder { format, ..self }
    }
}

/// An image together with its view, its sampler and, where it has any, its memory.
#[derive(Clone, Copy, PartialEq, Eq, Structural, Debug)]
pub struct Image {
    pub resource: ResourceId,
    pub image: u64,
    pub image_view: u64,
    pub sampler: u64,
    pub width: u32,
    pub height: u32,
    pub allocation: Option<Allocation>,
    pub origin: ImageOrigin,
}

impl Image {
    /// Wraps an image that something else owns, such as a presentable image:
    /// view and sampler were made for it, memory was not.
    pub fn from_raw(
        resource: ResourceId,
        image: u64,
        image_view: u64,
        sampler: u64,
        extent: Extent2D,
    ) -> (made: Self)
        ensures
            made == (Image {
                resource,
                image,
                image_view,
                sampler,
                width: extent.width,
                height: extent.height,
                allocation: None,
                origin: ImageOrigin::External,
            }),
    {
        Image {
            resource,
            image,
            image_view,
            sampler,
            width: extent.width,
            height: extent.height,
            allocation: None,
            origin: ImageOrigin::External,
        }
    }

    /// Starts the settings of a new image.
    pub fn builder() -> (builder: ImageBuilder)
        ensures
            builder.create_info() == rgba_image(0, 0, 0),
    {
        ImageBuilder::default()
    }

    /// An image that was created as `create_info` says and bound to its own memory.
    pub fn new(
        resource: ResourceId,
        image: u64,
        image_view: u64,
        sampler: u64,
        allocation: Allocation,
        create_info: &ImageCreateInfo,
    ) -> (made: Self)
        ensures
            made == (Image {
                resource,
                image,
                image_view,
                sampler,
                width: create_info.extent.width,
                height: create_info.extent.height,
                allocation: Some(allocation),
                origin: ImageOrigin::Created,
            }),
    {
        Image {
            resource,
            image,
            image_view,
            sampler,
            width: create_info.extent.width,
            height: create_info.extent.height,
            allocation: Some(allocation),
            origin: ImageOrigin::Created,
        }
    }

    /// The plan for an 8-bit RGBA image of the given size and usage.
    pub fn new_rgba(width: u32, height: u32, image_usage_flags: u32) -> (plan: ImagePlan)
        ensures
            plan == plan_for(rgba_image(width, height, image_usage_flags)),
    {
        ImageBuilder::default().width(width).height(height).image_usage_flags(
            image_usage_flags,
        ).build()
    }

    /// Gives up the image's memory, which can happen once: the allocation
    /// comes back the first time, and nothing ever after.
    pub fn take_allocation(&mut self) -> (taken: Option<Allocation>)
        ensures
            taken == old(self).allocation,
            *final(self) == (Image { allocation: None, ..*old(self) }),
    {
        let taken = self.allocation;
        self.allocation = None;
        taken
    }

    /// Names the image in a descriptor, in the given layout.
    pub fn binding(&self, layout: i32) -> (info: DescriptorImageInfo)
        ensures
            info == (DescriptorImageInfo {
                sampler: self.sampler,
                image_view: self.image_view,
                image_layout: layout,
            }),
    {
        DescriptorImageInfo { sampler: self.sampler, image_view: self.image_view, image_layout: layout }
    }

    /// The native image.
    pub fn handle(&self) -> (raw: u64)
        ensures
            raw == self.image,
    {
        self.image
    }

    /// The native view.
    pub fn image_view(&self) -> (raw: u64)
        ensures
            raw == self.image_view,
    {
        self.image_view
    }

    /// The native sampler.
    pub fn sampler(&self) -> (raw: u64)
        ensures
            raw == self.sampler,
    {
        self.sampler
    }

    /// The width in pixels.
    pub fn width(&self) -> (pixels: u32)
        ensures
            pixels == self.width,
    {
        self.width
    }

    /// The height in pixels.
    pub fn height(&self) -> (pixels: u32)
        ensures
            pixels == self.height,
    {
        self.height
    }

    /// Width and height together.
    pub fn extent(&self) -> (extent: Extent2D)
        ensures
            extent == (Extent2D { width: self.width, height: self.height }),
    {
        Extent2D { width: self.width, height: self.height }
    }
}

impl GpuResource for Image {
    open spec fn resource_id(&self) -> ResourceId {
        self.resource
    }

    fn reference(&self) -> (id: ResourceId) {
        self.resource
    }
}

impl GpuHandle for Image {
    /// Sampler and view go first, then the memory where there is any, and
    /// last the image itself, but only where it was created for this object.
    open spec fn teardown_steps(&self) -> Seq<TeardownStep> {
        let around = seq![
            TeardownStep::DestroySampler(self.sampler),
            TeardownStep::DestroyImageView(self.image_view),
        ];
        let memory = if self.allocation is Some {
            seq![TeardownStep::FreeAllocation]
        } else {
            Seq::empty()
        };
        let native = if self.origin == ImageOrigin::Created {
            seq![TeardownStep::DestroyImage(self.image)]
        } else {
            Seq::empty()
        };
        around + memory + native
    }

    fn teardown(self) -> (steps: Vec<TeardownStep>) {
        let mut steps: Vec<TeardownStep> = Vec::new();
        steps.push(TeardownStep::DestroySampler(self.sampler));
        steps.push(TeardownStep::DestroyImageView(self.image_view));
        if self.allocation.is_some() {
            steps.push(TeardownStep::FreeAllocation);
        }
        match self.origin {
            ImageOrigin::Created => {
                steps.push(TeardownStep::DestroyImage(self.image));
            },
            ImageOrigin::External => {},
        }
        proof {
            assert(steps@ =~= self.teardown_steps());
        }
        steps
    }
}

/// An image that came from outside never has its native image destroyed.
pub proof fn lemma_external_image_is_kept(image: Image)
    requires
        image.origin == ImageOrigin::External,
    ensures
        forall|raw: u64| !image.teardown_steps().contains(TeardownStep::DestroyImage(raw)),
{
    let steps = image.teardown_steps();
    assert forall|raw: u64| !steps.contains(TeardownStep::DestroyImage(raw)) by {
        if steps.contains(TeardownStep::DestroyImage(raw)) {
            let i = choose|i: int| 0 <= i < steps.len() && steps[i] == TeardownStep::DestroyImage(raw);
            assert(i < 3);
        }
    }
}

} // verus!
