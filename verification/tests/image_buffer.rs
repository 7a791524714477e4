use cen::buffer::Allocation;
use cen::buffer::AllocationRequest;
use cen::buffer::Buffer;
use cen::buffer::BufferError;
use cen::buffer::MemoryLocation;
use cen::image::Image;
use cen::image::ImageBuilder;
use cen::image::ImageOrigin;
use cen::memory::GpuHandle;
use cen::memory::GpuResource;
use cen::memory::TeardownStep;
use cen::vk::Extent2D;
use cen::vk::Extent3D;
use cen::vk::FORMAT_R8G8B8A8_SRGB;
use cen::vk::FORMAT_R8G8B8A8_UNORM;
use cen::vk::IMAGE_LAYOUT_GENERAL;

#[test]
fn builder_starts_as_an_empty_rgba_image() {
    let builder = Image::builder();
    assert_eq!(builder, ImageBuilder::default());
    assert_eq!(builder.extent, Extent3D { width: 0, height: 0, depth: 1 });
    assert_eq!(builder.samples, 1);
    assert_eq!(builder.image_usage_flags, 0);
    assert_eq!(builder.sharing_mode, 0);
    assert_eq!(builder.initial_layout, 0);
    assert_eq!(builder.array_layers, 1);
    assert_eq!(builder.mip_levels, 1);
    assert_eq!(builder.image_type, 1);
    assert_eq!(builder.format, FORMAT_R8G8B8A8_UNORM);
}

#[test]
fn builder_setters_change_one_setting_each() {
    let builder = ImageBuilder::default()
        .extent(Extent3D { width: 4, height: 5, depth: 6 })
        .width(7)
        .height(8)
        .samples(4)
        .image_usage_flags(0x18)
        .sharing_mode(1)
        .initial_layout(2)
        .array_layers(3)
        .mip_levels(9)
        .image_type(2)
        .format(FORMAT_R8G8B8A8_SRGB);
    assert_eq!(builder.extent, Extent3D { width: 7, height: 8, depth: 6 });
    assert_eq!(builder.samples, 4);
    assert_eq!(builder.image_usage_flags, 0x18);
    assert_eq!(builder.sharing_mode, 1);
    assert_eq!(builder.initial_layout, 2);
    assert_eq!(builder.array_layers, 3);
    assert_eq!(builder.mip_levels, 9);
    assert_eq!(builder.image_type, 2);
    assert_eq!(builder.format, FORMAT_R8G8B8A8_SRGB);
}

#[test]
fn build_plans_image_view_and_memory() {
    let plan = ImageBuilder::default().width(16).height(32).format(FORMAT_R8G8B8A8_SRGB).build();
    assert_eq!(plan.create_info.extent, Extent3D { width: 16, height: 32, depth: 1 });
    assert_eq!(plan.create_info.format, FORMAT_R8G8B8A8_SRGB);
    assert_eq!(plan.view_create_info.image, 0);
    assert_eq!(plan.view_create_info.format, FORMAT_R8G8B8A8_SRGB);
    assert_eq!(plan.view_create_info.view_type, 1);
    assert_eq!(plan.view_create_info.components.r, 3);
    assert_eq!(plan.view_create_info.components.g, 4);
    assert_eq!(plan.view_create_info.components.b, 5);
    assert_eq!(plan.view_create_info.components.a, 6);
    assert_eq!(plan.view_create_info.subresource_range.aspect_mask, 1);
    assert_eq!(plan.view_create_info.subresource_range.base_mip_level, 0);
    assert_eq!(plan.view_create_info.subresource_range.level_count, 1);
    assert_eq!(plan.view_create_info.subresource_range.base_array_layer, 0);
    assert_eq!(plan.view_create_info.subresource_range.layer_count, 1);
    assert_eq!(plan.allocation, AllocationRequest { location: MemoryLocation::GpuOnly, linear: true });
}

#[test]
fn rgba_plan_has_the_given_size_and_usage() {
    let plan = Image::new_rgba(640, 480, 0x8);
    assert_eq!(plan.create_info.extent, Extent3D { width: 640, height: 480, depth: 1 });
    assert_eq!(plan.create_info.usage, 0x8);
    assert_eq!(plan.create_info.format, FORMAT_R8G8B8A8_UNORM);
    assert_eq!(plan.create_info.samples, 1);
    assert_eq!(plan.create_info.array_layers, 1);
    assert_eq!(plan.create_info.mip_levels, 1);
    assert_eq!(plan, ImageBuilder::default().width(640).height(480).image_usage_flags(0x8).build());
}

#[test]
fn created_image_owns_everything() {
    let plan = Image::new_rgba(4, 2, 0);
    let image = Image::new(3, 10, 11, 12, Allocation { mapped: false }, &plan.create_info);
    assert_eq!(image.origin, ImageOrigin::Created);
    assert_eq!(image.reference(), 3);
    assert_eq!(image.handle(), 10);
    assert_eq!(image.image_view(), 11);
    assert_eq!(image.sampler(), 12);
    assert_eq!(image.width(), 4);
    assert_eq!(image.height(), 2);
    assert_eq!(image.extent(), Extent2D { width: 4, height: 2 });
    assert_eq!(
        image.teardown(),
        vec![
            TeardownStep::DestroySampler(12),
            TeardownStep::DestroyImageView(11),
            TeardownStep::FreeAllocation,
            TeardownStep::DestroyImage(10),
        ]
    );
}

#[test]
fn external_image_is_never_destroyed() {
    let image = Image::from_raw(1, 10, 11, 12, Extent2D { width: 8, height: 9 });
    assert_eq!(image.origin, ImageOrigin::External);
    assert_eq!(image.allocation, None);
    assert_eq!(image.width(), 8);
    assert_eq!(image.height(), 9);
    assert_eq!(image.teardown(), vec![TeardownStep::DestroySampler(12), TeardownStep::DestroyImageView(11)]);
}

#[test]
fn external_image_with_memory_frees_only_the_memory() {
    let mut image = Image::from_raw(1, 10, 11, 12, Extent2D { width: 8, height: 9 });
    image.allocation = Some(Allocation { mapped: false });
    assert_eq!(
        image.teardown(),
        vec![TeardownStep::DestroySampler(12), TeardownStep::DestroyImageView(11), TeardownStep::FreeAllocation]
    );
}

#[test]
fn image_binding_names_view_sampler_and_layout() {
    let image = Image::from_raw(1, 10, 11, 12, Extent2D { width: 8, height: 9 });
    let info = image.binding(IMAGE_LAYOUT_GENERAL);
    assert_eq!(info.image_view, 11);
    assert_eq!(info.sampler, 12);
    assert_eq!(info.image_layout, IMAGE_LAYOUT_GENERAL);
}

#[test]
fn buffer_requests_are_exclusive_and_linear() {
    let info = Buffer::create_info(256, 0x20);
    assert_eq!(info.size, 256);
    assert_eq!(info.usage, 0x20);
    assert_eq!(info.sharing_mode, 0);
    assert_eq!(
        Buffer::allocation_request(MemoryLocation::CpuToGpu),
        AllocationRequest { location: MemoryLocation::CpuToGpu, linear: true }
    );
}

#[test]
fn mapped_buffer_grants_access() {
    let buffer = Buffer::new(2, 20, 256, Allocation { mapped: true });
    let guard = buffer.mapped().unwrap();
    assert_eq!(guard.buffer, 20);
    assert_eq!(guard.len(), 256);
    assert_eq!(buffer.handle(), 20);
    assert_eq!(buffer.size(), 256);
    assert_eq!(buffer.reference(), 2);
}

#[test]
fn unmapped_buffer_is_not_mapped() {
    let buffer = Buffer::new(2, 20, 256, Allocation { mapped: false });
    assert_eq!(buffer.mapped(), Err(BufferError::NotMapped));
}

#[test]
fn buffer_without_memory_is_not_allocated() {
    let mut buffer = Buffer::new(2, 20, 256, Allocation { mapped: true });
    buffer.allocation = None;
    assert_eq!(buffer.mapped(), Err(BufferError::NotAllocated));
    assert_eq!(buffer.teardown(), vec![TeardownStep::DestroyBuffer(20)]);
}

#[test]
fn buffer_teardown_frees_memory_first() {
    let buffer = Buffer::new(2, 20, 256, Allocation { mapped: true });
    assert_eq!(buffer.teardown(), vec![TeardownStep::FreeAllocation, TeardownStep::DestroyBuffer(20)]);
}

#[test]
fn buffer_binding_covers_the_whole_buffer() {
    let buffer = Buffer::new(2, 20, 256, Allocation { mapped: true });
    let info = buffer.binding();
    assert_eq!(info.buffer, 20);
    assert_eq!(info.offset, 0);
    assert_eq!(info.range, 256);
}

#[test]
fn memory_is_given_up_only_once() {
    let plan = Image::new_rgba(4, 2, 0);
    let mut image = Image::new(3, 10, 11, 12, Allocation { mapped: false }, &plan.create_info);
    assert_eq!(image.take_allocation(), Some(Allocation { mapped: false }));
    assert_eq!(image.take_allocation(), None);
    assert_eq!(
        image.teardown(),
        vec![TeardownStep::DestroySampler(12), TeardownStep::DestroyImageView(11), TeardownStep::DestroyImage(10)]
    );
    let mut buffer = Buffer::new(2, 20, 256, Allocation { mapped: true });
    assert_eq!(buffer.take_allocation(), Some(Allocation { mapped: true }));
    assert_eq!(buffer.take_allocation(), None);
    assert_eq!(buffer.mapped(), Err(BufferError::NotAllocated));
}
