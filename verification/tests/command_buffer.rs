use cen::buffer::Allocation;
use cen::buffer::Buffer;
use cen::command_buffer::BufferImageCopy;
use cen::command_buffer::ClearColor;
use cen::command_buffer::ImageBlit;
use cen::command_buffer::ImageSubresourceLayers;
use cen::command_buffer::Command;
use cen::command_buffer::CommandBuffer;
use cen::command_buffer::ImageMemoryBarrier;
use cen::command_buffer::RenderingAttachment;
use cen::command_buffer::RenderingInfo;
use cen::command_buffer::Viewport;
use cen::command_buffer::WriteDescriptorSet;
use cen::image::DescriptorImageInfo;
use cen::image::Image;
use cen::image::ImageSubresourceRange;
use cen::pipeline::BindPoint;
use cen::pipeline::ComputePipeline;
use cen::pipeline::GraphicsPipeline;
use cen::resources::ResourceError;
use cen::resources::ResourceTable;
use cen::vk::Extent2D;
use cen::vk::Extent3D;
use cen::vk::Offset2D;
use cen::vk::Offset3D;
use cen::vk::Rect2D;

fn color_range() -> ImageSubresourceRange {
    ImageSubresourceRange { aspect_mask: 1, base_mip_level: 0, level_count: 1, base_array_layer: 0, layer_count: 1 }
}

fn image(table: &mut ResourceTable, raw: u64) -> Image {
    let id = table.create();
    Image::from_raw(id, raw, raw + 1, raw + 2, Extent2D { width: 4, height: 4 })
}

fn compute(table: &mut ResourceTable) -> ComputePipeline {
    let id = table.create();
    ComputePipeline::new(id, 500, 600, vec![700])
}

#[test]
fn new_unit_is_empty_and_registered() {
    let mut table = ResourceTable::new();
    let unit = CommandBuffer::new(&mut table, 11, 12);
    assert_eq!(unit.handle(), 11);
    assert_eq!(unit.fence(), 12);
    assert_eq!(unit.holder(), 0);
    assert!(!unit.is_recording());
    assert!(unit.commands().is_empty());
    assert_eq!(table.holder_count(), 1);
    let second = CommandBuffer::new(&mut table, 21, 22);
    assert_eq!(second.holder(), 1);
}

#[test]
fn begin_and_end_bracket_a_recording() {
    let mut table = ResourceTable::new();
    let mut unit = CommandBuffer::new(&mut table, 11, 12);
    assert_eq!(unit.begin(&mut table), Vec::<usize>::new());
    assert!(unit.is_recording());
    unit.dispatch(1, 2, 3);
    unit.end();
    assert!(!unit.is_recording());
    assert_eq!(unit.commands(), &vec![Command::Dispatch { x: 1, y: 2, z: 3 }]);
}

#[test]
fn begin_drops_commands_and_references_of_the_previous_recording() {
    let mut table = ResourceTable::new();
    let mut unit = CommandBuffer::new(&mut table, 11, 12);
    let pipeline = compute(&mut table);
    unit.begin(&mut table);
    assert_eq!(unit.bind_pipeline(&mut table, &pipeline), Ok(()));
    unit.dispatch(8, 8, 1);
    unit.end();
    assert_eq!(table.references_of(unit.holder()), vec![pipeline.resource]);
    assert_eq!(unit.begin(&mut table), Vec::<usize>::new());
    assert!(unit.commands().is_empty());
    assert_eq!(table.references_of(unit.holder()), Vec::<usize>::new());
    assert!(table.is_live(pipeline.resource));
}

#[test]
fn bind_pipeline_records_and_references() {
    let mut table = ResourceTable::new();
    let mut unit = CommandBuffer::new(&mut table, 11, 12);
    let pipeline = compute(&mut table);
    assert_eq!(unit.bind_pipeline(&mut table, &pipeline), Ok(()));
    assert_eq!(unit.commands(), &vec![Command::BindPipeline { bind_point: BindPoint::Compute, pipeline: 500 }]);
    assert!(table.is_referenced(pipeline.resource));
    let graphics = GraphicsPipeline::new(table.create(), 800, 900);
    assert_eq!(unit.bind_pipeline(&mut table, &graphics), Ok(()));
    assert_eq!(unit.commands()[1], Command::BindPipeline { bind_point: BindPoint::Graphics, pipeline: 800 });
    assert_eq!(table.references_of(unit.holder()), vec![pipeline.resource, graphics.resource]);
}

#[test]
fn bound_pipeline_outlives_its_owner_until_the_next_begin() {
    let mut table = ResourceTable::new();
    let mut unit = CommandBuffer::new(&mut table, 11, 12);
    let pipeline = compute(&mut table);
    unit.begin(&mut table);
    assert_eq!(unit.bind_pipeline(&mut table, &pipeline), Ok(()));
    unit.end();
    assert_eq!(table.release(pipeline.resource), Ok(false));
    assert!(table.is_live(pipeline.resource));
    assert_eq!(unit.begin(&mut table), vec![pipeline.resource]);
    assert!(!table.is_live(pipeline.resource));
}

#[test]
fn stale_pipeline_is_not_bound() {
    let mut table = ResourceTable::new();
    let mut unit = CommandBuffer::new(&mut table, 11, 12);
    let pipeline = compute(&mut table);
    assert_eq!(table.release(pipeline.resource), Ok(true));
    assert_eq!(unit.bind_pipeline(&mut table, &pipeline), Err(ResourceError::Stale));
    assert!(unit.commands().is_empty());
    assert_eq!(table.references_of(unit.holder()), Vec::<usize>::new());
}

#[test]
fn unit_of_another_table_is_unknown() {
    let mut home = ResourceTable::new();
    let mut other = ResourceTable::new();
    let mut unit = CommandBuffer::new(&mut home, 11, 12);
    let pipeline = compute(&mut other);
    assert_eq!(unit.bind_pipeline(&mut other, &pipeline), Err(ResourceError::UnknownHolder));
    assert!(unit.commands().is_empty());
}

#[test]
fn image_barrier_covers_the_color_aspect_and_keeps_the_queue_family() {
    let mut table = ResourceTable::new();
    let mut unit = CommandBuffer::new(&mut table, 11, 12);
    let target = image(&mut table, 40);
    unit.image_barrier(&target, 0, 7, 0x1, 0x1000, 0, 0x10000);
    let expected = Command::PipelineBarrier {
        src_stage_mask: 0x1,
        dst_stage_mask: 0x1000,
        dependency_flags: 0,
        barrier: ImageMemoryBarrier {
            image: 40,
            old_layout: 0,
            new_layout: 7,
            src_access_mask: 0,
            dst_access_mask: 0x10000,
            src_queue_family_index: u32::MAX,
            dst_queue_family_index: u32::MAX,
            subresource_range: color_range(),
        },
    };
    assert_eq!(unit.commands(), &vec![expected.clone()]);
    assert_eq!(Command::image_barrier(&target, 0, 7, 0x1, 0x1000, 0, 0x10000), expected);
    assert!(!table.is_referenced(target.resource));
}

#[test]
fn clear_color_image_covers_the_color_aspect() {
    let mut table = ResourceTable::new();
    let mut unit = CommandBuffer::new(&mut table, 11, 12);
    let target = image(&mut table, 40);
    let color = ClearColor { r_bits: 0, g_bits: 0, b_bits: 0, a_bits: 1.0f32.to_bits() };
    unit.clear_color_image(&target, 7, color);
    let expected = Command::ClearColorImage { image: 40, image_layout: 7, color, range: color_range() };
    assert_eq!(unit.commands(), &vec![expected.clone()]);
    assert_eq!(Command::clear_color_image(&target, 7, color), expected);
}

#[test]
fn render_pass_covers_the_whole_framebuffer() {
    let mut table = ResourceTable::new();
    let mut unit = CommandBuffer::new(&mut table, 11, 12);
    unit.begin_render_pass(5, 6, Extent2D { width: 3, height: 2 });
    unit.end_render_pass();
    let begin = Command::BeginRenderPass {
        render_pass: 5,
        framebuffer: 6,
        render_area: Rect2D { offset: Offset2D { x: 0, y: 0 }, extent: Extent2D { width: 3, height: 2 } },
    };
    assert_eq!(unit.commands(), &vec![begin.clone(), Command::EndRenderPass]);
    assert_eq!(Command::begin_render_pass(5, 6, Extent2D { width: 3, height: 2 }), begin);
}

#[test]
fn dynamic_rendering_is_recorded_as_given() {
    let mut table = ResourceTable::new();
    let mut unit = CommandBuffer::new(&mut table, 11, 12);
    let info = RenderingInfo {
        render_area: Rect2D { offset: Offset2D { x: 0, y: 0 }, extent: Extent2D { width: 3, height: 2 } },
        layer_count: 1,
        view_mask: 0,
        color_attachments: vec![RenderingAttachment {
            image_view: 9,
            image_layout: 2,
            load_op: 0,
            store_op: 0,
            clear: ClearColor { r_bits: 1, g_bits: 2, b_bits: 3, a_bits: 4 },
        }],
    };
    unit.begin_rendering(info.clone());
    unit.end_rendering();
    assert_eq!(unit.commands(), &vec![Command::BeginRendering { info }, Command::EndRendering]);
}

#[test]
fn plain_commands_are_recorded_in_order() {
    let mut table = ResourceTable::new();
    let mut unit = CommandBuffer::new(&mut table, 11, 12);
    let pipeline = compute(&mut table);
    let viewport =
        Viewport { x_bits: 0, y_bits: 0, width_bits: 1, height_bits: 2, min_depth_bits: 0, max_depth_bits: 3 };
    let scissor = Rect2D { offset: Offset2D { x: 1, y: 2 }, extent: Extent2D { width: 3, height: 4 } };
    unit.set_viewport(viewport);
    unit.set_scissor(scissor);
    unit.push_constants(&pipeline, 0x20, 4, vec![1, 2, 3]);
    unit.bind_descriptor_sets(&pipeline, vec![70, 71]);
    unit.record(Command::Dispatch { x: 1, y: 1, z: 1 });
    assert_eq!(
        unit.commands(),
        &vec![
            Command::SetViewport { viewport },
            Command::SetScissor { scissor },
            Command::PushConstants { layout: 600, stage_flags: 0x20, offset: 4, data: vec![1, 2, 3] },
            Command::BindDescriptorSets { bind_point: BindPoint::Compute, layout: 600, first_set: 0, sets: vec![70, 71] },
            Command::Dispatch { x: 1, y: 1, z: 1 },
        ]
    );
    assert_eq!(table.references_of(unit.holder()), Vec::<usize>::new());
}

#[test]
fn raw_descriptor_push_is_recorded_as_given() {
    let mut table = ResourceTable::new();
    let mut unit = CommandBuffer::new(&mut table, 11, 12);
    let pipeline = compute(&mut table);
    let writes = vec![WriteDescriptorSet {
        dst_binding: 2,
        dst_array_element: 0,
        descriptor_type: 7,
        image_info: vec![],
        buffer_info: vec![],
    }];
    unit.bind_push_descriptor(&pipeline, 1, writes.clone());
    assert_eq!(
        unit.commands(),
        &vec![Command::PushDescriptorSet { bind_point: BindPoint::Compute, layout: 600, set: 1, writes }]
    );
}

fn storage_push(images: &[&Image]) -> Command {
    Command::PushDescriptorSet {
        bind_point: BindPoint::Compute,
        layout: 600,
        set: 0,
        writes: vec![WriteDescriptorSet {
            dst_binding: 0,
            dst_array_element: 0,
            descriptor_type: 3,
            image_info: images
                .iter()
                .map(|image| DescriptorImageInfo { sampler: image.sampler, image_view: image.image_view, image_layout: 1 })
                .collect(),
            buffer_info: vec![],
        }],
    }
}

#[test]
fn pushed_image_is_a_storage_image_and_is_referenced() {
    let mut table = ResourceTable::new();
    let mut unit = CommandBuffer::new(&mut table, 11, 12);
    let pipeline = compute(&mut table);
    let target = image(&mut table, 40);
    assert_eq!(unit.bind_push_descriptor_image(&mut table, &pipeline, &target), Ok(()));
    assert_eq!(unit.commands(), &vec![storage_push(&[&target])]);
    assert_eq!(table.references_of(unit.holder()), vec![target.resource]);
}

#[test]
fn pushed_images_are_all_referenced_in_order() {
    let mut table = ResourceTable::new();
    let mut unit = CommandBuffer::new(&mut table, 11, 12);
    let pipeline = compute(&mut table);
    let a = image(&mut table, 40);
    let b = image(&mut table, 50);
    assert_eq!(unit.bind_push_descriptor_images(&mut table, &pipeline, &vec![b, a]), Ok(()));
    assert_eq!(unit.commands(), &vec![storage_push(&[&b, &a])]);
    assert_eq!(table.references_of(unit.holder()), vec![b.resource, a.resource]);
}

#[test]
fn one_stale_image_stops_the_whole_push() {
    let mut table = ResourceTable::new();
    let mut unit = CommandBuffer::new(&mut table, 11, 12);
    let pipeline = compute(&mut table);
    let a = image(&mut table, 40);
    let b = image(&mut table, 50);
    assert_eq!(table.release(b.resource), Ok(true));
    assert_eq!(unit.bind_push_descriptor_images(&mut table, &pipeline, &vec![a, b]), Err(ResourceError::Stale));
    assert!(unit.commands().is_empty());
    assert!(!table.is_referenced(a.resource));
    assert_eq!(unit.bind_push_descriptor_image(&mut table, &pipeline, &b), Err(ResourceError::Stale));
}

fn color_layers() -> ImageSubresourceLayers {
    ImageSubresourceLayers { aspect_mask: 1, mip_level: 0, base_array_layer: 0, layer_count: 1 }
}

#[test]
fn copies_and_blits_are_recorded_as_given() {
    let mut table = ResourceTable::new();
    let mut unit = CommandBuffer::new(&mut table, 11, 12);
    let source = image(&mut table, 40);
    let target = image(&mut table, 50);
    let staging = Buffer::new(table.create(), 60, 64, Allocation { mapped: true });
    let copy = BufferImageCopy {
        buffer_offset: 0,
        buffer_row_length: 0,
        buffer_image_height: 0,
        image_subresource: color_layers(),
        image_offset: Offset3D { x: 0, y: 0, z: 0 },
        image_extent: Extent3D { width: 4, height: 4, depth: 1 },
    };
    let blit = ImageBlit {
        src_subresource: color_layers(),
        src_from: Offset3D { x: 0, y: 0, z: 0 },
        src_to: Offset3D { x: 4, y: 4, z: 1 },
        dst_subresource: color_layers(),
        dst_from: Offset3D { x: 0, y: 0, z: 0 },
        dst_to: Offset3D { x: 8, y: 8, z: 1 },
    };
    unit.copy_buffer_to_image(&staging, &source, 7, vec![copy]);
    unit.blit_image(&source, 6, &target, 7, vec![blit], 0);
    unit.external(3);
    assert_eq!(
        unit.commands(),
        &vec![
            Command::CopyBufferToImage { buffer: 60, image: 40, image_layout: 7, regions: vec![copy] },
            Command::BlitImage { src_image: 40, src_layout: 6, dst_image: 50, dst_layout: 7, blits: vec![blit], filter: 0 },
            Command::External { token: 3 },
        ]
    );
    assert_eq!(table.references_of(unit.holder()), Vec::<usize>::new());
}
