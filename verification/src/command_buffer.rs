//! A recording unit: the commands it holds for replay, and the resources it
//! references so that they outlive the GPU's execution of those commands.

use vstd::prelude::*;
use crate::buffer::DescriptorBufferInfo;
use crate::image::color_range;
use crate::image::color_subresource_range;
use crate::image::DescriptorImageInfo;
use crate::image::Image;
use crate::image::ImageSubresourceRange;
use crate::pipeline::BindPoint;
use crate::pipeline::Pipeline;
use crate::resources::HolderId;
use crate::resources::ResourceError;
use crate::resources::ResourceId;
use crate::resources::ResourceTable;
use crate::buffer::Buffer;
use crate::vk::Extent2D;
use crate::vk::Extent3D;
use crate::vk::Offset2D;
use crate::vk::Offset3D;
use crate::vk::Rect2D;
use crate::vk::DESCRIPTOR_TYPE_STORAGE_IMAGE;
use crate::vk::IMAGE_LAYOUT_GENERAL;
use crate::vk::QUEUE_FAMILY_IGNORED;

verus! {

/// A colour as the bit patterns of four single-precision numbers.
#[derive(Clone, Copy, PartialEq, Eq, Structural, Debug)]
pub struct ClearColor {
    pub r_bits: u32,
    pub g_bits: u32,
    pub b_bits: u32,
    pub a_bits: u32,
}

/// A viewport as the bit patterns of six single-precision numbers.
#[derive(Clone, Copy, PartialEq, Eq, Structural, Debug)]
pub struct Viewport {
    pub x_bits: u32,
    pub y_bits: u32,
    pub width_bits: u32,
    pub height_bits: u32,
    pub min_depth_bits: u32,
    pub max_depth_bits: u32,
}

/// One colour attachment of a dynamic rendering pass.
#[derive(Clone, Copy, PartialEq, Eq, Structural, Debug)]
pub struct RenderingAttachment {
    pub image_view: u64,
    pub image_layout: i32,
    pub load_op: i32,
    pub store_op: i32,
    pub clear: ClearColor,
}

/// What a dynamic rendering pass renders into.
#[derive(Clone, PartialEq, Eq, Debug)]
pub struct RenderingInfo {
    pub render_area: Rect2D,
    pub layer_count: u32,
    pub view_mask: u32,
    pub color_attachments: Vec<RenderingAttachment>,
}

/// One update of a descriptor set.
#[derive(Clone, PartialEq, Eq, Debug)]
pub struct WriteDescriptorSet {
    pub dst_binding: u32,
    pub dst_array_element: u32,
    pub descriptor_type: i32,
    pub image_info: Vec<DescriptorImageInfo>,
    pub buffer_info: Vec<DescriptorBufferInfo>,
}

/// A layout transition of one image between two scopes of access.
#[derive(Clone, Copy, PartialEq, Eq, Structural, Debug)]
pub struct ImageMemoryBarrier {
    pub image: u64,
    pub old_layout: i32,
    pub new_layout: i32,
    pub src_access_mask: u32,
    pub dst_access_mask: u32,
    pub src_queue_family_index: u32,
    pub dst_queue_family_index: u32,
    pub subresource_range: ImageSubresourceRange,
}

/// One mip level and a range of array layers of an image.
#[derive(Clone, Copy, PartialEq, Eq, Structural, Debug)]
pub struct ImageSubresourceLayers {
    pub aspect_mask: u32,
    pub mip_level: u32,
    pub base_array_layer: u32,
    pub layer_count: u32,
}

/// One region of a scaled copy between two images; each region lies between
/// two corners.
#[derive(Clone, Copy, PartialEq, Eq, Structural, Debug)]
pub struct ImageBlit {
    pub src_subresource: ImageSubresourceLayers,
    pub src_from: Offset3D,
    pub src_to: Offset3D,
    pub dst_subresource: ImageSubresourceLayers,
    pub dst_from: Offset3D,
    pub dst_to: Offset3D,
}

/// One region of a copy from a buffer into an image.
#[derive(Clone, Copy, PartialEq, Eq, Structural, Debug)]
pub struct BufferImageCopy {
    pub buffer_offset: u64,
    pub buffer_row_length: u32,
    pub buffer_image_height: u32,
    pub image_subresource: ImageSubresourceLayers,
    pub image_offset: Offset3D,
    pub image_extent: Extent3D,
}

/// One recorded operation, with everything its replay needs.
#[derive(Clone, PartialEq, Eq, Debug)]
pub enum Command {
    /// Begins a render pass over the whole framebuffer, cleared to opaque black.
    BeginRenderPass { render_pass: u64, framebuffer: u64, render_area: Rect2D },
    EndRenderPass,
    BeginRendering { info: RenderingInfo },
    EndRendering,
    PushDescriptorSet { bind_point: BindPoint, layout: u64, set: u32, writes: Vec<WriteDescriptorSet> },
    PushConstants { layout: u64, stage_flags: u32, offset: u32, data: Vec<u8> },
    SetViewport { viewport: Viewport },
    SetScissor { scissor: Rect2D },
    ClearColorImage { image: u64, image_layout: i32, color: ClearColor, range: ImageSubresourceRange },
    BindPipeline { bind_point: BindPoint, pipeline: u64 },
    Dispatch { x: u32, y: u32, z: u32 },
    PipelineBarrier {
        src_stage_mask: u32,
        dst_stage_mask: u32,
        dependency_flags: u32,
        barrier: ImageMemoryBarrier,
    },
    BindDescriptorSets { bind_point: BindPoint, layout: u64, first_set: u32, sets: Vec<u64> },
    CopyBufferToImage { buffer: u64, image: u64, image_layout: i32, regions: Vec<BufferImageCopy> },
    BlitImage {
        src_image: u64,
        src_layout: i32,
        dst_image: u64,
        dst_layout: i32,
        blits: Vec<ImageBlit>,
        filter: i32,
    },
    /// Commands that someone else records into the native command buffer at
    /// this point of the replay; the token tells whose.
    External { token: u64 },
}

/// The barrier that moves the colour aspect of an image from one layout to
/// another without handing it to another queue family.
pub open spec fn layout_transition(
    image: u64,
    old_layout: i32,
    new_layout: i32,
    src_access_mask: u32,
    dst_access_mask: u32,
) -> ImageMemoryBarrier {
    ImageMemoryBarrier {
        image,
        old_layout,
        new_layout,
        src_access_mask,
        dst_access_mask,
        src_queue_family_index: QUEUE_FAMILY_IGNORED,
        dst_queue_family_index: QUEUE_FAMILY_IGNORED,
        subresource_range: color_range(),
    }
}

/// The command that transitions an image between layouts, scopes as given.
pub open spec fn barrier_command(
    image: u64,
    old_layout: i32,
    new_layout: i32,
    src_stage_mask: u32,
    dst_stage_mask: u32,
    src_access_mask: u32,
    dst_access_mask: u32,
) -> Command {
    Command::PipelineBarrier {
        src_stage_mask,
        dst_stage_mask,
        dependency_flags: 0,
        barrier: layout_transition(image, old_layout, new_layout, src_access_mask, dst_access_mask),
    }
}

/// The command that clears the colour aspect of an image.
pub open spec fn clear_command(image: u64, layout: i32, color: ClearColor) -> Command {
    Command::ClearColorImage { image, image_layout: layout, color, range: color_range() }
}

/// The command that begins a render pass over a whole framebuffer.
pub open spec fn render_pass_command(render_pass: u64, framebuffer: u64, extent: Extent2D) -> Command {
    Command::BeginRenderPass {
        render_pass,
        framebuffer,
        render_area: Rect2D { offset: Offset2D { x: 0, y: 0 }, extent },
    }
}

impl Command {
    /// Builds a layout transition of an image between the given stages and
    /// accesses. Nothing is inferred: the scopes are exactly the caller's.
    pub fn image_barrier(
        image: &Image,
        old_layout: i32,
        new_layout: i32,
        src_stage_mask: u32,
        dst_stage_mask: u32,
        src_access_mask: u32,
        dst_access_mask: u32,
    ) -> (command: Command)
        ensures
            command == barrier_command(
                image.image,
                old_layout,
                new_layout,
                src_stage_mask,
                dst_stage_mask,
                src_access_mask,
                dst_access_mask,
            ),
    {
        Command::PipelineBarrier {
            src_stage_mask,
            dst_stage_mask,
            dependency_flags: 0,
            barrier: ImageMemoryBarrier {
                image: image.image,
                old_layout,
                new_layout,
                src_access_mask,
                dst_access_mask,
                src_queue_family_index: QUEUE_FAMILY_IGNORED,
                dst_queue_family_index: QUEUE_FAMILY_IGNORED,
                subresource_range: color_subresource_range(),
            },
        }
    }

    /// Builds a clear of the colour aspect of an image that is in `layout`.
    pub fn clear_color_image(image: &Image, layout: i32, color: ClearColor) -> (command: Command)
        ensures
            command == clear_command(image.image, layout, color),
    {
        Command::ClearColorImage {
            image: image.image,
            image_layout: layout,
            color,
            range: color_subresource_range(),
        }
    }

    /// Builds the start of a render pass over the whole framebuffer.
    pub fn begin_render_pass(render_pass: u64, framebuffer: u64, extent: Extent2D) -> (command:
        Command)
        ensures
            command == render_pass_command(render_pass, framebuffer, extent),
    {
        Command::BeginRenderPass {
            render_pass,
            framebuffer,
            render_area: Rect2D { offset: Offset2D { x: 0, y: 0 }, extent },
        }
    }
}

/// How an image is named when it is pushed as a storage image.
pub open spec fn storage_binding(image: Image) -> DescriptorImageInfo {
    DescriptorImageInfo {
        sampler: image.sampler,
        image_view: image.image_view,
        image_layout: IMAGE_LAYOUT_GENERAL,
    }
}

/// Whether `command` pushes exactly the given images, as storage images at
/// binding zero of set zero.
pub open spec fn pushes_storage_images(
    command: Command,
    bind_point: BindPoint,
    layout: u64,
    images: Seq<Image>,
) -> bool {
    command matches Command::PushDescriptorSet { bind_point: point, layout: native, set, writes }
        && point == bind_point && native == layout && set == 0 && writes@.len() == 1
        && writes@[0].dst_binding == 0 && writes@[0].dst_array_element == 0
        && writes@[0].descriptor_type == DESCRIPTOR_TYPE_STORAGE_IMAGE
        && writes@[0].buffer_info@.len() == 0 && writes@[0].image_info@ == images.map_values(
        |image: Image| storage_binding(image),
    )
}

/// The table entries of a sequence of images.
pub open spec fn resources_of(images: Seq<Image>) -> Seq<ResourceId> {
    images.map_values(|image: Image| image.resource)
}

/// A recording unit as a mathematical value.
pub struct CommandBufferView {
    /// The name under which the ownership table keeps the unit's references.
    pub holder: HolderId,
    pub handle: u64,
    pub fence: u64,
    pub commands: Seq<Command>,
    pub recording: bool,
}

impl CommandBufferView {
    /// The same unit with one more command.
    pub open spec fn with(self, command: Command) -> CommandBufferView {
        CommandBufferView { commands: self.commands.push(command), ..self }
    }
}

/// A recording unit.
#[derive(Debug)]
pub struct CommandBuffer {
    holder: HolderId,
    handle: u64,
    fence: u64,
    commands: Vec<Command>,
    recording: bool,
}

impl View for CommandBuffer {
    type V = CommandBufferView;

    closed spec fn view(&self) -> CommandBufferView {
        CommandBufferView {
            holder: self.holder,
            handle: self.handle,
            fence: self.fence,
            commands: self.commands@,
            recording: self.recording,
        }
    }
}

impl CommandBuffer {
    /// A unit for the given native command buffer and completion fence,
    /// registered with the ownership table. It holds no commands and
    /// references nothing.
    pub fn new(table: &mut ResourceTable, handle: u64, fence: u64) -> (made: Self)
        requires
            old(table)@.wf(),
        ensures
            final(table)@.wf(),
            final(table)@.owners == old(table)@.owners,
            final(table)@.destroyed == old(table)@.destroyed,
            final(table)@.references == old(table)@.references.push(Seq::empty()),
            made@ == (CommandBufferView {
                holder: old(table)@.references.len() as usize,
                handle,
                fence,
                commands: Seq::empty(),
                recording: false,
            }),
    {
        let holder = table.new_holder();
        CommandBuffer { holder, handle, fence, commands: Vec::new(), recording: false }
    }

    /// Starts a new recording: the commands of the previous one are dropped
    /// and every resource reference it held is released.
    ///
    /// The answer lists the resources whose native objects are to be
    /// destroyed now, as `ResourceTable::release_references` does. The GPU
    /// must have finished the previous recording; the frame loop sees to that.
    pub fn begin(&mut self, table: &mut ResourceTable) -> (reclaimed: Vec<ResourceId>)
        requires
            old(table)@.wf(),
        ensures
            final(self)@ == (CommandBufferView {
                commands: Seq::empty(),
                recording: true,
                ..old(self)@
            }),
            final(table)@.wf(),
            old(table)@.references_released(old(self)@.holder, final(table)@, reclaimed@),
    {
        self.commands = Vec::new();
        self.recording = true;
        table.release_references(self.holder)
    }

    /// Ends the recording; the commands stay for replay.
    pub fn end(&mut self)
        ensures
            final(self)@ == (CommandBufferView { recording: false, ..old(self)@ }),
    {
        self.recording = false;
    }

    /// Records a command as given.
    pub fn record(&mut self, command: Command)
        ensures
            final(self)@ == old(self)@.with(command),
    {
        self.commands.push(command);
    }

    /// Records the start of a render pass over the whole framebuffer.
    pub fn begin_render_pass(&mut self, render_pass: u64, framebuffer: u64, extent: Extent2D)
        ensures
            final(self)@ == old(self)@.with(render_pass_command(render_pass, framebuffer, extent)),
    {
        self.commands.push(Command::begin_render_pass(render_pass, framebuffer, extent));
    }

    /// Records the end of a render pass.
    pub fn end_render_pass(&mut self)
        ensures
            final(self)@ == old(self)@.with(Command::EndRenderPass),
    {
        self.commands.push(Command::EndRenderPass);
    }

    /// Records the start of a dynamic rendering pass.
    pub fn begin_rendering(&mut self, rendering_info: RenderingInfo)
        ensures
            final(self)@ == old(self)@.with(Command::BeginRendering { info: rendering_info }),
    {
        self.commands.push(Command::BeginRendering { info: rendering_info });
    }

    /// Records the end of a dynamic rendering pass.
    pub fn end_rendering(&mut self)
        ensures
            final(self)@ == old(self)@.with(Command::EndRendering),
    {
        self.commands.push(Command::EndRendering);
    }

    /// Records a descriptor push as given.
    pub fn bind_push_descriptor<P: Pipeline>(
        &mut self,
        pipeline: &P,
        set: u32,
        write_descriptor_sets: Vec<WriteDescriptorSet>,
    )
        ensures
            final(self)@ == old(self)@.with(
                Command::PushDescriptorSet {
                    bind_point: pipeline.point(),
                    layout: pipeline.native_layout(),
                    set,
                    writes: write_descriptor_sets,
                },
            ),
    {
        self.commands.push(
            Command::PushDescriptorSet {
                bind_point: pipeline.bind_point(),
                layout: pipeline.layout(),
                set,
                writes: write_descriptor_sets,
            },
        );
    }

    /// Records a push-constant update.
    pub fn push_constants<P: Pipeline>(
        &mut self,
        pipeline: &P,
        stage_flags: u32,
        offset: u32,
        data: Vec<u8>,
    )
        ensures
            final(self)@ == old(self)@.with(
                Command::PushConstants {
                    layout: pipeline.native_layout(),
                    stage_flags,
                    offset,
                    data,
                },
            ),
    {
        self.commands.push(
            Command::PushConstants { layout: pipeline.layout(), stage_flags, offset, data },
        );
    }

    /// Records the viewport for what follows.
    pub fn set_viewport(&mut self, viewport: Viewport)
        ensures
            final(self)@ == old(self)@.with(Command::SetViewport { viewport }),
    {
        self.commands.push(Command::SetViewport { viewport });
    }

    /// Records the scissor rectangle for what follows.
    pub fn set_scissor(&mut self, scissor: Rect2D)
        ensures
            final(self)@ == old(self)@.with(Command::SetScissor { scissor }),
    {
        self.commands.push(Command::SetScissor { scissor });
    }

    /// Records a clear of the colour aspect of an image that is in `layout`.
    pub fn clear_color_image(&mut self, image: &Image, layout: i32, color: ClearColor)
        ensures
            final(self)@ == old(self)@.with(clear_command(image.image, layout, color)),
    {
        self.commands.push(Command::clear_color_image(image, layout, color));
    }

    /// Records a compute dispatch of the given number of work groups.
    pub fn dispatch(&mut self, x: u32, y: u32, z: u32)
        ensures
            final(self)@ == old(self)@.with(Command::Dispatch { x, y, z }),
    {
        self.commands.push(Command::Dispatch { x, y, z });
    }

    /// Records a layout transition of an image between the given stages and
    /// accesses. Nothing is inferred: the scopes are exactly the caller's.
    pub fn image_barrier(
        &mut self,
        image: &Image,
        old_layout: i32,
        new_layout: i32,
        src_stage_mask: u32,
        dst_stage_mask: u32,
        src_access_mask: u32,
        dst_access_mask: u32,
    )
        ensures
            final(self)@ == old(self)@.with(
                barrier_command(
                    image.image,
                    old_layout,
                    new_layout,
                    src_stage_mask,
                    dst_stage_mask,
                    src_access_mask,
                    dst_access_mask,
                ),
            ),
    {
        self.commands.push(
            Command::image_barrier(
                image,
                old_layout,
                new_layout,
                src_stage_mask,
                dst_stage_mask,
                src_access_mask,
                dst_access_mask,
            ),
        );
    }

    /// Records the binding of descriptor sets, starting at set zero.
    pub fn bind_descriptor_sets<P: Pipeline>(&mut self, pipeline: &P, descriptor_sets: Vec<u64>)
        ensures
            final(self)@ == old(self)@.with(
                Command::BindDescriptorSets {
                    bind_point: pipeline.point(),
                    layout: pipeline.native_layout(),
                    first_set: 0,
                    sets: descriptor_sets,
                },
            ),
    {
        self.commands.push(
            Command::BindDescriptorSets {
                bind_point: pipeline.bind_point(),
                layout: pipeline.layout(),
                first_set: 0,
                sets: descriptor_sets,
            },
        );
    }

    /// Leaves room, at this point of the recording, for commands that
    /// someone else records into the native command buffer at replay.
    pub fn external(&mut self, token: u64)
        ensures
            final(self)@ == old(self)@.with(Command::External { token }),
    {
        self.commands.push(Command::External { token });
    }

    /// Records a copy of regions of a buffer into an image that is in `layout`.
    pub fn copy_buffer_to_image(
        &mut self,
        buffer: &Buffer,
        image: &Image,
        layout: i32,
        regions: Vec<BufferImageCopy>,
    )
        ensures
            final(self)@ == old(self)@.with(
                Command::CopyBufferToImage {
                    buffer: buffer.buffer,
                    image: image.image,
                    image_layout: layout,
                    regions,
                },
            ),
    {
        self.commands.push(
            Command::CopyBufferToImage {
                buffer: buffer.buffer,
                image: image.image,
                image_layout: layout,
                regions,
            },
        );
    }

    /// Records a scaled copy of regions of one image into another, each in
    /// the layout given for it.
    pub fn blit_image(
        &mut self,
        src_image: &Image,
        src_layout: i32,
        dst_image: &Image,
        dst_layout: i32,
        regions: Vec<ImageBlit>,
        filter: i32,
    )
        ensures
            final(self)@ == old(self)@.with(
                Command::BlitImage {
                    src_image: src_image.image,
                    src_layout,
                    dst_image: dst_image.image,
                    dst_layout,
                    blits: regions,
                    filter,
                },
            ),
    {
        self.commands.push(
            Command::BlitImage {
                src_image: src_image.image,
                src_layout,
                dst_image: dst_image.image,
                dst_layout,
                blits: regions,
                filter,
            },
        );
    }

    /// Records the binding of a pipeline and references it, so that it
    /// outlives the execution of this recording.
    ///
    /// Fails, recording nothing, where the table does not know this unit or
    /// the pipeline's native object is already gone.
    pub fn bind_pipeline<P: Pipeline>(&mut self, table: &mut ResourceTable, pipeline: &P) -> (outcome:
        Result<(), ResourceError>)
        requires
            old(table)@.wf(),
        ensures
            final(table)@.wf(),
            final(table)@.owners == old(table)@.owners,
            final(table)@.destroyed == old(table)@.destroyed,
            outcome == (if old(self)@.holder >= old(table)@.references.len() {
                Err::<(), ResourceError>(ResourceError::UnknownHolder)
            } else if !old(table)@.is_live(pipeline.resource_id()) {
                Err::<(), ResourceError>(ResourceError::Stale)
            } else {
                Ok::<(), ResourceError>(())
            }),
            outcome is Err ==> final(self)@ == old(self)@ && final(table)@ == old(table)@,
            outcome is Ok ==> final(self)@ == old(self)@.with(
                Command::BindPipeline { bind_point: pipeline.point(), pipeline: pipeline.native() },
            ) && final(table)@.references == old(table)@.references.update(
                old(self)@.holder as int,
                old(table)@.references[old(self)@.holder as int].push(pipeline.resource_id()),
            ),
    {
        match table.add_reference(self.holder, pipeline.reference()) {
            Err(error) => Err(error),
            Ok(()) => {
                self.commands.push(
                    Command::BindPipeline {
                        bind_point: pipeline.bind_point(),
                        pipeline: pipeline.handle(),
                    },
                );
                Ok(())
            },
        }
    }

    /// Records the push of one image as a storage image at binding zero, and
    /// references the image.
    ///
    /// Fails as `bind_pipeline` does.
    pub fn bind_push_descriptor_image<P: Pipeline>(
        &mut self,
        table: &mut ResourceTable,
        pipeline: &P,
        image: &Image,
    ) -> (outcome: Result<(), ResourceError>)
        requires
            old(table)@.wf(),
        ensures
            final(table)@.wf(),
            final(table)@.owners == old(table)@.owners,
            final(table)@.destroyed == old(table)@.destroyed,
            final(self)@.holder == old(self)@.holder,
            outcome == (if old(self)@.holder >= old(table)@.references.len() {
                Err::<(), ResourceError>(ResourceError::UnknownHolder)
            } else if !old(table)@.is_live(image.resource) {
                Err::<(), ResourceError>(ResourceError::Stale)
            } else {
                Ok::<(), ResourceError>(())
            }),
            outcome is Err ==> final(self)@ == old(self)@ && final(table)@ == old(table)@,
            outcome is Ok ==> {
                &&& final(self)@.commands.len() == old(self)@.commands.len() + 1
                &&& final(self)@ == old(self)@.with(final(self)@.commands.last())
                &&& pushes_storage_images(
                    final(self)@.commands.last(),
                    pipeline.point(),
                    pipeline.native_layout(),
                    seq![*image],
                )
                &&& final(table)@.references == old(table)@.references.update(
                    old(self)@.holder as int,
                    old(table)@.references[old(self)@.holder as int].push(image.resource),
                )
            },
    {
        match table.add_reference(self.holder, image.resource) {
            Err(error) => Err(error),
            Ok(()) => {
                let mut image_info: Vec<DescriptorImageInfo> = Vec::new();
                image_info.push(image.binding(IMAGE_LAYOUT_GENERAL));
                let mut writes: Vec<WriteDescriptorSet> = Vec::new();
                writes.push(
                    WriteDescriptorSet {
                        dst_binding: 0,
                        dst_array_element: 0,
                        descriptor_type: DESCRIPTOR_TYPE_STORAGE_IMAGE,
                        image_info,
                        buffer_info: Vec::new(),
                    },
                );
                self.commands.push(
                    Command::PushDescriptorSet {
                        bind_point: pipeline.bind_point(),
                        layout: pipeline.layout(),
                        set: 0,
                        writes,
                    },
                );
                proof {
                    let pushed = self@.commands.last();
                    assert(self@.commands =~= old(self)@.commands.push(pushed));
                    assert(seq![*image].map_values(|image: Image| storage_binding(image))
                        =~= seq![storage_binding(*image)]);
                    assert(image_info@ =~= seq![storage_binding(*image)]);
                }
                Ok(())
            },
        }
    }

    /// Records the push of several images as storage images at binding zero,
    /// and references each of them.
    ///
    /// Fails, recording and referencing nothing, where the table does not
    /// know this unit or the native object of one of the images is gone.
    pub fn bind_push_descriptor_images<P: Pipeline>(
        &mut self,
        table: &mut ResourceTable,
        pipeline: &P,
        images: &Vec<Image>,
    ) -> (outcome: Result<(), ResourceError>)
        requires
            old(table)@.wf(),
        ensures
            final(table)@.wf(),
            final(table)@.owners == old(table)@.owners,
            final(table)@.destroyed == old(table)@.destroyed,
            final(self)@.holder == old(self)@.holder,
            outcome == (if old(self)@.holder >= old(table)@.references.len() {
                Err::<(), ResourceError>(ResourceError::UnknownHolder)
            } else if exists|i: int|
                0 <= i < images@.len() && !old(table)@.is_live(#[trigger] images@[i].resource) {
                Err::<(), ResourceError>(ResourceError::Stale)
            } else {
                Ok::<(), ResourceError>(())
            }),
            outcome is Err ==> final(self)@ == old(self)@ && final(table)@ == old(table)@,
            outcome is Ok ==> {
                &&& final(self)@.commands.len() == old(self)@.commands.len() + 1
                &&& final(self)@ == old(self)@.with(final(self)@.commands.last())
                &&& pushes_storage_images(
                    final(self)@.commands.last(),
                    pipeline.point(),
                    pipeline.native_layout(),
                    images@,
                )
                &&& final(table)@.references == old(table)@.references.update(
                    old(self)@.holder as int,
                    old(table)@.references[old(self)@.holder as int] + resources_of(images@),
                )
            },
    {
        if self.holder >= table.holder_count() {
            return Err(ResourceError::UnknownHolder);
        }
        let mut i: usize = 0;
        while i < images.len()
            invariant
                i <= images.len(),
                table@ == old(table)@,
                table@.wf(),
                self@ == old(self)@,
                self.holder < table@.references.len(),
                forall|j: int| 0 <= j < i ==> table@.is_live(#[trigger] images@[j].resource),
            decreases images.len() - i,
        {
            if !table.is_live(images[i].resource) {
                return Err(ResourceError::Stale);
            }
            i += 1;
        }
        let ghost before = table@;
        let ghost mine = before.references[self.holder as int];
        let mut image_info: Vec<DescriptorImageInfo> = Vec::new();
        let mut k: usize = 0;
        while k < images.len()
            invariant
                k <= images.len(),
                before == old(table)@,
                mine == before.references[self.holder as int],
                self.holder < before.references.len(),
                self@ == old(self)@,
                forall|j: int| 0 <= j < images@.len() ==> before.is_live(#[trigger] images@[j].resource),
                table@.wf(),
                table@.owners == before.owners,
                table@.destroyed == before.destroyed,
                table@.references == before.references.update(
                    self.holder as int,
                    mine + resources_of(images@.subrange(0, k as int)),
                ),
                image_info@ == images@.subrange(0, k as int).map_values(
                    |image: Image| storage_binding(image),
                ),
            decreases images.len() - k,
        {
            let ghost done = images@.subrange(0, k as int);
            let added = table.add_reference(self.holder, images[k].resource);
            image_info.push(images[k].binding(IMAGE_LAYOUT_GENERAL));
            proof {
                assert(before.is_live(images@[k as int].resource));
                assert(added is Ok);
                let next = images@.subrange(0, k + 1);
                assert(next =~= done.push(images@[k as int]));
                assert(resources_of(next) =~= resources_of(done).push(images@[k as int].resource));
                assert(mine + resources_of(next) =~= (mine + resources_of(done)).push(
                    images@[k as int].resource,
                ));
                assert(table@.references =~= before.references.update(
                    self.holder as int,
                    mine + resources_of(next),
                ));
                assert(image_info@ =~= next.map_values(|image: Image| storage_binding(image)));
            }
            k += 1;
        }
        proof {
            assert(images@.subrange(0, images@.len() as int) =~= images@);
        }
        let mut writes: Vec<WriteDescriptorSet> = Vec::new();
        writes.push(
            WriteDescriptorSet {
                dst_binding: 0,
                dst_array_element: 0,
                descriptor_type: DESCRIPTOR_TYPE_STORAGE_IMAGE,
                image_info,
                buffer_info: Vec::new(),
            },
        );
        self.commands.push(
            Command::PushDescriptorSet {
                bind_point: pipeline.bind_point(),
                layout: pipeline.layout(),
                set: 0,
                writes,
            },
        );
        proof {
            let pushed = self@.commands.last();
            assert(self@.commands =~= old(self)@.commands.push(pushed));
        }
        Ok(())
    }

    /// The native command buffer.
    pub fn handle(&self) -> (raw: u64)
        ensures
            raw == self@.handle,
    {
        self.handle
    }

    /// The fence that signals when the GPU has finished the recording.
    pub fn fence(&self) -> (raw: u64)
        ensures
            raw == self@.fence,
    {
        self.fence
    }

    /// The name under which the ownership table keeps this unit's references.
    pub fn holder(&self) -> (holder: HolderId)
        ensures
            holder == self@.holder,
    {
        self.holder
    }

    /// Whether a recording is under way.
    pub fn is_recording(&self) -> (recording: bool)
        ensures
            recording == self@.recording,
    {
        self.recording
    }

    /// The recorded commands, in order.
    pub fn commands(&self) -> (recorded: &Vec<Command>)
        ensures
            recorded@ == self@.commands,
    {
        &self.commands
    }
}

} // verus!
