//! The render pass that draws into a presentable image.

use vstd::prelude::*;
use crate::memory::GpuHandle;
use crate::memory::GpuResource;
use crate::memory::TeardownStep;
use crate::resources::ResourceId;
use crate::vk::IMAGE_LAYOUT_PRESENT_SRC;
use crate::vk::IMAGE_LAYOUT_UNDEFINED;
use crate::vk::PIPELINE_BIND_POINT_GRAPHICS;
use crate::vk::SAMPLE_COUNT_1;

verus! {

pub const ATTACHMENT_LOAD_OP_CLEAR: i32 = 1;
pub const ATTACHMENT_LOAD_OP_DONT_CARE: i32 = 2;
pub const ATTACHMENT_STORE_OP_STORE: i32 = 0;
pub const ATTACHMENT_STORE_OP_DONT_CARE: i32 = 1;
pub const IMAGE_LAYOUT_COLOR_ATTACHMENT_OPTIMAL: i32 = 2;

/// How one attachment is loaded, stored and laid out around a render pass.
#[derive(Clone, Copy, PartialEq, Eq, Structural, Debug)]
pub struct AttachmentDescription {
    pub format: i32,
    pub samples: u32,
    pub load_op: i32,
    pub store_op: i32,
    pub stencil_load_op: i32,
    pub stencil_store_op: i32,
    pub initial_layout: i32,
    pub final_layout: i32,
}

/// Which attachment a subpass uses, and in what layout.
#[derive(Clone, Copy, PartialEq, Eq, Structural, Debug)]
pub struct AttachmentReference {
    pub attachment: u32,
    pub layout: i32,
}

/// What the driver is told when the render pass is created: one colour
/// attachment and one graphics subpass that draws into it.
#[derive(Clone, Copy, PartialEq, Eq, Structural, Debug)]
pub struct RenderPassCreateInfo {
    pub color_attachment: AttachmentDescription,
    pub pipeline_bind_point: i32,
    pub color_reference: AttachmentReference,
}

/// A single-sampled attachment that is cleared at the start, kept at the
/// end, has no stencil, and ends up ready for display.
pub open spec fn presentable_pass(surface_format: i32) -> RenderPassCreateInfo {
    RenderPassCreateInfo {
        color_attachment: AttachmentDescription {
            format: surface_format,
            samples: SAMPLE_COUNT_1,
            load_op: ATTACHMENT_LOAD_OP_CLEAR,
            store_op: ATTACHMENT_STORE_OP_STORE,
            stencil_load_op: ATTACHMENT_LOAD_OP_DONT_CARE,
            stencil_store_op: ATTACHMENT_STORE_OP_DONT_CARE,
            initial_layout: IMAGE_LAYOUT_UNDEFINED,
            final_layout: IMAGE_LAYOUT_PRESENT_SRC,
        },
        pipeline_bind_point: PIPELINE_BIND_POINT_GRAPHICS,
        color_reference: AttachmentReference {
            attachment: 0,
            layout: IMAGE_LAYOUT_COLOR_ATTACHMENT_OPTIMAL,
        },
    }
}

/// A render pass.
#[derive(Clone, Copy, PartialEq, Eq, Structural, Debug)]
pub struct RenderPass {
    pub resource: ResourceId,
    pub renderpass: u64,
}

impl RenderPass {
    /// The creation request for a render pass that draws into images of the
    /// given format and leaves them ready for display.
    pub fn create_info(surface_format: i32) -> (info: RenderPassCreateInfo)
        ensures
            info == presentable_pass(surface_format),
    {
        RenderPassCreateInfo {
            color_attachment: AttachmentDescription {
                format: surface_format,
                samples: SAMPLE_COUNT_1,
                load_op: ATTACHMENT_LOAD_OP_CLEAR,
                store_op: ATTACHMENT_STORE_OP_STORE,
                stencil_load_op: ATTACHMENT_LOAD_OP_DONT_CARE,
                stencil_store_op: ATTACHMENT_STORE_OP_DONT_CARE,
                initial_layout: IMAGE_LAYOUT_UNDEFINED,
                final_layout: IMAGE_LAYOUT_PRESENT_SRC,
            },
            pipeline_bind_point: PIPELINE_BIND_POINT_GRAPHICS,
            color_reference: AttachmentReference {
                attachment: 0,
                layout: IMAGE_LAYOUT_COLOR_ATTACHMENT_OPTIMAL,
            },
        }
    }

    /// A render pass that was created.
    pub fn new(resource: ResourceId, renderpass: u64) -> (made: Self)
        ensures
            made == (RenderPass { resource, renderpass }),
    {
        RenderPass { resource, renderpass }
    }

    /// The native render pass.
    pub fn handle(&self) -> (raw: u64)
        ensures
            raw == self.renderpass,
    {
        self.renderpass
    }
}

impl GpuResource for RenderPass {
    open spec fn resource_id(&self) -> ResourceId {
        self.resource
    }

    fn reference(&self) -> (id: ResourceId) {
        self.resource
    }
}

impl GpuHandle for RenderPass {
    open spec fn teardown_steps(&self) -> Seq<TeardownStep> {
        seq![TeardownStep::DestroyRenderPass(self.renderpass)]
    }

    fn teardown(self) -> (steps: Vec<TeardownStep>) {
        let mut steps: Vec<TeardownStep> = Vec::new();
        steps.push(TeardownStep::DestroyRenderPass(self.renderpass));
        proof {
            assert(steps@ =~= self.teardown_steps());
        }
        steps
    }
}

} // verus!
