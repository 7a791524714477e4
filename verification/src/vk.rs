//! Plain values of the graphics API: extents, formats, flag words and the raw
//! codes the engine's rules refer to.

use vstd::prelude::*;

verus! {

pub const FORMAT_R8G8B8A8_UNORM: i32 = 37;
pub const FORMAT_R8G8B8A8_SRGB: i32 = 43;
pub const FORMAT_B8G8R8A8_SRGB: i32 = 50;
pub const COLOR_SPACE_SRGB_NONLINEAR: i32 = 0;

pub const PRESENT_MODE_IMMEDIATE: i32 = 0;
pub const PRESENT_MODE_FIFO: i32 = 2;

pub const IMAGE_LAYOUT_UNDEFINED: i32 = 0;
pub const IMAGE_LAYOUT_GENERAL: i32 = 1;
pub const IMAGE_LAYOUT_TRANSFER_DST_OPTIMAL: i32 = 7;
pub const IMAGE_LAYOUT_PRESENT_SRC: i32 = 1_000_001_002;

pub const SHARING_MODE_EXCLUSIVE: i32 = 0;
pub const IMAGE_TYPE_2D: i32 = 1;
pub const IMAGE_VIEW_TYPE_2D: i32 = 1;
pub const COMPONENT_SWIZZLE_R: i32 = 3;
pub const COMPONENT_SWIZZLE_G: i32 = 4;
pub const COMPONENT_SWIZZLE_B: i32 = 5;
pub const COMPONENT_SWIZZLE_A: i32 = 6;
pub const DESCRIPTOR_TYPE_COMBINED_IMAGE_SAMPLER: i32 = 1;
pub const DESCRIPTOR_TYPE_STORAGE_IMAGE: i32 = 3;
pub const PIPELINE_BIND_POINT_GRAPHICS: i32 = 0;
pub const PIPELINE_BIND_POINT_COMPUTE: i32 = 1;

pub const IMAGE_USAGE_TRANSFER_DST: u32 = 0x2;
pub const IMAGE_USAGE_COLOR_ATTACHMENT: u32 = 0x10;
pub const SURFACE_TRANSFORM_IDENTITY: u32 = 0x1;
pub const COMPOSITE_ALPHA_OPAQUE: u32 = 0x1;
pub const QUEUE_GRAPHICS: u32 = 0x1;
pub const IMAGE_ASPECT_COLOR: u32 = 0x1;
pub const SAMPLE_COUNT_1: u32 = 0x1;
pub const SHADER_STAGE_COMPUTE: u32 = 0x20;
pub const DESCRIPTOR_POOL_FREE_DESCRIPTOR_SET: u32 = 0x1;

pub const PIPELINE_STAGE_TOP_OF_PIPE: u32 = 0x1;
pub const PIPELINE_STAGE_TRANSFER: u32 = 0x1000;
pub const PIPELINE_STAGE_BOTTOM_OF_PIPE: u32 = 0x2000;
pub const ACCESS_NONE: u32 = 0;
pub const ACCESS_MEMORY_WRITE: u32 = 0x1_0000;

pub const QUEUE_FAMILY_IGNORED: u32 = 0xffff_ffff;

pub const RESULT_SUCCESS: i32 = 0;
pub const RESULT_SUBOPTIMAL: i32 = 1_000_001_003;
pub const RESULT_ERROR_OUT_OF_DATE: i32 = -1_000_001_004;

/// The operating system the engine was built for.
#[derive(Clone, Copy, PartialEq, Eq, Structural, Debug)]
pub enum Platform {
    Linux,
    Windows,
    MacOs,
}

/// Width and height in pixels.
#[derive(Clone, Copy, PartialEq, Eq, Structural, Debug)]
pub struct Extent2D {
    pub width: u32,
    pub height: u32,
}

/// Width, height and depth in pixels.
#[derive(Clone, Copy, PartialEq, Eq, Structural, Debug)]
pub struct Extent3D {
    pub width: u32,
    pub height: u32,
    pub depth: u32,
}

/// A signed position in pixels.
#[derive(Clone, Copy, PartialEq, Eq, Structural, Debug)]
pub struct Offset2D {
    pub x: i32,
    pub y: i32,
}

/// A signed position in a volume of pixels.
#[derive(Clone, Copy, PartialEq, Eq, Structural, Debug)]
pub struct Offset3D {
    pub x: i32,
    pub y: i32,
    pub z: i32,
}

/// A rectangle of pixels.
#[derive(Clone, Copy, PartialEq, Eq, Structural, Debug)]
pub struct Rect2D {
    pub offset: Offset2D,
    pub extent: Extent2D,
}

/// A pixel format together with the colour space it is presented in.
#[derive(Clone, Copy, PartialEq, Eq, Structural, Debug)]
pub struct SurfaceFormat {
    pub format: i32,
    pub color_space: i32,
}

/// Whether every bit of `wanted` is set in `flags`.
pub open spec fn flags_contain(flags: u32, wanted: u32) -> bool {
    flags & wanted == wanted
}

/// `ash::vk::SurfaceTransformFlagsKHR::contains` on two raw flag words: true
/// exactly when every transform bit of `wanted` is also set in `flags`.
/// This is assumed of the outside function, not proved.
#[verifier::external_body]
pub(crate) fn transform_flags_contain(flags: u32, wanted: u32) -> (found: bool)
    ensures
        found == flags_contain(flags, wanted),
{
    ash::vk::SurfaceTransformFlagsKHR::from_raw(flags).contains(
        ash::vk::SurfaceTransformFlagsKHR::from_raw(wanted),
    )
}

/// `ash::vk::QueueFlags::contains` on two raw flag words: true exactly when
/// every capability bit of `wanted` is also set in `flags`. This is assumed
/// of the outside function, not proved.
#[verifier::external_body]
pub(crate) fn queue_flags_contain(flags: u32, wanted: u32) -> (found: bool)
    ensures
        found == flags_contain(flags, wanted),
{
    ash::vk::QueueFlags::from_raw(flags).contains(ash::vk::QueueFlags::from_raw(wanted))
}

} // verus!
