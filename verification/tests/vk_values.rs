use ash::vk;
use cen::device::api_version;
use cen::pipeline;
use cen::vk as raw;

#[test]
fn formats_and_color_space_match_the_api() {
    assert_eq!(raw::FORMAT_R8G8B8A8_UNORM, vk::Format::R8G8B8A8_UNORM.as_raw());
    assert_eq!(raw::FORMAT_R8G8B8A8_SRGB, vk::Format::R8G8B8A8_SRGB.as_raw());
    assert_eq!(raw::FORMAT_B8G8R8A8_SRGB, vk::Format::B8G8R8A8_SRGB.as_raw());
    assert_eq!(raw::COLOR_SPACE_SRGB_NONLINEAR, vk::ColorSpaceKHR::SRGB_NONLINEAR.as_raw());
}

#[test]
fn present_modes_match_the_api() {
    assert_eq!(raw::PRESENT_MODE_IMMEDIATE, vk::PresentModeKHR::IMMEDIATE.as_raw());
    assert_eq!(raw::PRESENT_MODE_FIFO, vk::PresentModeKHR::FIFO.as_raw());
}

#[test]
fn layouts_match_the_api() {
    assert_eq!(raw::IMAGE_LAYOUT_UNDEFINED, vk::ImageLayout::UNDEFINED.as_raw());
    assert_eq!(raw::IMAGE_LAYOUT_GENERAL, vk::ImageLayout::GENERAL.as_raw());
    assert_eq!(raw::IMAGE_LAYOUT_TRANSFER_DST_OPTIMAL, vk::ImageLayout::TRANSFER_DST_OPTIMAL.as_raw());
    assert_eq!(raw::IMAGE_LAYOUT_PRESENT_SRC, vk::ImageLayout::PRESENT_SRC_KHR.as_raw());
}

#[test]
fn enumerations_match_the_api() {
    assert_eq!(raw::SHARING_MODE_EXCLUSIVE, vk::SharingMode::EXCLUSIVE.as_raw());
    assert_eq!(raw::IMAGE_TYPE_2D, vk::ImageType::TYPE_2D.as_raw());
    assert_eq!(raw::IMAGE_VIEW_TYPE_2D, vk::ImageViewType::TYPE_2D.as_raw());
    assert_eq!(raw::COMPONENT_SWIZZLE_R, vk::ComponentSwizzle::R.as_raw());
    assert_eq!(raw::COMPONENT_SWIZZLE_G, vk::ComponentSwizzle::G.as_raw());
    assert_eq!(raw::COMPONENT_SWIZZLE_B, vk::ComponentSwizzle::B.as_raw());
    assert_eq!(raw::COMPONENT_SWIZZLE_A, vk::ComponentSwizzle::A.as_raw());
    assert_eq!(raw::DESCRIPTOR_TYPE_COMBINED_IMAGE_SAMPLER, vk::DescriptorType::COMBINED_IMAGE_SAMPLER.as_raw());
    assert_eq!(raw::DESCRIPTOR_TYPE_STORAGE_IMAGE, vk::DescriptorType::STORAGE_IMAGE.as_raw());
    assert_eq!(raw::PIPELINE_BIND_POINT_GRAPHICS, vk::PipelineBindPoint::GRAPHICS.as_raw());
    assert_eq!(raw::PIPELINE_BIND_POINT_COMPUTE, vk::PipelineBindPoint::COMPUTE.as_raw());
}

#[test]
fn flag_bits_match_the_api() {
    assert_eq!(raw::IMAGE_USAGE_TRANSFER_DST, vk::ImageUsageFlags::TRANSFER_DST.as_raw());
    assert_eq!(raw::IMAGE_USAGE_COLOR_ATTACHMENT, vk::ImageUsageFlags::COLOR_ATTACHMENT.as_raw());
    assert_eq!(raw::SURFACE_TRANSFORM_IDENTITY, vk::SurfaceTransformFlagsKHR::IDENTITY.as_raw());
    assert_eq!(raw::COMPOSITE_ALPHA_OPAQUE, vk::CompositeAlphaFlagsKHR::OPAQUE.as_raw());
    assert_eq!(raw::QUEUE_GRAPHICS, vk::QueueFlags::GRAPHICS.as_raw());
    assert_eq!(raw::IMAGE_ASPECT_COLOR, vk::ImageAspectFlags::COLOR.as_raw());
    assert_eq!(raw::SAMPLE_COUNT_1, vk::SampleCountFlags::TYPE_1.as_raw());
    assert_eq!(raw::SHADER_STAGE_COMPUTE, vk::ShaderStageFlags::COMPUTE.as_raw());
    assert_eq!(raw::DESCRIPTOR_POOL_FREE_DESCRIPTOR_SET, vk::DescriptorPoolCreateFlags::FREE_DESCRIPTOR_SET.as_raw());
    assert_eq!(raw::PIPELINE_STAGE_TOP_OF_PIPE, vk::PipelineStageFlags::TOP_OF_PIPE.as_raw());
    assert_eq!(raw::PIPELINE_STAGE_TRANSFER, vk::PipelineStageFlags::TRANSFER.as_raw());
    assert_eq!(raw::PIPELINE_STAGE_BOTTOM_OF_PIPE, vk::PipelineStageFlags::BOTTOM_OF_PIPE.as_raw());
    assert_eq!(raw::ACCESS_NONE, vk::AccessFlags::empty().as_raw());
    assert_eq!(raw::ACCESS_MEMORY_WRITE, vk::AccessFlags::MEMORY_WRITE.as_raw());
    assert_eq!(raw::QUEUE_FAMILY_IGNORED, vk::QUEUE_FAMILY_IGNORED);
}

#[test]
fn result_codes_match_the_api() {
    assert_eq!(raw::RESULT_SUCCESS, vk::Result::SUCCESS.as_raw());
    assert_eq!(raw::RESULT_SUBOPTIMAL, vk::Result::SUBOPTIMAL_KHR.as_raw());
    assert_eq!(raw::RESULT_ERROR_OUT_OF_DATE, vk::Result::ERROR_OUT_OF_DATE_KHR.as_raw());
}

#[test]
fn pipeline_state_codes_match_the_api() {
    assert_eq!(pipeline::SHADER_STAGE_VERTEX, vk::ShaderStageFlags::VERTEX.as_raw());
    assert_eq!(pipeline::SHADER_STAGE_FRAGMENT, vk::ShaderStageFlags::FRAGMENT.as_raw());
    assert_eq!(pipeline::PRIMITIVE_TOPOLOGY_TRIANGLE_LIST, vk::PrimitiveTopology::TRIANGLE_LIST.as_raw());
    assert_eq!(pipeline::POLYGON_MODE_FILL, vk::PolygonMode::FILL.as_raw());
    assert_eq!(pipeline::CULL_MODE_BACK, vk::CullModeFlags::BACK.as_raw());
    assert_eq!(pipeline::FRONT_FACE_CLOCKWISE, vk::FrontFace::CLOCKWISE.as_raw());
    assert_eq!(pipeline::COLOR_COMPONENT_RGBA, vk::ColorComponentFlags::RGBA.as_raw());
    assert_eq!(pipeline::BLEND_FACTOR_ZERO, vk::BlendFactor::ZERO.as_raw());
    assert_eq!(pipeline::BLEND_FACTOR_ONE, vk::BlendFactor::ONE.as_raw());
    assert_eq!(pipeline::BLEND_OP_ADD, vk::BlendOp::ADD.as_raw());
    assert_eq!(pipeline::LOGIC_OP_COPY, vk::LogicOp::COPY.as_raw());
    assert_eq!(pipeline::COMPARE_OP_ALWAYS, vk::CompareOp::ALWAYS.as_raw());
    assert_eq!(pipeline::DYNAMIC_STATE_VIEWPORT, vk::DynamicState::VIEWPORT.as_raw());
    assert_eq!(pipeline::DYNAMIC_STATE_SCISSOR, vk::DynamicState::SCISSOR.as_raw());
    assert_eq!(pipeline::ONE_BITS, 1.0f32.to_bits());
}

#[test]
fn api_version_is_one_two_zero() {
    assert_eq!(api_version(), vk::make_api_version(0, 1, 2, 0));
    assert_eq!(api_version(), 0x0040_2000);
    assert_eq!(vk::api_version_major(api_version()), 1);
    assert_eq!(vk::api_version_minor(api_version()), 2);
}
