use cen::allocator::Allocator;
use cen::allocator::AllocatorError;
use cen::buffer::Allocation;
use cen::component::Component;
use cen::component::ComponentRegistry;
use cen::config::AppConfig;
use cen::descriptor_pool::DescriptorPool;
use cen::engine::user_event;
use cen::engine::window_event;
use cen::engine::window_plan;
use cen::engine::FpsCounter;
use cen::engine::FpsReport;
use cen::engine::KeyPress;
use cen::engine::UserAction;
use cen::engine::WindowAction;
use cen::engine::WindowEventKind;
use cen::events::UserEvent;
use cen::memory::GpuHandle;
use cen::memory::GpuResource;
use cen::memory::TeardownStep;
use cen::renderpass::RenderPass;
use cen::shader_path::ShaderPath;

#[test]
fn closing_escape_and_q_exit() {
    assert_eq!(window_event(WindowEventKind::CloseRequested), WindowAction::Exit);
    assert_eq!(window_event(WindowEventKind::KeyPressed(KeyPress::Escape)), WindowAction::Exit);
    assert_eq!(window_event(WindowEventKind::KeyPressed(KeyPress::Character('q'))), WindowAction::Exit);
    assert_eq!(window_event(WindowEventKind::KeyPressed(KeyPress::Character('Q'))), WindowAction::Ignore);
    assert_eq!(window_event(WindowEventKind::KeyPressed(KeyPress::Character('w'))), WindowAction::Ignore);
    assert_eq!(window_event(WindowEventKind::KeyPressed(KeyPress::Other)), WindowAction::Ignore);
}

#[test]
fn redraw_draws_and_resize_recreates() {
    assert_eq!(window_event(WindowEventKind::RedrawRequested), WindowAction::Draw);
    assert_eq!(window_event(WindowEventKind::Resized), WindowAction::RecreateWindow);
    assert_eq!(window_event(WindowEventKind::ScaleFactorChanged), WindowAction::RecreateWindow);
    assert_eq!(window_event(WindowEventKind::Other), WindowAction::Ignore);
}

#[test]
fn shader_update_asks_for_a_reload() {
    let path = ShaderPath::new(vec!["a.comp".to_string()]);
    assert_eq!(user_event(UserEvent::GlslUpdate(path.clone())), UserAction::Reload(path));
    assert_eq!(user_event(UserEvent::Idle), UserAction::Ignore);
}

#[test]
fn window_plan_follows_the_settings() {
    let plan = window_plan(&AppConfig::default().width(320).height(200).fullscreen(true));
    assert_eq!(plan.width, 320);
    assert_eq!(plan.height, 200);
    assert!(plan.fullscreen);
    assert!(!plan.resizable);
    assert!(window_plan(&AppConfig::default().resizable(true)).resizable);
}

#[test]
fn frames_are_reported_once_a_second() {
    let mut counter = FpsCounter::new();
    assert_eq!(counter.frame_drawn(10), None);
    assert_eq!(counter.frame_drawn(500), None);
    assert_eq!(counter.frame_drawn(999), None);
    assert_eq!(counter.frame_count, 3);
    assert_eq!(counter.frame_drawn(1000), Some(FpsReport { frames: 4, elapsed_millis: 1000 }));
    assert_eq!(counter.frame_count, 0);
    assert_eq!(counter.frame_drawn(2500), Some(FpsReport { frames: 1, elapsed_millis: 2500 }));
}

#[test]
fn frame_count_stops_at_the_largest_number() {
    let mut counter = FpsCounter { frame_count: usize::MAX };
    assert_eq!(counter.frame_drawn(1), None);
    assert_eq!(counter.frame_count, usize::MAX);
}

#[test]
fn registry_keeps_components_apart_and_in_order() {
    let registry: ComponentRegistry<&str, u32> = ComponentRegistry::new()
        .register(Component::Render("sky"))
        .register(Component::Gui(1))
        .register(Component::Render("terrain"))
        .register(Component::Gui(2));
    assert_eq!(registry.len(), 4);
    assert_eq!(registry.render_components(), vec![&"sky", &"terrain"]);
    assert_eq!(registry.gui_components(), vec![&1, &2]);
}

#[test]
fn empty_registry_has_no_components() {
    let registry: ComponentRegistry<u8, u8> = ComponentRegistry::new();
    assert_eq!(registry.len(), 0);
    assert!(registry.render_components().is_empty());
    assert!(registry.gui_components().is_empty());
}

#[test]
fn render_pass_clears_and_presents() {
    let info = RenderPass::create_info(43);
    assert_eq!(info.color_attachment.format, 43);
    assert_eq!(info.color_attachment.samples, 1);
    assert_eq!(info.color_attachment.load_op, ash::vk::AttachmentLoadOp::CLEAR.as_raw());
    assert_eq!(info.color_attachment.store_op, ash::vk::AttachmentStoreOp::STORE.as_raw());
    assert_eq!(info.color_attachment.stencil_load_op, ash::vk::AttachmentLoadOp::DONT_CARE.as_raw());
    assert_eq!(info.color_attachment.stencil_store_op, ash::vk::AttachmentStoreOp::DONT_CARE.as_raw());
    assert_eq!(info.color_attachment.initial_layout, ash::vk::ImageLayout::UNDEFINED.as_raw());
    assert_eq!(info.color_attachment.final_layout, ash::vk::ImageLayout::PRESENT_SRC_KHR.as_raw());
    assert_eq!(info.pipeline_bind_point, ash::vk::PipelineBindPoint::GRAPHICS.as_raw());
    assert_eq!(info.color_reference.attachment, 0);
    assert_eq!(info.color_reference.layout, ash::vk::ImageLayout::COLOR_ATTACHMENT_OPTIMAL.as_raw());
    let pass = RenderPass::new(3, 77);
    assert_eq!(pass.handle(), 77);
    assert_eq!(pass.reference(), 3);
    assert_eq!(pass.teardown(), vec![TeardownStep::DestroyRenderPass(77)]);
}

#[test]
fn descriptor_pool_holds_one_sampler_per_set() {
    let info = DescriptorPool::create_info(10000);
    assert_eq!(info.max_sets, 10000);
    assert_eq!(info.pool_size.descriptor_count, 10000);
    assert_eq!(info.pool_size.ty, 1);
    assert_eq!(info.flags, 1);
    let pool = DescriptorPool::new(5);
    assert_eq!(pool.handle(), 5);
    assert_eq!(pool.teardown(), vec![TeardownStep::DestroyDescriptorPool(5)]);
}

#[test]
fn allocator_goes_only_after_all_memory_came_back() {
    let mut allocator = Allocator::new(Allocator::default_desc());
    assert!(!Allocator::default_desc().buffer_device_address);
    assert_eq!(allocator.live_allocations(), 0);
    assert_eq!(allocator.allocate(true), Ok(Allocation { mapped: true }));
    assert_eq!(allocator.allocate(false), Ok(Allocation { mapped: false }));
    assert_eq!(allocator.live_allocations(), 2);
    let allocator = match allocator.teardown() {
        Err((kept, error)) => {
            assert_eq!(error, AllocatorError::StillInUse(2));
            kept
        }
        Ok(()) => panic!("torn down with memory still out"),
    };
    let mut allocator = allocator;
    assert_eq!(allocator.free(Allocation { mapped: true }), Ok(()));
    assert_eq!(allocator.free(Allocation { mapped: false }), Ok(()));
    assert_eq!(allocator.free(Allocation { mapped: false }), Err(AllocatorError::NothingAllocated));
    assert_eq!(allocator.live_allocations(), 0);
    assert!(allocator.teardown().is_ok());
}
