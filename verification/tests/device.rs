use cen::device::device_extensions;
use cen::device::device_features;
use cen::device::find_queue_family;
use cen::device::instance_create_flags;
use cen::device::instance_extensions;
use cen::device::select_physical_device;
use cen::device::wants_surface_support;
use cen::device::DeviceChoice;
use cen::device::Extension;
use cen::device::QueueFamily;
use cen::vk::Platform;

fn family(queue_flags: u32, supports_surface: bool) -> QueueFamily {
    QueueFamily { queue_flags, supports_surface }
}

#[test]
fn first_family_that_draws_and_presents_is_found() {
    let families = vec![family(0x2, true), family(0x1, false), family(0x7, true), family(0x1, true)];
    assert_eq!(find_queue_family(&families), Some(2));
}

#[test]
fn compute_only_family_is_not_suitable() {
    assert_eq!(find_queue_family(&vec![family(0x2 | 0x4, true)]), None);
    assert_eq!(find_queue_family(&vec![family(0x1, false)]), None);
    assert_eq!(find_queue_family(&vec![]), None);
}

#[test]
fn first_suitable_device_is_chosen() {
    let devices = vec![
        vec![family(0x2, true)],
        vec![family(0x4, true), family(0x3, true)],
        vec![family(0x1, true)],
    ];
    assert_eq!(select_physical_device(&devices), Some(DeviceChoice { device: 1, queue_family_index: 1 }));
}

#[test]
fn no_suitable_device_is_reported() {
    assert_eq!(select_physical_device(&vec![vec![family(0x2, true)], vec![]]), None);
    assert_eq!(select_physical_device(&vec![]), None);
}

#[test]
fn device_extensions_depend_on_the_platform() {
    let common = vec![Extension::Swapchain, Extension::PushDescriptor, Extension::DynamicRendering];
    assert_eq!(device_extensions(Platform::Linux), common);
    assert_eq!(device_extensions(Platform::Windows), common);
    assert_eq!(
        device_extensions(Platform::MacOs),
        vec![
            Extension::Swapchain,
            Extension::PushDescriptor,
            Extension::DynamicRendering,
            Extension::PortabilitySubset
        ]
    );
}

#[test]
fn instance_extensions_depend_on_the_platform() {
    assert_eq!(
        instance_extensions(Platform::Linux),
        vec![Extension::DebugUtils, Extension::GetPhysicalDeviceProperties2]
    );
    assert_eq!(
        instance_extensions(Platform::MacOs),
        vec![
            Extension::DebugUtils,
            Extension::GetPhysicalDeviceProperties2,
            Extension::PortabilityEnumeration,
            Extension::GetPhysicalDeviceProperties2
        ]
    );
    assert_eq!(instance_create_flags(Platform::Linux), 0);
    assert_eq!(instance_create_flags(Platform::MacOs), 1);
}

#[test]
fn device_features_enable_clip_distance_and_dynamic_rendering() {
    let features = device_features();
    assert!(features.shader_clip_distance);
    assert!(features.dynamic_rendering);
}

#[test]
fn only_drawing_families_are_asked_for_surface_support() {
    assert!(wants_surface_support(0x1));
    assert!(wants_surface_support(0x7));
    assert!(!wants_surface_support(0x6));
    assert!(!wants_surface_support(0));
}
