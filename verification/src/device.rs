//! The connection to the GPU: which physical device and queue family are
//! chosen, and what the instance and the device are created with.

use vstd::prelude::*;
use crate::vk::flags_contain;
use crate::vk::queue_flags_contain;
use crate::vk::Platform;
use crate::vk::QUEUE_GRAPHICS;

verus! {

/// What is known of one queue family of a physical device.
#[derive(Clone, Copy, PartialEq, Eq, Structural, Debug)]
pub struct QueueFamily {
    /// The capabilities of the family's queues.
    pub queue_flags: u32,
    /// Whether the family's queues can present to the surface.
    pub supports_surface: bool,
}

/// A physical device and one of its queue families.
#[derive(Clone, Copy, PartialEq, Eq, Structural, Debug)]
pub struct DeviceChoice {
    /// The device's position among the enumerated devices.
    pub device: usize,
    pub queue_family_index: u32,
}

/// An extension of the instance or of the device.
#[derive(Clone, Copy, PartialEq, Eq, Structural, Debug)]
pub enum Extension {
    Swapchain,
    PushDescriptor,
    DynamicRendering,
    PortabilitySubset,
    DebugUtils,
    GetPhysicalDeviceProperties2,
    PortabilityEnumeration,
}

/// The features a device is created with.
#[derive(Clone, Copy, PartialEq, Eq, Structural, Debug)]
pub struct DeviceFeatures {
    pub shader_clip_distance: bool,
    pub dynamic_rendering: bool,
}

/// The flag that lets the loader enumerate portability devices.
pub const INSTANCE_ENUMERATE_PORTABILITY: u32 = 0x1;

/// Whether a queue family can both draw and present.
pub open spec fn is_suitable(family: QueueFamily) -> bool {
    flags_contain(family.queue_flags, QUEUE_GRAPHICS) && family.supports_surface
}

/// Whether a device has a suitable queue family.
pub open spec fn has_suitable_family(families: Seq<QueueFamily>) -> bool {
    exists|f: int| 0 <= f < families.len() && is_suitable(#[trigger] families[f])
}

/// Whether `choice` is the first suitable family of the first device that has one.
pub open spec fn is_first_suitable(devices: Seq<Seq<QueueFamily>>, choice: DeviceChoice) -> bool {
    &&& choice.device < devices.len()
    &&& choice.queue_family_index < devices[choice.device as int].len()
    &&& is_suitable(devices[choice.device as int][choice.queue_family_index as int])
    &&& forall|f: int|
        0 <= f < choice.queue_family_index ==> !is_suitable(
            #[trigger] devices[choice.device as int][f],
        )
    &&& forall|d: int| 0 <= d < choice.device ==> !has_suitable_family(#[trigger] devices[d])
}

/// The version of the graphics API that is asked for, as variant, major,
/// minor and patch packed into one number.
pub open spec fn packed_version(variant: u32, major: u32, minor: u32, patch: u32) -> u32 {
    (variant << 29) | (major << 22) | (minor << 12) | patch
}

/// `ash::vk::make_api_version`: the four parts packed into one number,
/// variant from bit 29, major from bit 22, minor from bit 12, patch below.
/// This is assumed of the outside function, not proved.
#[verifier::external_body]
fn make_api_version(variant: u32, major: u32, minor: u32, patch: u32) -> (version: u32)
    ensures
        version == packed_version(variant, major, minor, patch),
{
    ash::vk::make_api_version(variant, major, minor, patch)
}

/// The API version the engine asks for: 1.2.0.
pub fn api_version() -> (version: u32)
    ensures
        version == 0x0040_2000,
{
    let version = make_api_version(0, 1, 2, 0);
    assert((0u32 << 29) | (1u32 << 22) | (2u32 << 12) | 0u32 == 0x0040_2000u32) by (bit_vector);
    version
}

/// Tells whether a queue family has to be asked for surface support at
/// all: only a family that can draw can be suitable.
pub fn wants_surface_support(queue_flags: u32) -> (wanted: bool)
    ensures
        wanted == flags_contain(queue_flags, QUEUE_GRAPHICS),
{
    queue_flags_contain(queue_flags, QUEUE_GRAPHICS)
}

/// Finds the first suitable queue family of one device.
pub fn find_queue_family(families: &Vec<QueueFamily>) -> (found: Option<u32>)
    ensures
        found is Some <==> has_suitable_family(families@) && families@.len() <= u32::MAX,
        found matches Some(index) ==> index < families@.len() && is_suitable(families@[index as int])
            && forall|f: int| 0 <= f < index ==> !is_suitable(#[trigger] families@[f]),
        found is None && families@.len() <= u32::MAX ==> !has_suitable_family(families@),
{
    if families.len() > 0xffff_ffff {
        return None;
    }
    let mut f: u32 = 0;
    while (f as usize) < families.len()
        invariant
            f <= families@.len() <= u32::MAX,
            forall|g: int| 0 <= g < f ==> !is_suitable(#[trigger] families@[g]),
        decreases families@.len() - f,
    {
        let family = &families[f as usize];
        if queue_flags_contain(family.queue_flags, QUEUE_GRAPHICS) && family.supports_surface {
            return Some(f);
        }
        f += 1;
    }
    None
}

/// Chooses the physical device and queue family to render and present
/// with: the first suitable family of the first device that has one.
///
/// Every device must list at most `u32::MAX` families, as the graphics API
/// counts them with 32 bits.
pub fn select_physical_device(devices: &Vec<Vec<QueueFamily>>) -> (chosen: Option<DeviceChoice>)
    requires
        forall|d: int| 0 <= d < devices@.len() ==> (#[trigger] devices@[d])@.len() <= u32::MAX,
    ensures
        chosen is Some <==> exists|d: int|
            0 <= d < devices@.len() && has_suitable_family(#[trigger] devices@[d]@),
        chosen matches Some(choice) ==> is_first_suitable(
            devices@.map_values(|families: Vec<QueueFamily>| families@),
            choice,
        ),
{
    let mut d: usize = 0;
    while d < devices.len()
        invariant
            d <= devices@.len(),
            forall|e: int| 0 <= e < devices@.len() ==> (#[trigger] devices@[e])@.len() <= u32::MAX,
            forall|e: int| 0 <= e < d ==> !has_suitable_family(#[trigger] devices@[e]@),
        decreases devices@.len() - d,
    {
        match find_queue_family(&devices[d]) {
            Some(queue_family_index) => {
                proof {
                    let views = devices@.map_values(|families: Vec<QueueFamily>| families@);
                    assert(views[d as int] == devices@[d as int]@);
                    assert forall|e: int| 0 <= e < d implies !has_suitable_family(#[trigger] views[e]) by {
                        assert(views[e] == devices@[e]@);
                    }
                }
                return Some(DeviceChoice { device: d, queue_family_index });
            },
            None => {},
        }
        d += 1;
    }
    None
}

/// The extensions a device is created with.
pub open spec fn required_device_extensions(platform: Platform) -> Seq<Extension> {
    let common = seq![Extension::Swapchain, Extension::PushDescriptor, Extension::DynamicRendering];
    if platform == Platform::MacOs {
        common.push(Extension::PortabilitySubset)
    } else {
        common
    }
}

/// The extensions an instance is created with, after those the window
/// system asks for.
pub open spec fn required_instance_extensions(platform: Platform) -> Seq<Extension> {
    let common = seq![Extension::DebugUtils, Extension::GetPhysicalDeviceProperties2];
    if platform == Platform::MacOs {
        common.push(Extension::PortabilityEnumeration).push(Extension::GetPhysicalDeviceProperties2)
    } else {
        common
    }
}

/// Lists the extensions a device is created with.
pub fn device_extensions(platform: Platform) -> (extensions: Vec<Extension>)
    ensures
        extensions@ == required_device_extensions(platform),
{
    let mut extensions: Vec<Extension> = Vec::new();
    extensions.push(Extension::Swapchain);
    extensions.push(Extension::PushDescriptor);
    extensions.push(Extension::DynamicRendering);
    match platform {
        Platform::MacOs => {
            extensions.push(Extension::PortabilitySubset);
        },
        _ => {},
    }
    proof {
        assert(extensions@ =~= required_device_extensions(platform));
    }
    extensions
}

/// Lists the extensions an instance is created with, after those the
/// window system asks for.
pub fn instance_extensions(platform: Platform) -> (extensions: Vec<Extension>)
    ensures
        extensions@ == required_instance_extensions(platform),
{
    let mut extensions: Vec<Extension> = Vec::new();
    extensions.push(Extension::DebugUtils);
    extensions.push(Extension::GetPhysicalDeviceProperties2);
    match platform {
        Platform::MacOs => {
            extensions.push(Extension::PortabilityEnumeration);
            extensions.push(Extension::GetPhysicalDeviceProperties2);
        },
        _ => {},
    }
    proof {
        assert(extensions@ =~= required_instance_extensions(platform));
    }
    extensions
}

/// The flags an instance is created with: portability devices are
/// enumerated on macOS, and nowhere else.
pub fn instance_create_flags(platform: Platform) -> (flags: u32)
    ensures
        flags == (if platform == Platform::MacOs {
            INSTANCE_ENUMERATE_PORTABILITY
        } else {
            0
        }),
{
    match platform {
        Platform::MacOs => INSTANCE_ENUMERATE_PORTABILITY,
        _ => 0,
    }
}

/// The features a device is created with: clip distances in shaders, and
/// rendering without render pass objects.
pub fn device_features() -> (features: DeviceFeatures)
    ensures
        features == (DeviceFeatures { shader_clip_distance: true, dynamic_rendering: true }),
{
    DeviceFeatures { shader_clip_distance: true, dynamic_rendering: true }
}

} // verus!
