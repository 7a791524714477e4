//! Frame orchestration and GPU resource-lifetime rules of a small real-time
//! rendering engine, stated as contracts and proved.
//!
//! The library decides; the program around it talks to the graphics driver.
//! Every native object is named here by its raw handle or by the identifier
//! the ownership table gave it.
//!
//! - `resources` keeps the ownership table: owners and references of every
//!   GPU resource, and when a native object may be destroyed.
//! - `command_buffer` records commands for replay and references what they use.
//! - `frame_ring` schedules the frame slots; `renderer` takes a frame through
//!   fence, callbacks, acquire, record, submit and present.
//! - `pipeline_store` registers pipelines under stable keys and replaces
//!   them in place on reload; `events` turns file events into reload intents.
//! - `swapchain` chooses format, count, extent and mode of the presentable
//!   images and reads the driver's answers to acquire and present.
//! - `image`, `buffer`, `pipeline`, `renderpass`, `descriptor_pool` and
//!   `allocator` describe the objects themselves; `device` chooses the GPU.
//! - `config`, `engine` and `component` hold the application's settings,
//!   its reactions to events, and its components.

pub mod vk;
pub mod config;
pub mod memory;
pub mod resources;
pub mod allocator;
pub mod buffer;
pub mod image;
pub mod shader_path;
pub mod pipeline;
pub mod renderpass;
pub mod descriptor_pool;
pub mod command_buffer;
pub mod frame_ring;
pub mod swapchain;
pub mod pipeline_store;
pub mod renderer;
pub mod events;
pub mod device;
pub mod component;
pub mod engine;
