//! What every GPU-backed object has in common: an entry in the ownership
//! table, and an ordered list of native objects to give back at the end.

use vstd::prelude::*;
use crate::resources::ResourceId;

verus! {

/// One native operation of a teardown.
#[derive(Clone, Copy, PartialEq, Eq, Structural, Debug)]
pub enum TeardownStep {
    /// Block until the device has finished all submitted work.
    WaitIdle,
    DestroySampler(u64),
    DestroyImageView(u64),
    /// Hand the object's memory back to the allocator.
    FreeAllocation,
    DestroyImage(u64),
    DestroyBuffer(u64),
    DestroyPipeline(u64),
    DestroyPipelineLayout(u64),
    DestroySemaphore(u64),
    DestroySwapchain(u64),
    DestroyRenderPass(u64),
    DestroyDescriptorPool(u64),
}

/// An object that a recording unit can reference to keep it alive.
pub trait GpuResource {
    /// The object's entry in the ownership table.
    spec fn resource_id(&self) -> ResourceId;

    /// Gives the entry to reference.
    fn reference(&self) -> (id: ResourceId)
        ensures
            id == self.resource_id(),
    ;
}

/// An object that owns native handles.
pub trait GpuHandle: Sized {
    /// The native operations that release what the object owns, in order.
    spec fn teardown_steps(&self) -> Seq<TeardownStep>;

    /// Ends the object's life and lists what to release, in order.
    fn teardown(self) -> (steps: Vec<TeardownStep>)
        ensures
            steps@ == self.teardown_steps(),
    ;
}

} // verus!
