//! The pool that descriptor sets for sampled images are taken from.

use vstd::prelude::*;
use crate::memory::GpuHandle;
use crate::memory::TeardownStep;
use crate::vk::DESCRIPTOR_POOL_FREE_DESCRIPTOR_SET;
use crate::vk::DESCRIPTOR_TYPE_COMBINED_IMAGE_SAMPLER;

verus! {

/// How many descriptors of one type a pool holds.
#[derive(Clone, Copy, PartialEq, Eq, Structural, Debug)]
pub struct DescriptorPoolSize {
    pub ty: i32,
    pub descriptor_count: u32,
}

/// What the driver is told when the pool is created.
#[derive(Clone, Copy, PartialEq, Eq, Structural, Debug)]
pub struct DescriptorPoolCreateInfo {
    pub pool_size: DescriptorPoolSize,
    pub max_sets: u32,
    pub flags: u32,
}

/// A descriptor pool.
#[derive(Clone, Copy, PartialEq, Eq, Structural, Debug)]
pub struct DescriptorPool {
    pub descriptor_pool: u64,
}

impl DescriptorPool {
    /// The creation request for a pool of `max_sets` sets of one combined
    /// image sampler each, whose sets can be freed one by one.
    pub fn create_info(max_sets: u32) -> (info: DescriptorPoolCreateInfo)
        ensures
            info == (DescriptorPoolCreateInfo {
                pool_size: DescriptorPoolSize {
                    ty: DESCRIPTOR_TYPE_COMBINED_IMAGE_SAMPLER,
                    descriptor_count: max_sets,
                },
                max_sets,
                flags: DESCRIPTOR_POOL_FREE_DESCRIPTOR_SET,
            }),
    {
        DescriptorPoolCreateInfo {
            pool_size: DescriptorPoolSize {
                ty: DESCRIPTOR_TYPE_COMBINED_IMAGE_SAMPLER,
                descriptor_count: max_sets,
            },
            max_sets,
            flags: DESCRIPTOR_POOL_FREE_DESCRIPTOR_SET,
        }
    }

    /// A pool that was created.
    pub fn new(descriptor_pool: u64) -> (made: Self)
        ensures
            made == (DescriptorPool { descriptor_pool }),
    {
        DescriptorPool { descriptor_pool }
    }

    /// The native pool.
    pub fn handle(&self) -> (raw: u64)
        ensures
            raw == self.descriptor_pool,
    {
        self.descriptor_pool
    }
}

impl GpuHandle for DescriptorPool {
    open spec fn teardown_steps(&self) -> Seq<TeardownStep> {
        seq![TeardownStep::DestroyDescriptorPool(self.descriptor_pool)]
    }

    fn teardown(self) -> (steps: Vec<TeardownStep>) {
        let mut steps: Vec<TeardownStep> = Vec::new();
        steps.push(TeardownStep::DestroyDescriptorPool(self.descriptor_pool));
        proof {
            assert(steps@ =~= self.teardown_steps());
        }
        steps
    }
}

} // verus!
