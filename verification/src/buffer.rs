//! Linear GPU memory: how a buffer is requested, whether the host may look
//! into it, and what is given back when it goes.

use vstd::prelude::*;
use crate::memory::GpuHandle;
use crate::memory::GpuResource;
use crate::memory::TeardownStep;
use crate::resources::ResourceId;
use crate::vk::SHARING_MODE_EXCLUSIVE;

verus! {

/// Where an allocation lives and who reaches it.
#[derive(Clone, Copy, PartialEq, Eq, Structural, Debug)]
pub enum MemoryLocation {
    Unknown,
    GpuOnly,
    CpuToGpu,
    GpuToCpu,
}

/// What the allocator is asked for on behalf of one object.
#[derive(Clone, Copy, PartialEq, Eq, Structural, Debug)]
pub struct AllocationRequest {
    pub location: MemoryLocation,
    pub linear: bool,
}

/// The memory an object currently holds.
#[derive(Clone, Copy, PartialEq, Eq, Structural, Debug)]
pub struct Allocation {
    /// Whether the host can address the memory.
    pub mapped: bool,
}

/// Why a buffer's memory cannot be looked into.
#[derive(Clone, Copy, PartialEq, Eq, Structural, Debug)]
pub enum BufferError {
    NotMapped,
    NotAllocated,
}

/// What the driver is told when a buffer is created.
#[derive(Clone, Copy, PartialEq, Eq, Structural, Debug)]
pub struct BufferCreateInfo {
    pub size: u64,
    pub usage: u32,
    pub sharing_mode: i32,
}

/// How a buffer is named in a descriptor.
#[derive(Clone, Copy, PartialEq, Eq, Structural, Debug)]
pub struct DescriptorBufferInfo {
    pub buffer: u64,
    pub offset: u64,
    pub range: u64,
}

/// Permission to read and write a buffer's host-visible bytes.
#[derive(Clone, Copy, PartialEq, Eq, Structural, Debug)]
pub struct MappedBufferGuard {
    pub buffer: u64,
    pub size: u64,
}

impl MappedBufferGuard {
    /// The number of bytes the guard gives access to.
    pub fn len(&self) -> (n: u64)
        ensures
            n == self.size,
    {
        self.size
    }
}

/// A buffer and the memory behind it.
#[derive(Clone, Copy, PartialEq, Eq, Structural, Debug)]
pub struct Buffer {
    pub resource: ResourceId,
    pub buffer: u64,
    pub size: u64,
    pub allocation: Option<Allocation>,
}

impl Buffer {
    /// The creation request for an exclusively owned buffer.
    pub fn create_info(size: u64, usage: u32) -> (info: BufferCreateInfo)
        ensures
            info == (BufferCreateInfo { size, usage, sharing_mode: SHARING_MODE_EXCLUSIVE }),
    {
        BufferCreateInfo { size, usage, sharing_mode: SHARING_MODE_EXCLUSIVE }
    }

    /// The memory request for a buffer: linear memory at the given location.
    pub fn allocation_request(location: MemoryLocation) -> (request: AllocationRequest)
        ensures
            request == (AllocationRequest { location, linear: true }),
    {
        AllocationRequest { location, linear: true }
    }

    /// A buffer that was created and bound to the given memory.
    pub fn new(resource: ResourceId, buffer: u64, size: u64, allocation: Allocation) -> (made: Self)
        ensures
            made == (Buffer { resource, buffer, size, allocation: Some(allocation) }),
    {
        Buffer { resource, buffer, size, allocation: Some(allocation) }
    }

    /// Grants access to the buffer's bytes where the host can address them.
    ///
    /// A buffer without memory is `NotAllocated`; one whose memory the host
    /// cannot address is `NotMapped`.
    pub fn mapped(&self) -> (outcome: Result<MappedBufferGuard, BufferError>)
        ensures
            outcome == (match self.allocation {
                Some(allocation) => if allocation.mapped {
                    Ok::<MappedBufferGuard, BufferError>(
                        MappedBufferGuard { buffer: self.buffer, size: self.size },
                    )
                } else {
                    Err::<MappedBufferGuard, BufferError>(BufferError::NotMapped)
                },
                None => Err::<MappedBufferGuard, BufferError>(BufferError::NotAllocated),
            }),
    {
        match self.allocation {
            Some(allocation) => {
                if allocation.mapped {
                    Ok(MappedBufferGuard { buffer: self.buffer, size: self.size })
                } else {
                    Err(BufferError::NotMapped)
                }
            },
            None => Err(BufferError::NotAllocated),
        }
    }

    /// Gives up the buffer's memory, which can happen once: the allocation
    /// comes back the first time, and nothing ever after.
    pub fn take_allocation(&mut self) -> (taken: Option<Allocation>)
        ensures
            taken == old(self).allocation,
            *final(self) == (Buffer { allocation: None, ..*old(self) }),
    {
        let taken = self.allocation;
        self.allocation = None;
        taken
    }

    /// Names the whole buffer in a descriptor.
    pub fn binding(&self) -> (info: DescriptorBufferInfo)
        ensures
            info == (DescriptorBufferInfo { buffer: self.buffer, offset: 0, range: self.size }),
    {
        DescriptorBufferInfo { buffer: self.buffer, offset: 0, range: self.size }
    }

    /// The native buffer.
    pub fn handle(&self) -> (raw: u64)
        ensures
            raw == self.buffer,
    {
        self.buffer
    }

    /// The size in bytes.
    pub fn size(&self) -> (bytes: u64)
        ensures
            bytes == self.size,
    {
        self.size
    }
}

impl GpuResource for Buffer {
    open spec fn resource_id(&self) -> ResourceId {
        self.resource
    }

    fn reference(&self) -> (id: ResourceId) {
        self.resource
    }
}

impl GpuHandle for Buffer {
    /// The memory goes back first, where there is any, then the buffer itself.
    open spec fn teardown_steps(&self) -> Seq<TeardownStep> {
        if self.allocation is Some {
            seq![TeardownStep::FreeAllocation, TeardownStep::DestroyBuffer(self.buffer)]
        } else {
            seq![TeardownStep::DestroyBuffer(self.buffer)]
        }
    }

    fn teardown(self) -> (steps: Vec<TeardownStep>) {
        let mut steps: Vec<TeardownStep> = Vec::new();
        if self.allocation.is_some() {
            steps.push(TeardownStep::FreeAllocation);
        }
        steps.push(TeardownStep::DestroyBuffer(self.buffer));
        proof {
            assert(steps@ =~= self.teardown_steps());
        }
        steps
    }
}

} // verus!
