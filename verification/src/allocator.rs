//! The memory allocator's books: how much memory is handed out, and that
//! the allocator goes only after all of it has come back.

use vstd::prelude::*;
use crate::buffer::Allocation;

verus! {

/// How the allocator is set up.
#[derive(Clone, Copy, PartialEq, Eq, Structural, Debug)]
pub struct AllocatorCreateDesc {
    /// Whether buffers can be addressed by the GPU through plain addresses.
    pub buffer_device_address: bool,
}

/// Why the allocator refused an operation.
#[derive(Clone, Copy, PartialEq, Eq, Structural, Debug)]
pub enum AllocatorError {
    /// No allocation is outstanding that could be freed.
    NothingAllocated,
    /// This many allocations have not been freed yet.
    StillInUse(u64),
    /// As many allocations are outstanding as can be counted.
    TooManyAllocations,
}

/// The allocator's books.
#[derive(Debug)]
pub struct Allocator {
    desc: AllocatorCreateDesc,
    live: u64,
}

impl Allocator {
    /// The number of allocations handed out and not yet freed.
    pub closed spec fn live(&self) -> u64 {
        self.live
    }

    /// How the allocator was set up.
    pub closed spec fn desc(&self) -> AllocatorCreateDesc {
        self.desc
    }

    /// The set-up the engine uses: no buffer device addresses.
    pub fn default_desc() -> (desc: AllocatorCreateDesc)
        ensures
            desc == (AllocatorCreateDesc { buffer_device_address: false }),
    {
        AllocatorCreateDesc { buffer_device_address: false }
    }

    /// An allocator that has handed out nothing.
    pub fn new(desc: AllocatorCreateDesc) -> (made: Self)
        ensures
            made.live() == 0,
            made.desc() == desc,
    {
        Allocator { desc, live: 0 }
    }

    /// The number of allocations handed out and not yet freed.
    pub fn live_allocations(&self) -> (count: u64)
        ensures
            count == self.live(),
    {
        self.live
    }

    /// Books one more allocation; `mapped` says whether the host can address
    /// the memory that was handed out.
    pub fn allocate(&mut self, mapped: bool) -> (outcome: Result<Allocation, AllocatorError>)
        ensures
            final(self).desc() == old(self).desc(),
            outcome == (if old(self).live() == u64::MAX {
                Err::<Allocation, AllocatorError>(AllocatorError::TooManyAllocations)
            } else {
                Ok::<Allocation, AllocatorError>(Allocation { mapped })
            }),
            final(self).live() == (if old(self).live() == u64::MAX {
                old(self).live()
            } else {
                (old(self).live() + 1) as u64
            }),
    {
        if self.live == u64::MAX {
            return Err(AllocatorError::TooManyAllocations);
        }
        self.live = self.live + 1;
        Ok(Allocation { mapped })
    }

    /// Books the return of an allocation. Fails where nothing is outstanding.
    pub fn free(&mut self, allocation: Allocation) -> (outcome: Result<(), AllocatorError>)
        ensures
            final(self).desc() == old(self).desc(),
            outcome == (if old(self).live() == 0 {
                Err::<(), AllocatorError>(AllocatorError::NothingAllocated)
            } else {
                Ok::<(), AllocatorError>(())
            }),
            final(self).live() == (if old(self).live() == 0 {
                0
            } else {
                (old(self).live() - 1) as u64
            }),
    {
        if self.live == 0 {
            return Err(AllocatorError::NothingAllocated);
        }
        self.live = self.live - 1;
        Ok(())
    }

    /// Ends the allocator's life, which is possible only once every
    /// allocation has been freed; else the allocator comes back with the
    /// number that are still out.
    pub fn teardown(self) -> (outcome: Result<(), (Allocator, AllocatorError)>)
        ensures
            outcome is Ok <==> self.live() == 0,
            outcome matches Err(kept) ==> kept.0 == self && kept.1 == AllocatorError::StillInUse(
                self.live(),
            ),
    {
        if self.live == 0 {
            Ok(())
        } else {
            let live = self.live;
            Err((self, AllocatorError::StillInUse(live)))
        }
    }
}

} // verus!
