//! The block allocator: one kernel memory block per allocation.
//!
//! The allocator keeps no record of the blocks it handed out. An allocation
//! asks the kernel for a block and then for the block's base address; a
//! deallocation asks the kernel which block lies at an address and frees it.
//! Each of them is a short exchange with the kernel, written here as a state
//! that names the pending request and a step that takes the kernel's reply.
//!
//! The allocator is not synchronised: one exchange at a time.

use vstd::prelude::*;
use crate::allocator::utils::{name_of, tag_fits, write_name};

verus! {

/// The smallest block that the kernel grants, in bytes.
pub const MIN_BLOCK_SIZE: i32 = 4096;

/// The access attribute that every block is asked with: read access.
pub const ACCESS_READ: u32 = 0x04;

/// The kind that every block is asked with: user memory, readable and
/// writable.
pub const KIND_USER_RW: u32 = 0x0C20_D060;

/// The tag of block names, `__rust_0x`.
pub const BLOCK_TAG: [u8; 9] = [95, 95, 114, 117, 115, 116, 95, 48, 120];

/// The one error of the allocator: no block was allocated.
#[derive(Debug, Clone, Copy, PartialEq, Eq, Structural)]
pub struct AllocErr;

/// What the kernel is asked when a block is created.
#[derive(Debug, Clone, Copy)]
pub struct BlockRequest {
    /// The block's name, NUL-terminated.
    pub name: [u8; 32],
    /// The kind of memory.
    pub kind: u32,
    /// The size to ask for, in bytes.
    pub size: i32,
    /// The access attribute.
    pub attr: u32,
    /// The alignment of the block's base.
    pub alignment: u32,
}

/// What the kernel answered: the call's return value, negative on failure,
/// and the value that it wrote back, if the call has one.
#[derive(Debug, Clone, Copy)]
pub struct Reply {
    /// A handle or a status; negative on failure.
    pub status: i32,
    /// The base address or the size that the call reported.
    pub value: usize,
}

/// An allocation under way. Each variant but `Done` names the request to make
/// next.
#[derive(Debug, Clone, Copy)]
pub enum Allocation {
    /// Ask the kernel for this block. It answers with the block's handle.
    Create(BlockRequest),
    /// Ask the kernel for the base address of the block `uid`.
    Resolve { uid: i32 },
    /// Free the block `uid`: its address could not be had.
    Release { uid: i32 },
    /// The allocation is over, with the block's address or without a block.
    Done(Result<usize, AllocErr>),
}

/// A deallocation under way. Each variant but `Done` names the request to
/// make next.
#[derive(Debug, Clone, Copy)]
pub enum Deallocation {
    /// Ask the kernel for the size of the block at `addr`.
    Info { addr: usize },
    /// Ask the kernel for the handle of the block of `size` bytes at `addr`.
    Find { addr: usize, size: u32 },
    /// Free the block `uid`.
    Free { uid: i32 },
    /// The deallocation is over.
    Done,
}

/// An allocator of kernel memory blocks.
///
/// It counts the blocks that the kernel granted, and only to name the next
/// one: the count wraps around silently.
pub struct KernelAllocator {
    block_count: usize,
}

/// The state that follows `state` on `reply`, and the block count with it.
pub open spec fn alloc_next(count: usize, state: Allocation, reply: Reply) -> (usize, Allocation) {
    match state {
        Allocation::Create(_) => if reply.status < 0 {
            (count, Allocation::Done(Err(AllocErr)))
        } else {
            (
                if count == usize::MAX {
                    0usize
                } else {
                    (count + 1) as usize
                },
                Allocation::Resolve { uid: reply.status },
            )
        },
        Allocation::Resolve { uid } => if reply.status < 0 || reply.value == 0 {
            (count, Allocation::Release { uid })
        } else {
            (count, Allocation::Done(Ok(reply.value)))
        },
        Allocation::Release { uid } => (count, Allocation::Done(Err(AllocErr))),
        Allocation::Done(result) => (count, state),
    }
}

/// The state that follows `state` on `reply`.
pub open spec fn dealloc_next(state: Deallocation, reply: Reply) -> Deallocation {
    match state {
        Deallocation::Info { addr } => if reply.status < 0 || reply.value > u32::MAX {
            Deallocation::Done
        } else {
            Deallocation::Find { addr, size: reply.value as u32 }
        },
        Deallocation::Find { addr, size } => if reply.status < 0 {
            Deallocation::Done
        } else {
            Deallocation::Free { uid: reply.status }
        },
        Deallocation::Free { uid } => Deallocation::Done,
        Deallocation::Done => Deallocation::Done,
    }
}

impl KernelAllocator {
    /// The number of blocks that the kernel has granted so far, modulo the
    /// range of `usize`.
    pub closed spec fn count(&self) -> usize {
        self.block_count
    }

    /// Create a new kernel allocator.
    pub fn new() -> (allocator: Self)
        ensures
            allocator.count() == 0,
    {
        KernelAllocator { block_count: 0 }
    }

    /// The number that the next block is named after.
    pub fn block_count(&self) -> (count: usize)
        ensures
            count == self.count(),
    {
        self.block_count
    }

    /// Starts the allocation of `size` bytes aligned to `align`.
    ///
    /// The kernel is asked for at least `MIN_BLOCK_SIZE` bytes, under a name
    /// made of the block count. A size or an alignment that the kernel's
    /// 32-bit parameters cannot hold fails at once, before any request.
    pub fn allocate(&self, size: usize, align: usize) -> (state: Allocation)
        ensures
            match state {
                Allocation::Create(request) => {
                    &&& size <= i32::MAX
                    &&& align <= u32::MAX
                    &&& request.name@ == name_of(BLOCK_TAG@, self.count() as nat)
                    &&& request.kind == KIND_USER_RW
                    &&& request.size == if size < MIN_BLOCK_SIZE {
                        MIN_BLOCK_SIZE as int
                    } else {
                        size as int
                    }
                    &&& request.attr == ACCESS_READ
                    &&& request.alignment == align
                },
                Allocation::Done(Err(_)) => size > i32::MAX || align > u32::MAX,
                _ => false,
            },
    {
        if size > 0x7fff_ffff || align > 0xffff_ffff {
            return Allocation::Done(Err(AllocErr));
        }
        let asked: i32 = size as i32;
        let tag: [u8; 9] = BLOCK_TAG;
        assert(tag_fits(tag@));
        Allocation::Create(
            BlockRequest {
                name: write_name(&tag, self.block_count),
                kind: KIND_USER_RW,
                size: if asked < MIN_BLOCK_SIZE {
                    MIN_BLOCK_SIZE
                } else {
                    asked
                },
                attr: ACCESS_READ,
                alignment: align as u32,
            },
        )
    }

    /// Takes the kernel's reply to the request that `state` names, and gives
    /// the state that follows.
    ///
    /// A block that the kernel granted is counted. If its base address then
    /// cannot be had, because the kernel reports a failure or a null address,
    /// the block is to be freed, and the allocation fails.
    pub fn allocate_step(&mut self, state: Allocation, reply: Reply) -> (next: Allocation)
        ensures
            (final(self).count(), next) == alloc_next(old(self).count(), state, reply),
    {
        match state {
            Allocation::Create(_) => {
                if reply.status < 0 {
                    Allocation::Done(Err(AllocErr))
                } else {
                    self.block_count = self.block_count.wrapping_add(1);
                    Allocation::Resolve { uid: reply.status }
                }
            },
            Allocation::Resolve { uid } => {
                if reply.status < 0 || reply.value == 0 {
                    Allocation::Release { uid }
                } else {
                    Allocation::Done(Ok(reply.value))
                }
            },
            Allocation::Release { uid } => Allocation::Done(Err(AllocErr)),
            Allocation::Done(result) => Allocation::Done(result),
        }
    }

    /// Starts the deallocation of the block at `addr`, an address that an
    /// allocation returned and that was not deallocated since.
    pub fn deallocate(&self, addr: usize) -> (state: Deallocation)
        ensures
            state == (Deallocation::Info { addr }),
    {
        Deallocation::Info { addr }
    }

    /// Takes the kernel's reply to the request that `state` names, and gives
    /// the state that follows.
    ///
    /// The block's size leads to its handle and the handle to its release. A
    /// lookup that fails ends the deallocation: no block is freed.
    pub fn deallocate_step(&self, state: Deallocation, reply: Reply) -> (next: Deallocation)
        ensures
            next == dealloc_next(state, reply),
    {
        match state {
            Deallocation::Info { addr } => {
                if reply.status < 0 || reply.value > 0xffff_ffff {
                    Deallocation::Done
                } else {
                    Deallocation::Find { addr, size: reply.value as u32 }
                }
            },
            Deallocation::Find { addr, size } => {
                if reply.status < 0 {
                    Deallocation::Done
                } else {
                    Deallocation::Free { uid: reply.status }
                }
            },
            Deallocation::Free { uid } => Deallocation::Done,
            Deallocation::Done => Deallocation::Done,
        }
    }
}

impl Default for KernelAllocator {
    fn default() -> (allocator: Self)
        ensures
            allocator.count() == 0,
    {
        KernelAllocator::new()
    }
}

} // verus!
