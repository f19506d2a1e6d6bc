//! The kernel's block service as the allocator relies on it: a table of live
//! blocks, and what the kernel may answer to each request. The laws of the
//! allocator are stated against this table.

use vstd::prelude::*;
use crate::allocator::kernel::{
    alloc_next, dealloc_next, Allocation, BlockRequest, Deallocation, Reply,
};

verus! {

/// A live block: where it lies and how many bytes the kernel granted.
pub struct Block {
    pub base: usize,
    pub size: u32,
}

/// The blocks that are live, by handle.
pub struct BlockTable {
    pub live: Map<i32, Block>,
}

impl BlockTable {
    /// Handles are not negative, no block lies at the null address, and no
    /// two blocks lie at the same address.
    pub open spec fn wf(self) -> bool {
        &&& forall|uid: i32| #[trigger]
            self.live.contains_key(uid) ==> uid >= 0 && self.live[uid].base != 0
        &&& forall|a: i32, b: i32|
            #![trigger self.live[a], self.live[b]]
            self.live.contains_key(a) && self.live.contains_key(b) && self.live[a].base
                == self.live[b].base ==> a == b
    }

    /// Whether a live block lies at `addr`.
    pub open spec fn has_block_at(self, addr: usize) -> bool {
        exists|uid: i32| #[trigger] self.live.contains_key(uid) && self.live[uid].base == addr
    }

    /// The handle of the block at `addr`.
    pub open spec fn handle_at(self, addr: usize) -> i32 {
        choose|uid: i32| #[trigger] self.live.contains_key(uid) && self.live[uid].base == addr
    }

    /// Creating a block either fails and changes nothing, or enters a block
    /// of at least the size asked, under a handle and at an address that no
    /// live block has.
    pub open spec fn creates(self, request: BlockRequest, reply: Reply, after: BlockTable) -> bool {
        if reply.status < 0 {
            after == self
        } else {
            &&& !self.live.contains_key(reply.status)
            &&& after.live.contains_key(reply.status)
            &&& after.live[reply.status].base != 0
            &&& after.live[reply.status].size >= request.size
            &&& !self.has_block_at(after.live[reply.status].base)
            &&& after.live == self.live.insert(reply.status, after.live[reply.status])
        }
    }

    /// Resolving a handle may fail; where it succeeds, the address is the
    /// base of that block.
    pub open spec fn resolves(self, uid: i32, reply: Reply) -> bool {
        reply.status >= 0 ==> self.live.contains_key(uid) && reply.value == self.live[uid].base
    }

    /// Freeing a handle takes its block out of the table.
    pub open spec fn frees(self, uid: i32, after: BlockTable) -> bool {
        after.live == self.live.remove(uid)
    }

    /// The size of the block at `addr` is reported if and only if a block
    /// lies there.
    pub open spec fn informs(self, addr: usize, reply: Reply) -> bool {
        if self.has_block_at(addr) {
            reply.status >= 0 && reply.value == self.live[self.handle_at(addr)].size
        } else {
            reply.status < 0
        }
    }

    /// The handle of the block at `addr` is found if and only if a block of
    /// that size lies there.
    pub open spec fn finds(self, addr: usize, size: u32, reply: Reply) -> bool {
        if self.has_block_at(addr) && self.live[self.handle_at(addr)].size == size {
            reply.status == self.handle_at(addr)
        } else {
            reply.status < 0
        }
    }

    /// Whether the kernel, with this table, may answer `reply` to the request
    /// that `state` names and go on with the table `after`.
    pub open spec fn serves_allocation(
        self,
        state: Allocation,
        reply: Reply,
        after: BlockTable,
    ) -> bool {
        match state {
            Allocation::Create(request) => self.creates(request, reply, after),
            Allocation::Resolve { uid } => self.resolves(uid, reply) && after == self,
            Allocation::Release { uid } => self.frees(uid, after),
            Allocation::Done(_) => after == self,
        }
    }

    /// Whether the kernel, with this table, may answer `reply` to the request
    /// that `state` names and go on with the table `after`.
    pub open spec fn serves_deallocation(
        self,
        state: Deallocation,
        reply: Reply,
        after: BlockTable,
    ) -> bool {
        match state {
            Deallocation::Info { addr } => self.informs(addr, reply) && after == self,
            Deallocation::Find { addr, size } => self.finds(addr, size, reply) && after == self,
            Deallocation::Free { uid } => self.frees(uid, after),
            Deallocation::Done => after == self,
        }
    }
}

/// The last state of an allocation that starts in `state` and gets the three
/// replies in turn.
pub open spec fn allocation_end(
    count: usize,
    state: Allocation,
    first: Reply,
    second: Reply,
    third: Reply,
) -> Allocation {
    let (count1, state1) = alloc_next(count, state, first);
    let (count2, state2) = alloc_next(count1, state1, second);
    alloc_next(count2, state2, third).1
}

/// Whether the kernel may give the three replies in turn to an allocation
/// that starts in `state`, and end with the table `after`.
pub open spec fn allocation_served(
    table: BlockTable,
    count: usize,
    state: Allocation,
    first: Reply,
    second: Reply,
    third: Reply,
    after: BlockTable,
) -> bool {
    let (count1, state1) = alloc_next(count, state, first);
    let (count2, state2) = alloc_next(count1, state1, second);
    exists|table1: BlockTable, table2: BlockTable|
        #![trigger table.serves_allocation(state, first, table1), table2.serves_allocation(state2, third, after)]
        {
            &&& table.serves_allocation(state, first, table1)
            &&& table1.serves_allocation(state1, second, table2)
            &&& table2.serves_allocation(state2, third, after)
        }
}

/// The last state of a deallocation that starts in `state` and gets the three
/// replies in turn.
pub open spec fn deallocation_end(
    state: Deallocation,
    first: Reply,
    second: Reply,
    third: Reply,
) -> Deallocation {
    dealloc_next(dealloc_next(dealloc_next(state, first), second), third)
}

/// Whether the kernel may give the three replies in turn to a deallocation
/// that starts in `state`, and end with the table `after`.
pub open spec fn deallocation_served(
    table: BlockTable,
    state: Deallocation,
    first: Reply,
    second: Reply,
    third: Reply,
    after: BlockTable,
) -> bool {
    let state1 = dealloc_next(state, first);
    let state2 = dealloc_next(state1, second);
    exists|table1: BlockTable, table2: BlockTable|
        #![trigger table.serves_deallocation(state, first, table1), table2.serves_deallocation(state2, third, after)]
        {
            &&& table.serves_deallocation(state, first, table1)
            &&& table1.serves_deallocation(state1, second, table2)
            &&& table2.serves_deallocation(state2, third, after)
        }
}

/// Three replies end every allocation. One that fails leaves the kernel with
/// the blocks it had: a block whose address could not be had was freed. One
/// that succeeds leaves exactly one block more, at the address returned.
pub proof fn lemma_allocation_outcome(
    table: BlockTable,
    count: usize,
    request: BlockRequest,
    first: Reply,
    second: Reply,
    third: Reply,
    after: BlockTable,
)
    requires
        table.wf(),
        allocation_served(table, count, Allocation::Create(request), first, second, third, after),
    ensures
        match allocation_end(count, Allocation::Create(request), first, second, third) {
            Allocation::Done(Err(_)) => after == table,
            Allocation::Done(Ok(addr)) => {
                &&& after.wf()
                &&& after.has_block_at(addr)
                &&& !table.has_block_at(addr)
                &&& !table.live.contains_key(after.handle_at(addr))
                &&& after.live[after.handle_at(addr)].size >= request.size
                &&& after.live.remove(after.handle_at(addr)) == table.live
            },
            _ => false,
        },
{
    let start = Allocation::Create(request);
    let (count1, state1) = alloc_next(count, start, first);
    let (count2, state2) = alloc_next(count1, state1, second);
    let (table1, table2) = choose|table1: BlockTable, table2: BlockTable|
        #![trigger table.serves_allocation(start, first, table1), table2.serves_allocation(state2, third, after)]
        {
            &&& table.serves_allocation(start, first, table1)
            &&& table1.serves_allocation(state1, second, table2)
            &&& table2.serves_allocation(state2, third, after)
        };
    if first.status >= 0 {
        let uid = first.status;
        if second.status < 0 || second.value == 0 {
            assert(after.live =~= table.live);
        } else {
            lemma_unique_handle(after, uid);
            assert(after.live.remove(uid) =~= table.live);
        }
    }
}

/// Three replies end every deallocation. It frees the block that lies at the
/// address, and no other; where no block lies there, nothing is freed.
pub proof fn lemma_deallocation_outcome(
    table: BlockTable,
    addr: usize,
    first: Reply,
    second: Reply,
    third: Reply,
    after: BlockTable,
)
    requires
        table.wf(),
        deallocation_served(table, Deallocation::Info { addr }, first, second, third, after),
    ensures
        deallocation_end(Deallocation::Info { addr }, first, second, third) == Deallocation::Done,
        after.live == if table.has_block_at(addr) {
            table.live.remove(table.handle_at(addr))
        } else {
            table.live
        },
{
    let start = Deallocation::Info { addr };
    let state1 = dealloc_next(start, first);
    let state2 = dealloc_next(state1, second);
    let (table1, table2) = choose|table1: BlockTable, table2: BlockTable|
        #![trigger table.serves_deallocation(start, first, table1), table2.serves_deallocation(state2, third, after)]
        {
            &&& table.serves_deallocation(start, first, table1)
            &&& table1.serves_deallocation(state1, second, table2)
            &&& table2.serves_deallocation(state2, third, after)
        };
    if table.has_block_at(addr) {
        let uid = table.handle_at(addr);
        assert(table.live.contains_key(uid) && table.live[uid].base == addr);
        assert(state1 == Deallocation::Find { addr, size: table.live[uid].size });
        assert(state2 == Deallocation::Free { uid });
    } else {
        assert(state1 == Deallocation::Done);
    }
}

/// An allocation that succeeds and the deallocation of the address that it
/// returned, one after the other, leave the kernel with the blocks it had
/// before: nothing leaks.
pub proof fn lemma_allocate_then_deallocate(
    table: BlockTable,
    count: usize,
    request: BlockRequest,
    addr: usize,
    created: Reply,
    resolved: Reply,
    last: Reply,
    between: BlockTable,
    informed: Reply,
    found: Reply,
    freed: Reply,
    after: BlockTable,
)
    requires
        table.wf(),
        allocation_served(
            table,
            count,
            Allocation::Create(request),
            created,
            resolved,
            last,
            between,
        ),
        allocation_end(count, Allocation::Create(request), created, resolved, last)
            == Allocation::Done(Ok(addr)),
        deallocation_served(between, Deallocation::Info { addr }, informed, found, freed, after),
    ensures
        deallocation_end(Deallocation::Info { addr }, informed, found, freed)
            == Deallocation::Done,
        after == table,
{
    lemma_allocation_outcome(table, count, request, created, resolved, last, between);
    lemma_deallocation_outcome(between, addr, informed, found, freed, after);
    assert(after.live =~= table.live);
}

/// In a well-formed table the block at the base of a live handle is that
/// handle's.
pub proof fn lemma_unique_handle(table: BlockTable, uid: i32)
    requires
        forall|a: i32, b: i32|
            #![trigger table.live[a], table.live[b]]
            table.live.contains_key(a) && table.live.contains_key(b) && table.live[a].base
                == table.live[b].base ==> a == b,
        table.live.contains_key(uid),
    ensures
        table.has_block_at(table.live[uid].base),
        table.handle_at(table.live[uid].base) == uid,
{
    let addr = table.live[uid].base;
    let found = table.handle_at(addr);
    assert(table.live.contains_key(found) && table.live[found].base == addr);
}

} // verus!
