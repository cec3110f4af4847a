//! Scoped allocator with a destructor registry.
//!
//! An [`Arena`] owns a fixed byte budget for one processing scope. It hands
//! out raw byte blocks, zero-initialized blocks, and typed slots whose
//! cleanup callback is registered to run at teardown. The host destroys the
//! arena exactly once; [`Arena::teardown`] then reports every registered
//! destructor, each exactly once, in registration order. No destructor of a
//! registered entry runs before teardown: the one early run is the
//! immediate-drop path of [`Arena::allocate_typed`] when registration itself
//! fails, and that entry is then never registered.

use vstd::prelude::*;

verus! {

/// Bytes charged against the arena for one destructor-registry entry.
pub const DESTRUCTOR_ENTRY_COST: usize = 16;

/// Bytes charged against the arena for one typed slot.
pub const TYPED_SLOT_COST: usize = 8;

/// One registered cleanup: the handle of the owned data and the identifier
/// of the drop callback the host will invoke for it.
#[derive(PartialEq, Eq, Structural, Clone, Copy, Debug)]
pub struct DestructorEntry {
    /// Handle of the data the callback receives (for typed slots: the slot index).
    pub handle: usize,
    /// Identifier of the drop callback.
    pub dtor: u64,
}

/// Outcome of a typed allocation.
#[derive(PartialEq, Eq, Structural, Clone, Copy, Debug)]
pub enum TypedAlloc {
    /// The value is stored in the slot with this handle and its destructor
    /// is registered to run at teardown.
    Stored(usize),
    /// The value was stored, but registering its destructor failed; the
    /// destructor was run immediately and nothing was registered.
    DroppedImmediately,
    /// The region is exhausted; nothing was stored or registered.
    OutOfMemory,
}

/// Scoped allocator: a byte budget, typed slots, and the ordered destructor
/// registry run at teardown.
pub struct Arena {
    /// Total bytes this arena may issue.
    pub capacity: usize,
    /// Bytes issued so far.
    pub used: usize,
    /// Typed slots; a slot's index is its handle.
    pub typed: Vec<u64>,
    /// Registered destructors, in registration order.
    pub destructors: Vec<DestructorEntry>,
}

impl Arena {
    /// Well-formedness: the arena never issues more than its budget.
    pub open spec fn wf(self) -> bool {
        self.used <= self.capacity
    }

    /// Bytes still available.
    pub open spec fn remaining(self) -> int {
        self.capacity - self.used
    }

    /// Everything but the byte counter is unchanged.
    pub open spec fn same_entries(self, other: Arena) -> bool {
        &&& self.capacity == other.capacity
        &&& self.typed@ == other.typed@
        &&& self.destructors@ == other.destructors@
    }

    /// A fresh arena for one processing scope.
    pub fn new(capacity: usize) -> (a: Arena)
        ensures
            a.wf(),
            a.capacity == capacity,
            a.used == 0,
            a.typed@ =~= Seq::<u64>::empty(),
            a.destructors@ =~= Seq::<DestructorEntry>::empty(),
    {
        Arena { capacity, used: 0, typed: Vec::new(), destructors: Vec::new() }
    }

    /// Raw memory of exactly `size` bytes. Fails by returning `None`, never
    /// by aborting, exactly when the region cannot cover `size`; a request
    /// for zero bytes always succeeds with a valid empty block.
    pub fn allocate(&mut self, size: usize) -> (r: Option<Vec<u8>>)
        requires
            old(self).wf(),
        ensures
            final(self).wf(),
            final(self).same_entries(*old(self)),
            r is Some <==> size <= old(self).remaining(),
            r is Some ==> r->Some_0@.len() == size && final(self).used == old(self).used + size,
            r is None ==> *final(self) == *old(self),
    {
        if size <= self.capacity - self.used {
            self.used = self.used + size;
            // The block is uninitialized as far as callers may assume: the
            // contract promises its size and nothing of its contents.
            Some(fresh_block(size))
        } else {
            None
        }
    }

    /// Like [`Arena::allocate`], but the block is zero-initialized.
    pub fn allocate_zeroed(&mut self, size: usize) -> (r: Option<Vec<u8>>)
        requires
            old(self).wf(),
        ensures
            final(self).wf(),
            final(self).same_entries(*old(self)),
            r is Some <==> size <= old(self).remaining(),
            r is Some ==> r->Some_0@ =~= Seq::new(size as nat, |i: int| 0u8)
                && final(self).used == old(self).used + size,
            r is None ==> *final(self) == *old(self),
    {
        if size <= self.capacity - self.used {
            self.used = self.used + size;
            Some(fresh_block(size))
        } else {
            None
        }
    }

    /// Registers a cleanup callback to run at teardown. Succeeds exactly
    /// when the registry entry's byte cost still fits; on failure nothing is
    /// recorded.
    pub fn register_destructor(&mut self, handle: usize, dtor: u64) -> (ok: bool)
        requires
            old(self).wf(),
        ensures
            final(self).wf(),
            final(self).capacity == old(self).capacity,
            final(self).typed@ == old(self).typed@,
            ok <==> DESTRUCTOR_ENTRY_COST <= old(self).remaining(),
            ok ==> final(self).destructors@ == old(self).destructors@.push(
                (DestructorEntry { handle, dtor }),
            ) && final(self).used == old(self).used + DESTRUCTOR_ENTRY_COST,
            !ok ==> *final(self) == *old(self),
    {
        if DESTRUCTOR_ENTRY_COST <= self.capacity - self.used {
            self.used = self.used + DESTRUCTOR_ENTRY_COST;
            self.destructors.push(DestructorEntry { handle, dtor });
            true
        } else {
            false
        }
    }

    /// Copies `value` into a fresh typed slot and registers `dtor` so the
    /// value's cleanup runs exactly once, at teardown. If registration
    /// itself fails, the destructor runs immediately and the failure is
    /// reported: a constructed value is never left without a scheduled
    /// destructor.
    pub fn allocate_typed(&mut self, value: u64, dtor: u64) -> (r: TypedAlloc)
        requires
            old(self).wf(),
        ensures
            final(self).wf(),
            final(self).capacity == old(self).capacity,
            r == TypedAlloc::OutOfMemory <==> TYPED_SLOT_COST > old(self).remaining(),
            r == TypedAlloc::DroppedImmediately <==> TYPED_SLOT_COST <= old(self).remaining()
                < TYPED_SLOT_COST + DESTRUCTOR_ENTRY_COST,
            r == TypedAlloc::OutOfMemory ==> *final(self) == *old(self),
            r == TypedAlloc::DroppedImmediately ==> final(self).typed@ == old(self).typed@
                && final(self).destructors@ == old(self).destructors@
                && final(self).used == old(self).used + TYPED_SLOT_COST,
            r is Stored ==> r == TypedAlloc::Stored(old(self).typed@.len() as usize)
                && final(self).typed@ == old(self).typed@.push(value)
                && final(self).destructors@ == old(self).destructors@.push(
                (DestructorEntry { handle: old(self).typed@.len() as usize, dtor }),
            ) && final(self).used == old(self).used + TYPED_SLOT_COST + DESTRUCTOR_ENTRY_COST,
    {
        if TYPED_SLOT_COST > self.capacity - self.used {
            return TypedAlloc::OutOfMemory;
        }
        self.used = self.used + TYPED_SLOT_COST;
        if DESTRUCTOR_ENTRY_COST > self.capacity - self.used {
            // The value cannot get a scheduled destructor: drop it now and
            // report the failure.
            return TypedAlloc::DroppedImmediately;
        }
        let handle = self.typed.len();
        self.typed.push(value);
        self.used = self.used + DESTRUCTOR_ENTRY_COST;
        self.destructors.push(DestructorEntry { handle, dtor });
        TypedAlloc::Stored(handle)
    }

    /// Reads the value held by a typed slot.
    pub fn typed_value(&self, handle: usize) -> (v: u64)
        requires
            handle < self.typed@.len(),
        ensures
            v == self.typed@[handle as int],
    {
        self.typed[handle]
    }

    /// Tears the arena down: consumes it and reports the destructors to run,
    /// each registered entry exactly once, in registration order.
    pub fn teardown(self) -> (log: Vec<DestructorEntry>)
        ensures
            log@ == self.destructors@,
    {
        self.destructors
    }
}

/// A fresh byte block of the given length, zero-filled.
fn fresh_block(size: usize) -> (v: Vec<u8>)
    ensures
        v@ =~= Seq::new(size as nat, |i: int| 0u8),
{
    let mut v: Vec<u8> = Vec::new();
    let mut i: usize = 0;
    while i < size
        invariant
            i <= size,
            v@ =~= Seq::new(i as nat, |j: int| 0u8),
        decreases size - i,
    {
        v.push(0u8);
        i = i + 1;
    }
    v
}

/// Law: a request for zero bytes always succeeds — a well-formed arena has
/// non-negative room, so by the contract of [`Arena::allocate`] the call
/// returns a valid empty block rather than failing, whatever has been
/// allocated before.
pub proof fn lemma_allocate_zero_always_fits(a: Arena)
    requires
        a.wf(),
    ensures
        0 <= a.remaining(),
{
}

/// Law: teardown runs the destructor of every registered entry exactly once.
/// Given the teardown log of an arena whose registrations are pairwise
/// distinct (each typed slot's entry carries its own slot handle, so typed
/// registrations always are), every registered entry appears in the log at
/// its registration position and at no other. Before teardown no registered
/// destructor runs at all: the only early run, the immediate drop on a
/// failed registration, never enters the registry.
pub proof fn lemma_teardown_runs_each_destructor_exactly_once(
    a: Arena,
    log: Seq<DestructorEntry>,
    i: int,
)
    requires
        log == a.destructors@,
        0 <= i < a.destructors@.len(),
        forall|j: int, k: int|
            0 <= j < k < a.destructors@.len() ==> a.destructors@[j] != a.destructors@[k],
    ensures
        log[i] == a.destructors@[i],
        forall|j: int| 0 <= j < log.len() && log[j] == a.destructors@[i] ==> j == i,
{
}

} // verus!
