//! The allocator: a table of slots and a stack of the slots that are free
//! for reuse.

use vstd::prelude::*;
use crate::handle::{GenerationalIndex, GenerationalIndexView};

verus! {

/// One slot of the allocator's table.
#[derive(Clone, Copy, Debug)]
pub struct AllocatorEntry {
    /// Whether a handle to this slot is currently outstanding.
    pub is_live: bool,
    /// How many times the slot has been brought back to life.
    pub generation: u64,
}

/// The allocator as a mathematical value: the slot table, and the free list
/// with the most recently freed slot last.
#[verifier::ext_equal]
pub struct AllocatorView {
    pub entries: Seq<AllocatorEntry>,
    pub free: Seq<usize>,
}

impl AllocatorView {
    /// The allocator that has issued nothing.
    pub open spec fn empty() -> AllocatorView {
        AllocatorView { entries: Seq::empty(), free: Seq::empty() }
    }

    /// `index` names a slot of the table, and that slot is dead.
    pub open spec fn is_dead(self, index: usize) -> bool {
        index < self.entries.len() && !self.entries[index as int].is_live
    }

    /// The free list holds dead slots of the table only, and each at most
    /// once.
    pub open spec fn wf(self) -> bool {
        &&& forall|k: int| 0 <= k < self.free.len() ==> self.is_dead(#[trigger] self.free[k])
        &&& self.free.no_duplicates()
    }

    /// `handle` names a slot of the table that is live in the generation the
    /// handle was issued for.
    pub open spec fn is_live(self, handle: GenerationalIndexView) -> bool {
        &&& handle.index < self.entries.len()
        &&& self.entries[handle.index as int].is_live
        &&& self.entries[handle.index as int].generation == handle.generation
    }

    /// The next allocation recycles the slot on top of the free list: there
    /// is one, and it is dead.
    pub open spec fn reuses_slot(self) -> bool {
        self.free.len() > 0 && self.is_dead(self.free.last())
    }

    /// The next allocation has room: the slot that it recycles can count one
    /// more generation, or else the table can take one more slot.
    pub open spec fn can_allocate(self) -> bool {
        if self.reuses_slot() {
            self.entries[self.free.last() as int].generation < u64::MAX
        } else {
            self.entries.len() < usize::MAX
        }
    }

    /// The handle that the next allocation issues.
    pub open spec fn next_handle(self) -> GenerationalIndexView {
        if self.reuses_slot() {
            GenerationalIndexView {
                index: self.free.last(),
                generation: (self.entries[self.free.last() as int].generation + 1) as u64,
            }
        } else {
            GenerationalIndexView { index: self.entries.len() as usize, generation: 0 }
        }
    }

    /// The allocator after the next allocation. The top of the free list, if
    /// there is one, is taken off; the handle's slot is live in the handle's
    /// generation, whether it was recycled or appended.
    pub open spec fn after_allocate(self) -> AllocatorView {
        let issued = AllocatorEntry { is_live: true, generation: self.next_handle().generation };
        AllocatorView {
            entries: if self.reuses_slot() {
                self.entries.update(self.free.last() as int, issued)
            } else {
                self.entries.push(issued)
            },
            free: if self.free.len() > 0 {
                self.free.drop_last()
            } else {
                self.free
            },
        }
    }

    /// The allocator after `handle` has been handed back: a live handle's
    /// slot dies, keeps its generation and goes on top of the free list; any
    /// other handle changes nothing.
    pub open spec fn after_deallocate(self, handle: GenerationalIndexView) -> AllocatorView {
        if self.is_live(handle) {
            AllocatorView {
                entries: self.entries.update(
                    handle.index as int,
                    AllocatorEntry { is_live: false, generation: handle.generation },
                ),
                free: self.free.push(handle.index),
            }
        } else {
            self
        }
    }

    /// The allocator after `n` allocations in a row.
    pub open spec fn after_allocations(self, n: nat) -> AllocatorView
        decreases n,
    {
        if n == 0 {
            self
        } else {
            self.after_allocations((n - 1) as nat).after_allocate()
        }
    }

    /// The allocator after `n` rounds, each an allocation followed at once by
    /// handing back the handle that it issued.
    pub open spec fn after_churn(self, n: nat) -> AllocatorView
        decreases n,
    {
        if n == 0 {
            self
        } else {
            let before = self.after_churn((n - 1) as nat);
            before.after_allocate().after_deallocate(before.next_handle())
        }
    }
}

/// Issues handles to slots and takes them back. A slot that was handed back
/// is recycled by a later allocation, most recently freed first, and
/// recycling starts a new generation of the slot.
pub struct GenerationalIndexAllocator {
    entries: Vec<AllocatorEntry>,
    free: Vec<usize>,
}

impl View for GenerationalIndexAllocator {
    type V = AllocatorView;

    closed spec fn view(&self) -> AllocatorView {
        AllocatorView { entries: self.entries@, free: self.free@ }
    }
}

impl GenerationalIndexAllocator {
    /// An allocator that has issued nothing.
    pub fn new() -> (allocator: GenerationalIndexAllocator)
        ensures
            allocator@ == AllocatorView::empty(),
            allocator@.wf(),
    {
        GenerationalIndexAllocator { entries: Vec::new(), free: Vec::new() }
    }

    /// Issues a handle that is live from now on. The slot on top of the free
    /// list is taken off and recycled in its next generation; with an empty
    /// free list a new slot is appended in generation 0. The generation
    /// counter is not allowed to run over: `can_allocate` tells whether the
    /// call is in order.
    pub fn allocate(&mut self) -> (handle: GenerationalIndex)
        requires
            old(self)@.can_allocate(),
        ensures
            handle@ == old(self)@.next_handle(),
            final(self)@ == old(self)@.after_allocate(),
            final(self)@.is_live(handle@),
            old(self)@.wf() ==> final(self)@.wf(),
    {
        if !self.free.is_empty() {
            let potential_index = self.free.pop().unwrap();

            // a slot on the free list is dead; should it not be, a new slot
            // is appended instead
            if potential_index < self.entries.len() {
                let allocator_entry = &mut self.entries[potential_index];
                if !allocator_entry.is_live {
                    allocator_entry.is_live = true;
                    allocator_entry.generation += 1;

                    return GenerationalIndex::new(potential_index, allocator_entry.generation);
                }
            }
        }

        let index = self.entries.len();
        let generation: u64 = 0;

        self.entries.push(AllocatorEntry { is_live: true, generation });

        GenerationalIndex::new(index, generation)
    }

    /// Whether `allocate` may be called: the slot that it would recycle has
    /// not used up its generations, or else the table is not full.
    pub fn can_allocate(&self) -> (ok: bool)
        ensures
            ok == self@.can_allocate(),
    {
        if !self.free.is_empty() {
            let top = self.free[self.free.len() - 1];
            if top < self.entries.len() {
                let allocator_entry = &self.entries[top];
                if !allocator_entry.is_live {
                    return allocator_entry.generation < u64::MAX;
                }
            }
        }
        self.entries.len() < usize::MAX
    }

    /// As `allocate`, for a caller that cannot tell whether there is room:
    /// where there is none, nothing is issued and the allocator stays as it
    /// is.
    pub fn try_allocate(&mut self) -> (handle: Option<GenerationalIndex>)
        ensures
            match handle {
                Some(issued) => {
                    &&& old(self)@.can_allocate()
                    &&& issued@ == old(self)@.next_handle()
                    &&& final(self)@ == old(self)@.after_allocate()
                    &&& final(self)@.is_live(issued@)
                },
                None => !old(self)@.can_allocate() && final(self)@ == old(self)@,
            },
            old(self)@.wf() ==> final(self)@.wf(),
    {
        if self.can_allocate() {
            Some(self.allocate())
        } else {
            None
        }
    }

    /// Takes `index` back. A live handle's slot dies and becomes the first to
    /// be recycled; a handle that is out of range, already dead or from an
    /// earlier generation changes nothing. Returns whether the handle was
    /// live.
    pub fn deallocate(&mut self, index: GenerationalIndex) -> (released: bool)
        ensures
            released == old(self)@.is_live(index@),
            final(self)@ == old(self)@.after_deallocate(index@),
            old(self)@.wf() ==> final(self)@.wf(),
    {
        if index.index() >= self.entries.len() {
            return false;
        }
        let allocator_entry = &mut self.entries[index.index()];
        if !allocator_entry.is_live {
            return false;
        }
        if allocator_entry.generation != index.generation() {
            return false;
        }
        allocator_entry.is_live = false;
        self.free.push(index.index());
        true
    }

    /// Whether `index` names a slot that is live in the handle's generation.
    pub fn is_live(&self, index: GenerationalIndex) -> (live: bool)
        ensures
            live == self@.is_live(index@),
    {
        if index.index() < self.entries.len() {
            let allocator_entry = &self.entries[index.index()];
            allocator_entry.generation == index.generation() && allocator_entry.is_live
        } else {
            false
        }
    }

    /// The slot table, in order of position.
    pub fn entries(&self) -> (entries: &[AllocatorEntry])
        ensures
            entries@ == self@.entries,
    {
        self.entries.as_slice()
    }

    /// The free list, the slot that is recycled next last.
    pub fn free(&self) -> (free: &[usize])
        ensures
            free@ == self@.free,
    {
        self.free.as_slice()
    }
}

} // verus!
