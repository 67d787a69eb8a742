//! What holds of the allocator and of the array over sequences of calls,
//! stated over their views and proved.

use vstd::prelude::*;
use crate::allocator::AllocatorView;
use crate::array::ArrayView;
use crate::handle::GenerationalIndexView;

verus! {

/// The allocator that has issued nothing is well formed, and its first
/// allocation has room.
pub proof fn lemma_empty_wf()
    ensures
        AllocatorView::empty().wf(),
        AllocatorView::empty().can_allocate(),
{
}

/// An allocation keeps the allocator well formed.
pub proof fn lemma_allocate_preserves_wf(allocator: AllocatorView)
    requires
        allocator.wf(),
    ensures
        allocator.after_allocate().wf(),
{
    let after = allocator.after_allocate();
    if allocator.free.len() > 0 {
        let top = allocator.free.last();
        assert(allocator.is_dead(top));
        assert forall|k: int| 0 <= k < after.free.len() implies after.is_dead(
            #[trigger] after.free[k],
        ) by {
            assert(allocator.is_dead(allocator.free[k]));
            assert(allocator.free[k] != top);
        }
    }
}

/// Handing a handle back keeps the allocator well formed, whether the handle
/// was live or not.
pub proof fn lemma_deallocate_preserves_wf(allocator: AllocatorView, handle: GenerationalIndexView)
    requires
        allocator.wf(),
    ensures
        allocator.after_deallocate(handle).wf(),
{
    let after = allocator.after_deallocate(handle);
    if allocator.is_live(handle) {
        assert forall|k: int| 0 <= k < after.free.len() implies after.is_dead(
            #[trigger] after.free[k],
        ) by {
            if k < allocator.free.len() {
                assert(allocator.is_dead(allocator.free[k]));
            }
        }
        assert forall|i: int, j: int| 0 <= i < after.free.len() && 0 <= j < after.free.len() && i
            != j implies after.free[i] != after.free[j] by {
            if i < allocator.free.len() {
                assert(allocator.is_dead(allocator.free[i]));
            }
            if j < allocator.free.len() {
                assert(allocator.is_dead(allocator.free[j]));
            }
        }
    }
}

/// In a well formed allocator the slot on top of the free list is always fit
/// to be recycled: an allocation appends a slot only when the free list is
/// empty.
pub proof fn lemma_wf_recycles_top(allocator: AllocatorView)
    requires
        allocator.wf(),
    ensures
        allocator.reuses_slot() <==> allocator.free.len() > 0,
{
    if allocator.free.len() > 0 {
        assert(allocator.is_dead(allocator.free[allocator.free.len() - 1]));
    }
}

/// An allocation never shrinks the slot table and never takes a slot's
/// generation back: the table keeps its length or gains one slot, and each
/// slot keeps its generation or moves on to the next.
pub proof fn lemma_allocate_grows_table(allocator: AllocatorView)
    requires
        allocator.can_allocate(),
    ensures
        allocator.entries.len() <= allocator.after_allocate().entries.len()
            <= allocator.entries.len() + 1,
        forall|i: int|
            0 <= i < allocator.entries.len() ==> allocator.entries[i].generation
                <= #[trigger] allocator.after_allocate().entries[i].generation
                <= allocator.entries[i].generation + 1,
{
}

/// Handing a handle back leaves the slot table at its length and every slot
/// in its generation.
pub proof fn lemma_deallocate_keeps_table(allocator: AllocatorView, handle: GenerationalIndexView)
    ensures
        allocator.after_deallocate(handle).entries.len() == allocator.entries.len(),
        forall|i: int|
            0 <= i < allocator.entries.len() ==> #[trigger] allocator.after_deallocate(
                handle,
            ).entries[i].generation == allocator.entries[i].generation,
{
}

/// The handle that an allocation issues is live at once, and a handle that
/// was live before stays live.
pub proof fn lemma_allocated_handle_is_live(allocator: AllocatorView, other: GenerationalIndexView)
    requires
        allocator.can_allocate(),
    ensures
        allocator.after_allocate().is_live(allocator.next_handle()),
        !allocator.is_live(allocator.next_handle()),
        allocator.is_live(other) ==> allocator.after_allocate().is_live(other),
{
}

/// With nothing handed back in between, allocations take the positions after
/// the end of the table in order, each in generation 0: from an allocator
/// with an empty free list and `len` slots, the allocation that follows `i`
/// others issues position `len + i`. From the allocator that has issued
/// nothing these are the positions 0, 1, 2 and so on.
pub proof fn lemma_monotonic_indices(allocator: AllocatorView, i: nat)
    requires
        allocator.free.len() == 0,
        allocator.entries.len() + i < usize::MAX,
    ensures
        allocator.after_allocations(i).can_allocate(),
        allocator.after_allocations(i).next_handle() == (GenerationalIndexView {
            index: (allocator.entries.len() + i) as usize,
            generation: 0,
        }),
        allocator.after_allocations(i).entries.len() == allocator.entries.len() + i,
        allocator.after_allocations(i).free.len() == 0,
    decreases i,
{
    if i > 0 {
        lemma_monotonic_indices(allocator, (i - 1) as nat);
    }
}

/// A live handle that is handed back is followed, at the next allocation, by
/// a handle to the same slot in the next generation; the two handles differ.
pub proof fn lemma_reuse_invalidation(allocator: AllocatorView, handle: GenerationalIndexView)
    requires
        allocator.is_live(handle),
        handle.generation < u64::MAX,
    ensures
        allocator.after_deallocate(handle).can_allocate(),
        allocator.after_deallocate(handle).next_handle().index == handle.index,
        allocator.after_deallocate(handle).next_handle().generation == handle.generation + 1,
        allocator.after_deallocate(handle).next_handle() != handle,
{
}

/// Once its slot has been recycled, the earlier handle is dead although the
/// slot is live again: the allocator reports the new handle live and the old
/// one not, and handing the old one back is refused and changes nothing.
pub proof fn lemma_stale_handle_rejected(allocator: AllocatorView, handle: GenerationalIndexView)
    requires
        allocator.is_live(handle),
        handle.generation < u64::MAX,
    ensures
        ({
            let released = allocator.after_deallocate(handle);
            let recycled = released.after_allocate();
            &&& recycled.is_live(released.next_handle())
            &&& !recycled.is_live(handle)
            &&& recycled.after_deallocate(handle) == recycled
        }),
{
}

/// The free list is a stack: of two live handles to different slots that are
/// handed back one after the other, the second one's slot is recycled first
/// and the first one's slot next, each in its next generation.
pub proof fn lemma_lifo_reuse(
    allocator: AllocatorView,
    first: GenerationalIndexView,
    second: GenerationalIndexView,
)
    requires
        allocator.is_live(first),
        allocator.is_live(second),
        first.index != second.index,
        first.generation < u64::MAX,
        second.generation < u64::MAX,
    ensures
        ({
            let released = allocator.after_deallocate(first).after_deallocate(second);
            &&& released.can_allocate()
            &&& released.next_handle() == (GenerationalIndexView {
                index: second.index,
                generation: (second.generation + 1) as u64,
            })
            &&& released.after_allocate().can_allocate()
            &&& released.after_allocate().next_handle() == (GenerationalIndexView {
                index: first.index,
                generation: (first.generation + 1) as u64,
            })
        }),
{
    let one = allocator.after_deallocate(first);
    assert(one.is_live(second));
    let released = one.after_deallocate(second);
    assert(released.free.last() == second.index);
    assert(released.reuses_slot());
    let next = released.after_allocate();
    assert(next.free =~= one.free);
    assert(next.free.last() == first.index);
    assert(next.is_dead(first.index));
}

/// Allocating and handing back at once, over and over, stays on one slot and
/// counts its generations up by one a round: if the first allocation would
/// issue generation `g` of a slot, the one after `n` such rounds issues
/// generation `g + n` of the same slot. From the allocator that has issued
/// nothing the generations are 0, 1, 2 and so on.
pub proof fn lemma_churn_generations(allocator: AllocatorView, n: nat)
    requires
        allocator.can_allocate(),
        allocator.next_handle().generation + n < u64::MAX,
    ensures
        allocator.after_churn(n).can_allocate(),
        allocator.after_churn(n).next_handle() == (GenerationalIndexView {
            index: allocator.next_handle().index,
            generation: (allocator.next_handle().generation + n) as u64,
        }),
    decreases n,
{
    if n > 0 {
        lemma_churn_generations(allocator, (n - 1) as nat);
        let before = allocator.after_churn((n - 1) as nat);
        let issued = before.next_handle();
        let live = before.after_allocate();
        assert(live.is_live(issued));
        let after = live.after_deallocate(issued);
        assert(after == allocator.after_churn(n));
        assert(after.free.last() == issued.index);
        assert(after.is_dead(issued.index));
    }
}

/// Handing a live handle back a second time is refused and changes nothing:
/// the allocator is as after the first time.
pub proof fn lemma_double_deallocation(allocator: AllocatorView, handle: GenerationalIndexView)
    requires
        allocator.is_live(handle),
    ensures
        !allocator.after_deallocate(handle).is_live(handle),
        allocator.after_deallocate(handle).after_deallocate(handle) == allocator.after_deallocate(
            handle,
        ),
{
}

/// Handing back is idempotent for every handle, live or not.
pub proof fn lemma_deallocate_idempotent(allocator: AllocatorView, handle: GenerationalIndexView)
    ensures
        allocator.after_deallocate(handle).after_deallocate(handle) == allocator.after_deallocate(
            handle,
        ),
{
    if allocator.is_live(handle) {
        lemma_double_deallocation(allocator, handle);
    }
}

/// The array without any position yields nothing.
pub proof fn lemma_empty_array_misses<T>(handle: GenerationalIndexView)
    ensures
        ArrayView::<T>::empty().get(handle) is None,
{
}

/// What was stored under a handle is what the handle reaches, whatever the
/// position held before.
pub proof fn lemma_set_get<T>(array: ArrayView<T>, handle: GenerationalIndexView, value: T)
    ensures
        array.set(handle, value).get(handle) == Some(value),
{
}

/// A value stored under one generation of a slot is out of reach for a handle
/// to any other generation of that slot.
pub proof fn lemma_other_generation_misses<T>(
    array: ArrayView<T>,
    handle: GenerationalIndexView,
    other: GenerationalIndexView,
    value: T,
)
    requires
        other.index == handle.index,
        other.generation != handle.generation,
    ensures
        array.set(handle, value).get(other) is None,
{
}

/// Storing under a handle leaves what every other position holds as it was.
pub proof fn lemma_set_keeps_other_positions<T>(
    array: ArrayView<T>,
    handle: GenerationalIndexView,
    other: GenerationalIndexView,
    value: T,
)
    requires
        other.index != handle.index,
    ensures
        array.set(handle, value).get(other) == array.get(other),
{
}

/// Storing never shrinks the storage: it keeps its length where the position
/// was within it, and ends with the position where it was not. A position that
/// held an entry holds one afterwards.
pub proof fn lemma_set_grows_storage<T>(
    array: ArrayView<T>,
    handle: GenerationalIndexView,
    value: T,
)
    ensures
        array.set(handle, value).slots.len() >= array.slots.len(),
        array.set(handle, value).slots.len() > handle.index,
        array.set(handle, value).slots.len() == array.slots.len() || array.set(
            handle,
            value,
        ).slots.len() == handle.index + 1,
        forall|i: int|
            0 <= i < array.slots.len() && array.slots[i] is Some ==> #[trigger] array.set(
                handle,
                value,
            ).slots[i] is Some,
{
}

/// The array checks generations by itself. After a value was stored under a
/// live handle and the handle's slot was recycled, the new handle reaches
/// nothing until something is stored under it; once something is, the old
/// handle reaches nothing any more.
pub proof fn lemma_recycled_slot_misses<T>(
    allocator: AllocatorView,
    array: ArrayView<T>,
    handle: GenerationalIndexView,
    value: T,
    replacement: T,
)
    requires
        allocator.is_live(handle),
        handle.generation < u64::MAX,
    ensures
        ({
            let recycled = allocator.after_deallocate(handle).next_handle();
            &&& array.set(handle, value).get(recycled) is None
            &&& array.set(handle, value).set(recycled, replacement).get(handle) is None
            &&& array.set(handle, value).set(recycled, replacement).get(recycled) == Some(
                replacement,
            )
        }),
{
    lemma_reuse_invalidation(allocator, handle);
}

} // verus!
