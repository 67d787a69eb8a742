//! Sparse storage keyed by handle: one value per slot, stamped with the
//! generation of the handle that stored it.

use vstd::prelude::*;
use crate::handle::{GenerationalIndex, GenerationalIndexView};

verus! {

/// A stored value and the generation it was stored under.
pub struct ArrayEntry<T> {
    pub value: T,
    pub generation: u64,
}

/// The array as a mathematical value: a sequence of positions, each empty or
/// holding one entry.
#[verifier::ext_equal]
pub struct ArrayView<T> {
    pub slots: Seq<Option<ArrayEntry<T>>>,
}

impl<T> ArrayView<T> {
    /// The array without any position.
    pub open spec fn empty() -> ArrayView<T> {
        ArrayView { slots: Seq::empty() }
    }

    /// The value that `handle` reaches: the one stored at the handle's
    /// position, provided it was stored under the handle's generation.
    pub open spec fn get(self, handle: GenerationalIndexView) -> Option<T> {
        if handle.index < self.slots.len() {
            match self.slots[handle.index as int] {
                Some(entry) => if entry.generation == handle.generation {
                    Some(entry.value)
                } else {
                    None
                },
                None => None,
            }
        } else {
            None
        }
    }

    /// The array after `value` has been stored under `handle`. The handle's
    /// position holds the value and the handle's generation; every other
    /// position is as before; where the array ended before the handle's
    /// position, empty positions fill it up to there.
    pub open spec fn set(self, handle: GenerationalIndexView, value: T) -> ArrayView<T> {
        let len = if handle.index < self.slots.len() {
            self.slots.len()
        } else {
            (handle.index + 1) as nat
        };
        ArrayView {
            slots: Seq::new(
                len,
                |i: int|
                    if i == handle.index {
                        Some(ArrayEntry { value, generation: handle.generation })
                    } else if i < self.slots.len() {
                        self.slots[i]
                    } else {
                        None
                    },
            ),
        }
    }
}

/// Storage for one value per slot. A value is reached only through a handle
/// of the generation it was stored under.
pub struct GenerationalIndexArray<T>(Vec<Option<ArrayEntry<T>>>);

impl<T> View for GenerationalIndexArray<T> {
    type V = ArrayView<T>;

    closed spec fn view(&self) -> ArrayView<T> {
        ArrayView { slots: self.0@ }
    }
}

impl<T> GenerationalIndexArray<T> {
    /// An array without any position.
    pub fn new() -> (array: GenerationalIndexArray<T>)
        ensures
            array@ == ArrayView::<T>::empty(),
    {
        GenerationalIndexArray(Vec::new())
    }

    /// Stores `value` under `index`, in place of whatever the position held,
    /// whichever generation that was stored under. The storage grows as far
    /// as the position, and never shrinks.
    pub fn set(&mut self, index: GenerationalIndex, value: T)
        ensures
            final(self)@ == old(self)@.set(index@, value),
    {
        let inx = index.index();
        // extend the storage up to the position
        while self.0.len() <= inx
            invariant
                old(self).0@.len() <= self.0@.len(),
                self.0@.len() <= old(self).0@.len() || self.0@.len() <= inx + 1,
                forall|i: int| 0 <= i < old(self).0@.len() ==> self.0@[i] == old(self).0@[i],
                forall|i: int| old(self).0@.len() <= i < self.0@.len() ==> self.0@[i] is None,
            decreases inx + 1 - self.0.len(),
        {
            self.0.push(None);
        }
        self.0[inx] = Some(ArrayEntry { value, generation: index.generation() });
    }

    /// The value stored under `index`, if the position holds one of the
    /// handle's generation. An empty position, a position beyond the storage
    /// and a value of another generation all give `None`.
    pub fn get(&self, index: GenerationalIndex) -> (value: Option<&T>)
        ensures
            match value {
                Some(v) => self@.get(index@) == Some(*v),
                None => self@.get(index@) is None,
            },
    {
        if self.0.len() <= index.index() {
            return None;
        }
        match &self.0[index.index()] {
            None => None,
            Some(entry) => {
                if index.generation() == entry.generation {
                    Some(&entry.value)
                } else {
                    None
                }
            },
        }
    }

    /// As `get`, for writing: what the caller leaves in the returned
    /// reference is what the array then holds under `index`. Where `get`
    /// gives `None`, so does this, and the array stays as it is.
    pub fn get_mut(&mut self, index: GenerationalIndex) -> (value: Option<&mut T>)
        ensures
            match value {
                Some(v) => old(self)@.get(index@) == Some(*v) && final(self)@ == old(self)@.set(
                    index@,
                    *final(v),
                ),
                None => old(self)@.get(index@) is None && final(self)@ == old(self)@,
            },
    {
        if self.0.len() <= index.index() {
            return None;
        }
        match &mut self.0[index.index()] {
            None => None,
            Some(entry) => {
                if index.generation() == entry.generation {
                    Some(&mut entry.value)
                } else {
                    None
                }
            },
        }
    }
}

} // verus!
