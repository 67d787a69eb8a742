//! The handle: an index into a slot table together with the generation of
//! the slot it was issued for.

use vstd::prelude::*;

verus! {

/// What a handle stands for: a position in the slot table and the generation
/// of that slot at the time the handle was issued.
pub struct GenerationalIndexView {
    pub index: usize,
    pub generation: u64,
}

/// A handle to a slot. Its fields cannot be changed once it has been issued;
/// two handles are equal exactly when they name the same slot in the same
/// generation.
#[derive(Eq, PartialEq, Copy, Clone, Debug, Structural)]
pub struct GenerationalIndex {
    index: usize,
    generation: u64,
}

impl View for GenerationalIndex {
    type V = GenerationalIndexView;

    closed spec fn view(&self) -> GenerationalIndexView {
        GenerationalIndexView { index: self.index, generation: self.generation }
    }
}

impl GenerationalIndex {
    /// Builds the handle for slot `index` in generation `generation`.
    pub(crate) fn new(index: usize, generation: u64) -> (handle: GenerationalIndex)
        ensures
            handle@ == (GenerationalIndexView { index, generation }),
    {
        GenerationalIndex { index, generation }
    }

    /// The position in the slot table that this handle names.
    pub fn index(&self) -> (index: usize)
        ensures
            index == self@.index,
    {
        self.index
    }

    /// The generation of the slot that this handle was issued for.
    pub fn generation(&self) -> (generation: u64)
        ensures
            generation == self@.generation,
    {
        self.generation
    }

    /// Handles are equal exactly when they stand for the same slot and
    /// generation.
    pub proof fn lemma_view_injective(self, other: GenerationalIndex)
        ensures
            self@ == other@ <==> self == other,
    {
    }
}

} // verus!
