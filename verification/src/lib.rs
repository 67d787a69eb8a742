//! Generational indices: stable, copyable handles to slots whose storage is
//! recycled. A handle names a slot and the generation of the slot it was
//! issued for; every reuse of a slot starts a new generation, so a handle
//! kept from an earlier one no longer matches.

pub mod allocator;
pub mod array;
pub mod handle;
pub mod lemmas;

pub use allocator::GenerationalIndexAllocator;
pub use array::GenerationalIndexArray;
pub use handle::GenerationalIndex;
