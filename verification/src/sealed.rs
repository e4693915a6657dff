//! The crate-private half of [`crate::Index`].

use vstd::prelude::*;

verus! {

/// Area offset and numeric id of an [`crate::Index`] kind.
pub trait Sealed: Copy + Eq {
    /// The numeric id.
    spec fn id(self) -> u32;

    /// Byte offset in `struct rseq` of the field a critical section confirms.
    spec fn area_offset() -> usize;

    /// The numeric id.
    fn get(self) -> (r: u32)
        ensures
            r == self.id(),
    ;

    /// Byte offset in `struct rseq` of the field a critical section confirms.
    fn offset() -> (r: usize)
        ensures
            r == Self::area_offset(),
    ;
}

} // verus!
