//! CPU, concurrency and NUMA node ids read from the rseq area.

use core::cmp::Ordering;

use vstd::prelude::*;
use vstd::std_specs::cmp::PartialOrdSpec;

use crate::abi::{is_cpu_sentinel, CPU_ID_OFF, CPU_REG_FAILED, CPU_UNINIT, MM_CID_OFF};
use crate::sealed::Sealed;

verus! {

/// Per-thread index a critical section confirms: [`CpuId`] or [`Cid`].
///
/// Sealed. Downstream crates can name this trait as a bound but cannot
/// implement it.
pub trait Index: Sealed {}

/// Logical CPU index. Newtype so it cannot be mixed with a raw `u32`.
///
/// Ordered by the numeric id.
#[derive(Clone, Copy, Debug, Eq, Hash, Ord, PartialEq, Structural)]
pub struct CpuId(u32);

impl PartialOrd for CpuId {
    fn partial_cmp(&self, other: &Self) -> (r: Option<Ordering>) {
        if self.0 < other.0 {
            Some(Ordering::Less)
        } else if self.0 == other.0 {
            Some(Ordering::Equal)
        } else {
            Some(Ordering::Greater)
        }
    }
}

impl vstd::std_specs::cmp::PartialOrdSpecImpl for CpuId {
    open spec fn obeys_partial_cmp_spec() -> bool {
        true
    }

    open spec fn partial_cmp_spec(&self, other: &Self) -> Option<Ordering> {
        if self@ < other@ {
            Some(Ordering::Less)
        } else if self@ == other@ {
            Some(Ordering::Equal)
        } else {
            Some(Ordering::Greater)
        }
    }
}

impl View for CpuId {
    type V = u32;

    closed spec fn view(&self) -> u32 {
        self.0
    }
}

impl CpuId {
    /// CPU ids compare as their numeric ids: equal exactly when the ids
    /// are, and `<` exactly when the ids are.
    pub proof fn lemma_order(self, other: Self)
        ensures
            (self == other) <==> (self@ == other@),
            (self.partial_cmp_spec(&other) == Some(Ordering::Less)) <==> (self@ < other@),
            (self.partial_cmp_spec(&other) == Some(Ordering::Greater)) <==> (self@ > other@),
    {
    }

    /// Two values are equal exactly when their ids are.
    pub proof fn lemma_view_injective(self, other: Self)
        ensures
            (self == other) <==> (self@ == other@),
    {
    }

    #[verifier::type_invariant]
    closed spec fn not_sentinel(self) -> bool {
        !is_cpu_sentinel(self.0)
    }

    /// Rejects the kernel uninitialized and registration-failed sentinels.
    pub fn new(id: u32) -> (r: Option<Self>)
        ensures
            r is Some <==> !is_cpu_sentinel(id),
            r matches Some(c) ==> c@ == id,
    {
        if id == CPU_UNINIT || id == CPU_REG_FAILED {
            None
        } else {
            Some(Self(id))
        }
    }

    /// CPU 0.
    pub(crate) fn zero() -> (r: Self)
        ensures
            r@ == 0,
    {
        Self(0)
    }

    /// The numeric CPU id. Never a sentinel.
    pub fn get(self) -> (r: u32)
        ensures
            r == self@,
            !is_cpu_sentinel(r),
    {
        proof {
            use_type_invariant(self);
        }
        self.0
    }
}


impl Sealed for CpuId {
    open spec fn id(self) -> u32 {
        self@
    }

    open spec fn area_offset() -> usize {
        CPU_ID_OFF
    }

    fn get(self) -> (r: u32) {
        self.0
    }

    fn offset() -> (r: usize) {
        CPU_ID_OFF
    }
}

impl Index for CpuId {}

/// Compact concurrency id (`mm_cid`). Dense in `[0, min(threads, allowed CPUs))`.
///
/// Obtainable only from [`crate::Thread::cid`].
#[derive(Clone, Copy, Debug, Eq, Hash, Ord, PartialEq, PartialOrd, Structural)]
pub struct Cid(u32);

impl View for Cid {
    type V = u32;

    closed spec fn view(&self) -> u32 {
        self.0
    }
}

impl Cid {
    /// Two values are equal exactly when their ids are.
    pub proof fn lemma_view_injective(self, other: Self)
        ensures
            (self == other) <==> (self@ == other@),
    {
    }

    pub(crate) fn new(id: u32) -> (r: Self)
        ensures
            r@ == id,
    {
        Self(id)
    }

    /// The numeric concurrency id.
    pub fn get(self) -> (r: u32)
        ensures
            r == self@,
    {
        self.0
    }
}

impl Sealed for Cid {
    open spec fn id(self) -> u32 {
        self@
    }

    open spec fn area_offset() -> usize {
        MM_CID_OFF
    }

    fn get(self) -> (r: u32) {
        self.0
    }

    fn offset() -> (r: usize) {
        MM_CID_OFF
    }
}

impl Index for Cid {}

/// NUMA node id from `area.node_id`.
#[derive(Clone, Copy, Debug, Eq, Hash, Ord, PartialEq, PartialOrd, Structural)]
pub struct NodeId(u32);

impl View for NodeId {
    type V = u32;

    closed spec fn view(&self) -> u32 {
        self.0
    }
}

impl NodeId {
    /// Two values are equal exactly when their ids are.
    pub proof fn lemma_view_injective(self, other: Self)
        ensures
            (self == other) <==> (self@ == other@),
    {
    }

    /// Wrap a kernel node id.
    pub fn new(id: u32) -> (r: Self)
        ensures
            r@ == id,
    {
        Self(id)
    }

    /// The numeric node id.
    pub fn get(self) -> (r: u32)
        ensures
            r == self@,
    {
        self.0
    }
}

} // verus!
