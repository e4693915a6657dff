//! The kernel-facing half of the library.
//!
//! A critical section is an exact instruction range that the kernel
//! restarts on preemption; it cannot be written in Rust. A [`Kernel`] runs
//! those sequences against one thread's registered `struct rseq`, reads
//! the kernel-owned fields of that area, and issues the process-wide calls
//! the library needs. Nothing is assumed of what it returns: the library
//! decides on every value it may hand back.

use core::sync::atomic::AtomicUsize;

use vstd::prelude::*;

use crate::attempt::Attempt;

verus! {

/// One thread's registered rseq area, and the kernel calls around it.
///
/// Each critical section confirms that the area's field at `id_off`
/// (`cpu_id` or `mm_cid`) equals `id`, else aborts; its only committing
/// store is the last instruction.
pub trait Kernel: Copy {
    /// The area's `cpu_id`.
    fn load_cpu_id(&self) -> u32;

    /// The area's `cpu_id_start`.
    fn load_cpu_id_start(&self) -> u32;

    /// The area's `node_id`.
    fn load_node_id(&self) -> u32;

    /// The area's `mm_cid`.
    fn load_mm_cid(&self) -> u32;

    /// The area's `slice_ctrl`.
    fn load_slice_ctrl(&self) -> u32;

    /// Store 0 to the area's `rseq_cs`.
    fn clear_rseq_cs(&self);

    /// librseq `rseq_load_cbne_store`: if `*word == expect`, store `new`.
    fn compare_exchange(&self, id_off: usize, id: u32, word: &AtomicUsize, expect: usize, new: usize) -> Attempt;

    /// librseq `rseq_load_cbne_load_cbne_store`: if `*word == expect` and
    /// `*other == other_expect`, store `new` to `word`.
    fn compare_exchange_if(
        &self,
        id_off: usize,
        id: u32,
        word: &AtomicUsize,
        expect: usize,
        new: usize,
        other: &AtomicUsize,
        other_expect: usize,
    ) -> Attempt;

    /// librseq `rseq_load_add_store`: add `count` to `*word`.
    fn fetch_add(&self, id_off: usize, id: u32, word: &AtomicUsize, count: usize) -> Attempt;

    /// librseq `rseq_load_add_load_load_add_store`: add `count` to the word
    /// whose address is loaded from `*ptr + offset`.
    fn fetch_add_at(&self, id_off: usize, id: u32, ptr: &AtomicUsize, offset: isize, count: usize) -> Attempt;

    /// librseq `rseq_load_cbeq_store_add_load_store`: if
    /// `*word != expect_not`, store the old `*word` to `out` and set
    /// `*word = *(*word + offset)`.
    fn load_if_ne(
        &self,
        id_off: usize,
        id: u32,
        word: &AtomicUsize,
        expect_not: usize,
        offset: isize,
        out: &AtomicUsize,
    ) -> Attempt;

    /// librseq `rseq_load_cbne_store_store`: if `*word == expect`, store
    /// `side_new` to `side` (scratch), then `new` to `word` (Release if
    /// `release`).
    fn store_if(
        &self,
        id_off: usize,
        id: u32,
        release: bool,
        word: &AtomicUsize,
        expect: usize,
        new: usize,
        side: &AtomicUsize,
        side_new: usize,
    ) -> Attempt;

    /// librseq `rseq_load_cbne_memcpy_store`: if `*word == expect`, copy
    /// `src` to `dst` (scratch), then store `new` to `word` (Release if
    /// `release`). `dst` and `src` have one length, at most `COPY_MAX`.
    fn store_if_copy(
        &self,
        id_off: usize,
        id: u32,
        release: bool,
        word: &AtomicUsize,
        expect: usize,
        new: usize,
        dst: &mut [u8],
        src: &[u8],
    ) -> Attempt;

    /// `sched_getcpu()`: the current CPU, or negative on failure.
    fn sched_getcpu() -> i32;

    /// `getcpu` syscall: its return code and the node it wrote.
    fn getcpu_node() -> (i64, u32);

    /// Expedited RSEQ membarrier on one CPU. `true` on success.
    fn membarrier_cpu(cpu: i32) -> bool;

    /// Expedited RSEQ membarrier on every CPU. `true` on success.
    fn membarrier_all() -> bool;
}

/// A target without critical sections: every sequence aborts, nothing is
/// registered, and no membarrier is available.
#[derive(Clone, Copy, Debug)]
pub struct Unsupported;

impl Kernel for Unsupported {
    fn load_cpu_id(&self) -> (r: u32)
        ensures
            r == crate::abi::CPU_UNINIT,
    {
        crate::abi::CPU_UNINIT
    }

    fn load_cpu_id_start(&self) -> (r: u32)
        ensures
            r == crate::abi::CPU_UNINIT,
    {
        crate::abi::CPU_UNINIT
    }

    fn load_node_id(&self) -> (r: u32)
        ensures
            r == 0,
    {
        0
    }

    fn load_mm_cid(&self) -> (r: u32)
        ensures
            r == 0,
    {
        0
    }

    fn load_slice_ctrl(&self) -> (r: u32)
        ensures
            r == 0,
    {
        0
    }

    fn clear_rseq_cs(&self) {
    }

    fn compare_exchange(&self, id_off: usize, id: u32, word: &AtomicUsize, expect: usize, new: usize) -> (r: Attempt)
        ensures
            r == Attempt::Abort,
    {
        Attempt::Abort
    }

    fn compare_exchange_if(
        &self,
        id_off: usize,
        id: u32,
        word: &AtomicUsize,
        expect: usize,
        new: usize,
        other: &AtomicUsize,
        other_expect: usize,
    ) -> (r: Attempt)
        ensures
            r == Attempt::Abort,
    {
        Attempt::Abort
    }

    fn fetch_add(&self, id_off: usize, id: u32, word: &AtomicUsize, count: usize) -> (r: Attempt)
        ensures
            r == Attempt::Abort,
    {
        Attempt::Abort
    }

    fn fetch_add_at(&self, id_off: usize, id: u32, ptr: &AtomicUsize, offset: isize, count: usize) -> (r: Attempt)
        ensures
            r == Attempt::Abort,
    {
        Attempt::Abort
    }

    fn load_if_ne(
        &self,
        id_off: usize,
        id: u32,
        word: &AtomicUsize,
        expect_not: usize,
        offset: isize,
        out: &AtomicUsize,
    ) -> (r: Attempt)
        ensures
            r == Attempt::Abort,
    {
        Attempt::Abort
    }

    fn store_if(
        &self,
        id_off: usize,
        id: u32,
        release: bool,
        word: &AtomicUsize,
        expect: usize,
        new: usize,
        side: &AtomicUsize,
        side_new: usize,
    ) -> (r: Attempt)
        ensures
            r == Attempt::Abort,
    {
        Attempt::Abort
    }

    fn store_if_copy(
        &self,
        id_off: usize,
        id: u32,
        release: bool,
        word: &AtomicUsize,
        expect: usize,
        new: usize,
        dst: &mut [u8],
        src: &[u8],
    ) -> (r: Attempt)
        ensures
            r == Attempt::Abort,
    {
        Attempt::Abort
    }

    fn sched_getcpu() -> (r: i32)
        ensures
            r == -1,
    {
        -1
    }

    fn getcpu_node() -> (r: (i64, u32))
        ensures
            r == (-1i64, 0u32),
    {
        (-1, 0)
    }

    fn membarrier_cpu(cpu: i32) -> (r: bool)
        ensures
            !r,
    {
        false
    }

    fn membarrier_all() -> (r: bool)
        ensures
            !r,
    {
        false
    }
}

} // verus!
