//! Layout and constants of the kernel's per-thread `struct rseq`.
//!
//! Every registration is 32 bytes; `__rseq_size` is a feature report, not
//! the mapped size.

use vstd::prelude::*;

verus! {

/// Byte offset of `cpu_id_start` in `struct rseq`.
pub const CPU_ID_START_OFF: usize = 0;
/// Byte offset of `cpu_id` in `struct rseq`.
pub const CPU_ID_OFF: usize = 4;
/// Byte offset of `rseq_cs` in `struct rseq`.
pub const CS_OFF: usize = 8;
/// Byte offset of `flags` in `struct rseq`.
pub const FLAGS_OFF: usize = 16;
/// Byte offset of `node_id` in `struct rseq`.
pub const NODE_ID_OFF: usize = 20;
/// Byte offset of `mm_cid` in `struct rseq`.
pub const MM_CID_OFF: usize = 24;
/// Byte offset of `slice_ctrl` in `struct rseq`.
pub const SLICE_CTRL_OFF: usize = 28;
/// Size of every kernel registration of `struct rseq`.
pub const AREA_SIZE: usize = 32;

/// Smallest `__rseq_size` glibc reports when it registered an area.
pub const GLIBC_SIZE_MIN: usize = 20;
/// `rseq(2)` `RSEQ_FLAG_UNREGISTER`.
pub const FLAG_UNREGISTER: u32 = 1;
/// `RSEQ_CPU_ID_UNINITIALIZED` (`-1`).
pub const CPU_UNINIT: u32 = 0xffff_ffff;
/// `RSEQ_CPU_ID_REGISTRATION_FAILED` (`-2`).
pub const CPU_REG_FAILED: u32 = 0xffff_fffe;
/// glibc `RSEQ_SIG` on x86-64.
pub const SIG_X86_64: u32 = 0x5305_3053;
/// glibc `RSEQ_SIG_CODE` on little-endian aarch64 (`BRK #0x45E0`).
pub const SIG_AARCH64: u32 = 0xd428_bc00;
/// `AT_RSEQ_FEATURE_SIZE` auxv type.
pub const AT_RSEQ_FEATURE_SIZE: u64 = 27;
/// `offsetofend(struct rseq, node_id)`. Kernel populates `node_id` at this size.
pub const NODE_FEATURE_SIZE: u64 = 24;
/// `offsetofend(struct rseq, mm_cid)`. Kernel populates `mm_cid` at this size.
pub const CID_FEATURE_SIZE: u64 = 28;
/// `offsetofend(struct rseq, slice_ctrl)`. Kernel populates `slice_ctrl` at this size.
pub const SLICE_FEATURE_SIZE: u64 = 32;

/// The two values the kernel leaves in `cpu_id` when the area holds no CPU.
pub open spec fn is_cpu_sentinel(id: u32) -> bool {
    id == CPU_UNINIT || id == CPU_REG_FAILED
}

} // verus!
