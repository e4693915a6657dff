//! How this process's per-thread `struct rseq` was registered, decided from
//! what glibc exports and what the kernel advertises.

use vstd::prelude::*;

use crate::abi::{CID_FEATURE_SIZE, GLIBC_SIZE_MIN, NODE_FEATURE_SIZE, SLICE_FEATURE_SIZE};

verus! {

/// glibc's rseq TLS offset and reported `__rseq_size`, from the values of
/// its `__rseq_size` and `__rseq_offset` symbols (`None` where a symbol is
/// absent). `None` if glibc did not register: a symbol is missing or the
/// size is below [`GLIBC_SIZE_MIN`].
pub fn glibc_area_info(size: Option<u32>, offset: Option<isize>) -> (r: Option<(isize, usize)>)
    ensures
        r is Some <==> size is Some && offset is Some && size->0 >= GLIBC_SIZE_MIN,
        r matches Some(info) ==> info.0 == offset->0 && info.1 == size->0,
{
    match (size, offset) {
        (Some(size), Some(offset)) => {
            let size = size as usize;
            if size < GLIBC_SIZE_MIN {
                None
            } else {
                Some((offset, size))
            }
        },
        _ => None,
    }
}

/// The kernel populates `node_id` at this auxv `AT_RSEQ_FEATURE_SIZE`.
pub fn node_supported(feature_size: u64) -> (r: bool)
    ensures
        r == (feature_size >= NODE_FEATURE_SIZE),
{
    feature_size >= NODE_FEATURE_SIZE
}

/// The kernel populates `mm_cid` at this auxv `AT_RSEQ_FEATURE_SIZE`.
pub fn cid_supported(feature_size: u64) -> (r: bool)
    ensures
        r == (feature_size >= CID_FEATURE_SIZE),
{
    feature_size >= CID_FEATURE_SIZE
}

/// The kernel advertises `slice_ctrl` at this auxv `AT_RSEQ_FEATURE_SIZE`.
/// The registration must also be larger than the legacy 32 bytes; see
/// [`crate::Rseq::new`].
pub fn slice_supported(feature_size: u64) -> (r: bool)
    ensures
        r == (feature_size >= SLICE_FEATURE_SIZE),
{
    feature_size >= SLICE_FEATURE_SIZE
}

/// librseq `rseq_available(RSEQ_AVAILABLE_QUERY_KERNEL)`: a null
/// `SYS_rseq` probe returns -1 with `EINVAL` when the syscall exists
/// (`ENOSYS` when it does not).
pub fn kernel_available(rc: i64, einval: bool) -> (r: bool)
    ensures
        r == (rc == -1 && einval),
{
    rc == -1 && einval
}

/// librseq `rseq_available(RSEQ_AVAILABLE_QUERY_LIBC)`: libc exports all
/// three of `__rseq_size`, `__rseq_offset` and `__rseq_flags`.
pub fn libc_available(size: bool, offset: bool, flags: bool) -> (r: bool)
    ensures
        r == (size && offset && flags),
{
    size && offset && flags
}

} // verus!
