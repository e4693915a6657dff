//! Process-wide rseq registration.

use vstd::prelude::*;

use crate::abi::{is_cpu_sentinel, CID_FEATURE_SIZE, NODE_FEATURE_SIZE, SLICE_FEATURE_SIZE};
use crate::cpus::Cpus;
use crate::ids::CpuId;
use crate::kernel::Kernel;
use crate::registration::{cid_supported, node_supported, slice_supported};
use crate::thread::Thread;
use crate::words::Words;

verus! {

/// Who registered this process's per-thread `struct rseq`.
#[derive(Clone, Copy, Debug, Eq, PartialEq, Structural)]
enum Mode {
    Glibc { offset: isize },
    SelfRegistered,
}

/// Which rseq presence query to run. librseq `rseq_available`.
#[derive(Clone, Copy, Debug, Eq, PartialEq, Structural)]
pub enum Available {
    /// The `rseq` syscall exists (`EINVAL` on a null probe).
    Kernel,
    /// libc exports `__rseq_offset` / `__rseq_size` / `__rseq_flags`.
    Libc,
}

/// What the process reports about rseq, gathered once by the caller.
#[derive(Clone, Copy, Debug)]
pub struct Host {
    /// glibc's area offset and `__rseq_size`, from
    /// [`crate::registration::glibc_area_info`].
    pub glibc: Option<(isize, usize)>,
    /// This thread registered the crate's own area with `SYS_rseq`
    /// (consulted only when glibc did not register).
    pub registered: bool,
    /// auxv `AT_RSEQ_FEATURE_SIZE` (0 if absent).
    pub feature_size: u64,
    /// Possible-CPU count, if it could be read.
    pub cpus: Option<Cpus>,
}

/// Process-wide rseq registration. `Copy`.
#[derive(Clone, Copy, Debug, Eq, PartialEq, Structural)]
pub struct Rseq {
    mode: Mode,
    cpus: Cpus,
    node: bool,
    cid: bool,
    slice: bool,
}

impl Rseq {
    /// CPU count used to size the per-CPU word region.
    pub closed spec fn spec_cpus(self) -> u32 {
        self.cpus@
    }

    /// glibc's TLS offset of the area, or `None` for the crate's own area.
    pub closed spec fn spec_glibc_offset(self) -> Option<isize> {
        match self.mode {
            Mode::Glibc { offset } => Some(offset),
            Mode::SelfRegistered => None,
        }
    }

    /// The kernel populates `node_id`.
    pub closed spec fn has_node(self) -> bool {
        self.node
    }

    /// The kernel populates `mm_cid`.
    pub closed spec fn has_cid(self) -> bool {
        self.cid
    }

    /// The kernel and this registration cover `slice_ctrl`.
    pub closed spec fn has_slice(self) -> bool {
        self.slice
    }

    /// glibc-registered area, or the crate's own area registered via
    /// `SYS_rseq`. `None` if neither registered, or the possible-CPU count is
    /// unknown.
    ///
    /// `slice_ctrl` is live only when both the kernel feature size and the
    /// registration are large enough. A 32-byte registration is the legacy
    /// size and does not cover it: the crate's own registration stays 32
    /// bytes, and glibc needs a `__rseq_size` of at least 33.
    pub fn new(host: &Host) -> (r: Option<Self>)
        ensures
            r is Some <==> (host.glibc is Some || host.registered) && host.cpus is Some,
            r matches Some(rs) ==> {
                &&& rs.cpus() == host.cpus->0@
                &&& rs.glibc_offset() == match host.glibc {
                    Some(g) => Some(g.0),
                    None => None::<isize>,
                }
                &&& rs.has_node() == (host.feature_size >= NODE_FEATURE_SIZE)
                &&& rs.has_cid() == (host.feature_size >= CID_FEATURE_SIZE)
                &&& rs.has_slice() == (host.glibc matches Some(g) && host.feature_size
                    >= SLICE_FEATURE_SIZE && g.1 > SLICE_FEATURE_SIZE)
            },
    {
        let (mode, slice) = match host.glibc {
            Some((offset, size)) => {
                let slice = slice_supported(host.feature_size) && (size as u64) > SLICE_FEATURE_SIZE;
                (Mode::Glibc { offset }, slice)
            },
            None => {
                if !host.registered {
                    return None;
                }
                (Mode::SelfRegistered, false)
            },
        };
        let cpus = match host.cpus {
            Some(c) => c,
            None => return None,
        };
        Some(
            Self {
                mode,
                cpus,
                node: node_supported(host.feature_size),
                cid: cid_supported(host.feature_size),
                slice,
            },
        )
    }

    /// librseq `rseq_available`, from the two probe results: the `rseq`
    /// syscall exists, and libc exports the rseq symbols. Does not require
    /// [`Self::new`].
    pub fn available(query: Available, kernel: bool, libc: bool) -> (r: bool)
        ensures
            r == match query {
                Available::Kernel => kernel,
                Available::Libc => libc,
            },
    {
        match query {
            Available::Kernel => kernel,
            Available::Libc => libc,
        }
    }

    /// glibc's TLS offset of the area, or `None` for the crate's own area.
    #[verifier::when_used_as_spec(spec_glibc_offset)]
    pub fn glibc_offset(self) -> (r: Option<isize>)
        ensures
            r == self.glibc_offset(),
    {
        match self.mode {
            Mode::Glibc { offset } => Some(offset),
            Mode::SelfRegistered => None,
        }
    }

    /// Bind this thread's registered `area`. `None` while its `cpu_id` holds
    /// a sentinel. Store the `Thread` in caller TLS.
    pub fn bind<S: Kernel>(self, area: S) -> (r: Option<Thread<S>>)
        ensures
            exists|id: u32|
                #![trigger call_ensures(S::load_cpu_id, (&area,), id)]
                call_ensures(S::load_cpu_id, (&area,), id) && (r is Some <==> !is_cpu_sentinel(id)),
            r matches Some(t) ==> {
                &&& t.area() == area
                &&& t.has_node() == self.has_node()
                &&& t.has_cid() == self.has_cid()
                &&& t.has_slice() == self.has_slice()
            },
    {
        let load = S::load_cpu_id;
        let id = load(&area);
        assert(call_ensures(S::load_cpu_id, (&area,), id));
        if CpuId::new(id).is_none() {
            return None;
        }
        Some(Thread::new(area, self.node, self.cid, self.slice))
    }

    /// Expedited RSEQ membarrier targeted at `cpu`. `false` without a call
    /// when `cpu` is not below [`Self::cpus`] or is not a C `int`.
    ///
    /// A cid word has no CPU. Draining one needs [`Self::fence_all`].
    pub fn fence<S: Kernel>(self, cpu: CpuId) -> (r: bool)
        ensures
            cpu@ >= self.cpus() ==> !r,
            cpu@ > i32::MAX ==> !r,
            cpu@ < self.cpus() && cpu@ <= i32::MAX ==> call_ensures(
                S::membarrier_cpu,
                (cpu@ as i32,),
                r,
            ),
    {
        let id = cpu.get();
        if id >= self.cpus.get() || id > 0x7fff_ffff {
            return false;
        }
        let fence = S::membarrier_cpu;
        fence(id as i32)
    }

    /// Expedited RSEQ membarrier on every CPU. Use this to drain a cid word.
    pub fn fence_all<S: Kernel>(self) -> (r: bool)
        ensures
            call_ensures(S::membarrier_all, (), r),
    {
        let fence = S::membarrier_all;
        fence()
    }

    /// CPU count used to size the per-CPU word region.
    #[verifier::when_used_as_spec(spec_cpus)]
    pub fn cpus(self) -> (r: u32)
        ensures
            r == self.cpus(),
            r > 0,
    {
        self.cpus.get()
    }

    /// A new per-CPU word region sized for [`Self::cpus`]. Caller owns it.
    pub fn words(self) -> (r: Option<Words>)
        ensures
            r matches Some(w) && w.cpus() == self.cpus(),
    {
        Words::new(self.cpus.get())
    }
}

} // verus!
