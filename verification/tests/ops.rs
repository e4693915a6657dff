//! Word operations against a simulated rseq area.
//!
//! `Sim` stands in for one thread's registered area on one CPU. Each
//! sequence runs to completion unless the confirmed index is not the key,
//! which is what a real critical section does when nothing preempts it.
//! Re-binding a `Sim` on another CPU plays the part of pinning the thread.

use core::sync::atomic::{AtomicUsize, Ordering};

use rseq_rs::abi::MM_CID_OFF;
use rseq_rs::{Attempt, Available, Cpus, CpuId, Error, Host, Kernel, Rseq, Word};

#[derive(Clone, Copy, Debug)]
struct Sim {
    cpu: u32,
    cid: u32,
    node: u32,
}

impl Sim {
    fn on(cpu: u32) -> Self {
        Sim { cpu, cid: cpu, node: 0 }
    }

    fn index(&self, id_off: usize) -> u32 {
        if id_off == MM_CID_OFF {
            self.cid
        } else {
            self.cpu
        }
    }
}

impl Kernel for Sim {
    fn load_cpu_id(&self) -> u32 {
        self.cpu
    }

    fn load_cpu_id_start(&self) -> u32 {
        self.cpu
    }

    fn load_node_id(&self) -> u32 {
        self.node
    }

    fn load_mm_cid(&self) -> u32 {
        self.cid
    }

    fn load_slice_ctrl(&self) -> u32 {
        0
    }

    fn clear_rseq_cs(&self) {}

    fn compare_exchange(
        &self,
        id_off: usize,
        id: u32,
        word: &AtomicUsize,
        expect: usize,
        new: usize,
    ) -> Attempt {
        if self.index(id_off) != id {
            return Attempt::Abort;
        }
        let current = word.load(Ordering::Relaxed);
        if current != expect {
            return Attempt::Miss(current);
        }
        word.store(new, Ordering::Relaxed);
        Attempt::Commit(current)
    }

    fn compare_exchange_if(
        &self,
        id_off: usize,
        id: u32,
        word: &AtomicUsize,
        expect: usize,
        new: usize,
        other: &AtomicUsize,
        other_expect: usize,
    ) -> Attempt {
        if self.index(id_off) != id {
            return Attempt::Abort;
        }
        let current = word.load(Ordering::Relaxed);
        if current != expect {
            return Attempt::Miss(current);
        }
        let seen = other.load(Ordering::Relaxed);
        if seen != other_expect {
            return Attempt::Miss(seen);
        }
        word.store(new, Ordering::Relaxed);
        Attempt::Commit(current)
    }

    fn fetch_add(&self, id_off: usize, id: u32, word: &AtomicUsize, count: usize) -> Attempt {
        if self.index(id_off) != id {
            return Attempt::Abort;
        }
        Attempt::Commit(word.fetch_add(count, Ordering::Relaxed))
    }

    fn fetch_add_at(
        &self,
        _id_off: usize,
        _id: u32,
        _ptr: &AtomicUsize,
        _offset: isize,
        _count: usize,
    ) -> Attempt {
        // Chasing a raw address is beyond the simulation.
        Attempt::Abort
    }

    fn load_if_ne(
        &self,
        _id_off: usize,
        _id: u32,
        _word: &AtomicUsize,
        _expect_not: usize,
        _offset: isize,
        _out: &AtomicUsize,
    ) -> Attempt {
        // Chasing a raw address is beyond the simulation.
        Attempt::Abort
    }

    fn store_if(
        &self,
        id_off: usize,
        id: u32,
        _release: bool,
        word: &AtomicUsize,
        expect: usize,
        new: usize,
        side: &AtomicUsize,
        side_new: usize,
    ) -> Attempt {
        if self.index(id_off) != id {
            return Attempt::Abort;
        }
        let current = word.load(Ordering::Relaxed);
        if current != expect {
            return Attempt::Miss(current);
        }
        side.store(side_new, Ordering::Relaxed);
        word.store(new, Ordering::Relaxed);
        Attempt::Commit(current)
    }

    fn store_if_copy(
        &self,
        id_off: usize,
        id: u32,
        _release: bool,
        word: &AtomicUsize,
        expect: usize,
        new: usize,
        dst: &mut [u8],
        src: &[u8],
    ) -> Attempt {
        if self.index(id_off) != id {
            return Attempt::Abort;
        }
        let current = word.load(Ordering::Relaxed);
        if current != expect {
            return Attempt::Miss(current);
        }
        dst.copy_from_slice(src);
        word.store(new, Ordering::Relaxed);
        Attempt::Commit(current)
    }

    fn sched_getcpu() -> i32 {
        0
    }

    fn getcpu_node() -> (i64, u32) {
        (0, 0)
    }

    fn membarrier_cpu(_cpu: i32) -> bool {
        true
    }

    fn membarrier_all() -> bool {
        true
    }
}

/// A process whose glibc registered a 32-byte area on a kernel that
/// populates `node_id` and `mm_cid`, with `0-3` possible CPUs.
fn host() -> Host {
    Host {
        glibc: Some((0x40, 32)),
        registered: false,
        feature_size: 28,
        cpus: Cpus::parse(b"0-3\n"),
    }
}

fn rseq() -> Rseq {
    Rseq::new(&host()).expect("rseq")
}

fn other_cpu(rseq: Rseq, here: CpuId) -> CpuId {
    (0..rseq.cpus())
        .filter_map(CpuId::new)
        .find(|id| *id != here)
        .expect("other cpu")
}

#[test]
fn available_kernel() {
    assert!(Rseq::available(Available::Kernel, true, false));
    assert!(!Rseq::available(Available::Libc, true, false));
    assert!(Rseq::available(Available::Libc, false, true));
    assert!(!Rseq::available(Available::Kernel, false, true));
}

#[test]
fn bind_when_available() {
    let rseq = rseq();
    let thread = rseq.bind(Sim::on(1)).expect("glibc area should bind after new");
    let cpu = thread.cpu_id().expect("cpu_id in range after bind");
    assert!(cpu.get() < rseq.cpus());
    assert!(rseq.fence::<Sim>(cpu));
}

#[test]
fn bind_reads_and_fence_all() {
    let rseq = rseq();
    let thread = rseq.bind(Sim::on(2)).expect("bind");
    let cpu = thread.cpu_id().expect("cpu_id");
    let start = thread.cpu_id_start().expect("cpu_id_start");
    assert_eq!(thread.cpu(), cpu);
    assert!(start.get() < rseq.cpus());
    if let Some(node) = thread.node_id() {
        assert_eq!(thread.node(), node);
    }
    assert_eq!(thread.slice_ctrl(), None);
    thread.prepare_unload();
    assert!(rseq.fence_all::<Sim>());
    let again = rseq.bind(Sim::on(2)).expect("rebind after prepare_unload");
    assert!(again.cpu_id().is_some());
}

#[test]
fn compare_exchange_and_add() {
    let rseq = rseq();
    let thread = rseq.bind(Sim::on(1)).expect("bind");
    let cpu = thread.cpu_id().expect("cpu");
    let words = rseq.words().expect("words");
    let w = words.get(cpu).expect("word");
    assert_eq!(thread.compare_exchange(w, 0, 7), Ok(0));
    assert_eq!(thread.compare_exchange(w, 0, 1), Err(Error::Miss(7)));
    assert_eq!(thread.fetch_add(w, 1), Ok(7));
    assert_eq!(thread.compare_exchange(w, 8, 8), Ok(8));
    let side = AtomicUsize::new(0);
    let s = Word::new(&side, cpu);
    assert_eq!(thread.store_if(w, 8, 9, s, 3), Ok(8));
    assert_eq!(side.load(Ordering::Relaxed), 3);
    side.store(4, Ordering::Relaxed);
    assert_eq!(thread.store_if(w, 0, 1, s, 5), Err(Error::Miss(9)));
    assert_eq!(side.load(Ordering::Relaxed), 4);
}

#[test]
fn isolated_cpus() {
    let rseq = rseq();
    assert!(rseq.cpus() >= 2);
    let words = rseq.words().expect("words");
    let thread = rseq.bind(Sim::on(0)).expect("bind");
    let a = thread.cpu_id().expect("cpu");
    let b = other_cpu(rseq, a);
    let t = rseq.bind(Sim::on(a.get())).expect("bind a");
    let wa = words.get(t.cpu_id().expect("cpu a")).expect("word a");
    assert_eq!(t.compare_exchange(wa, 0, 11), Ok(0));
    let t = rseq.bind(Sim::on(b.get())).expect("bind b");
    let wb = words.get(t.cpu_id().expect("cpu b")).expect("word b");
    assert_eq!(t.compare_exchange(wb, 0, 22), Ok(0));
    let t = rseq.bind(Sim::on(a.get())).expect("rebind a");
    let wa = words.get(t.cpu_id().expect("cpu a")).expect("word a");
    assert_eq!(t.compare_exchange(wa, 11, 11), Ok(11));
    let t = rseq.bind(Sim::on(b.get())).expect("rebind b");
    let wb = words.get(t.cpu_id().expect("cpu b")).expect("word b");
    assert_eq!(t.compare_exchange(wb, 22, 22), Ok(22));
}

#[test]
fn wrong_cpu_aborts() {
    let rseq = rseq();
    let words = rseq.words().expect("words");
    let thread = rseq.bind(Sim::on(3)).expect("bind pinned");
    let here = thread.cpu_id().expect("cpu");
    let other = other_cpu(rseq, here);
    let w = words.get(other).expect("other word");
    assert_eq!(thread.compare_exchange(w, 0, 1), Err(Error::Abort));
    assert_eq!(thread.fetch_add(w, 1), Err(Error::Abort));
    let side = AtomicUsize::new(0);
    let s = Word::new(&side, other);
    assert_eq!(thread.store_if(w, 0, 1, s, 2), Err(Error::Abort));
    assert_eq!(side.load(Ordering::Relaxed), 0);
}

#[test]
fn store_if_side_cpu_mismatch() {
    let rseq = rseq();
    let thread = rseq.bind(Sim::on(0)).expect("bind");
    let here = thread.cpu_id().expect("cpu");
    let other = other_cpu(rseq, here);
    let words = rseq.words().expect("words");
    let w = words.get(here).expect("word");
    let side = AtomicUsize::new(0);
    let s = Word::new(&side, other);
    assert_eq!(thread.store_if(w, 0, 1, s, 2), Err(Error::Abort));
    assert_eq!(side.load(Ordering::Relaxed), 0);
}

#[test]
fn compare_exchange_if_and_miss() {
    let rseq = rseq();
    let thread = rseq.bind(Sim::on(1)).expect("bind");
    let cpu = thread.cpu_id().expect("cpu");
    let words = rseq.words().expect("words");
    let w = words.get(cpu).expect("word");
    let other = AtomicUsize::new(4);
    let o = Word::new(&other, cpu);
    assert_eq!(thread.compare_exchange(w, 0, 1), Ok(0));
    assert_eq!(thread.compare_exchange_if(w, 1, 2, o, 4), Ok(1));
    assert_eq!(thread.compare_exchange_if(w, 0, 9, o, 4), Err(Error::Miss(2)));
    assert_eq!(thread.compare_exchange_if(w, 2, 9, o, 0), Err(Error::Miss(4)));
    assert_eq!(thread.compare_exchange(w, 2, 2), Ok(2));
    assert_eq!(other.load(Ordering::Relaxed), 4);
}

#[test]
fn compare_exchange_if_alias() {
    let rseq = rseq();
    let thread = rseq.bind(Sim::on(1)).expect("bind");
    let cpu = thread.cpu_id().expect("cpu");
    let words = rseq.words().expect("words");
    let w = words.get(cpu).expect("word");
    assert_eq!(thread.compare_exchange(w, 0, 5), Ok(0));
    assert_eq!(thread.compare_exchange_if(w, 5, 6, w, 5), Ok(5));
    assert_eq!(thread.compare_exchange(w, 6, 6), Ok(6));
    assert_eq!(thread.compare_exchange_if(w, 6, 7, w, 0), Err(Error::Miss(6)));
}

#[test]
fn compare_exchange_if_key_mismatch() {
    let rseq = rseq();
    let thread = rseq.bind(Sim::on(2)).expect("bind");
    let here = thread.cpu_id().expect("cpu");
    let other_cpu = other_cpu(rseq, here);
    let words = rseq.words().expect("words");
    let w = words.get(here).expect("word");
    let other = AtomicUsize::new(0);
    let o = Word::new(&other, other_cpu);
    assert_eq!(thread.compare_exchange_if(w, 0, 1, o, 0), Err(Error::Abort));
    assert_eq!(other.load(Ordering::Relaxed), 0);
    assert_eq!(thread.compare_exchange(w, 0, 0), Ok(0));
}

#[test]
fn compare_exchange_if_wrong_cpu() {
    let rseq = rseq();
    let words = rseq.words().expect("words");
    let thread = rseq.bind(Sim::on(0)).expect("bind pinned");
    let here = thread.cpu_id().expect("cpu");
    let other_cpu = other_cpu(rseq, here);
    let w = words.get(other_cpu).expect("other word");
    let side = AtomicUsize::new(0);
    let o = Word::new(&side, other_cpu);
    assert_eq!(thread.compare_exchange_if(w, 0, 1, o, 0), Err(Error::Abort));
    assert_eq!(side.load(Ordering::Relaxed), 0);
}

#[test]
fn cid_ops() {
    let rseq = rseq();
    let thread = rseq.bind(Sim { cpu: 3, cid: 1, node: 0 }).expect("bind");
    let cid = thread.cid().expect("mm_cid populated");
    assert_eq!(cid.get(), 1);
    assert!(cid.get() < rseq.cpus());
    let words = rseq.words().expect("words");
    let w = words.get(cid).expect("word");
    assert_eq!(thread.compare_exchange(w, 0, 7), Ok(0));
    assert_eq!(thread.fetch_add(w, 1), Ok(7));
    let side = AtomicUsize::new(0);
    let s = Word::new(&side, cid);
    assert_eq!(thread.store_if(w, 8, 9, s, 3), Ok(8));
    assert_eq!(side.load(Ordering::Relaxed), 3);
    let other_word = AtomicUsize::new(1);
    let o = Word::new(&other_word, cid);
    assert_eq!(thread.compare_exchange_if(w, 9, 10, o, 1), Ok(9));
    let child = rseq.bind(Sim { cpu: 3, cid: 2, node: 0 }).expect("child bind");
    let other = child.cid().expect("child cid");
    assert_ne!(other, cid);
    let w = words.get(other).expect("other cid");
    assert_eq!(thread.compare_exchange(w, 0, 1), Err(Error::Abort));
}

#[test]
fn self_register_ops() {
    let host = Host { glibc: None, registered: true, feature_size: 0, cpus: Cpus::parse(b"0-3") };
    let rseq = Rseq::new(&host).expect("SYS_rseq when glibc rseq is off");
    assert_eq!(rseq.glibc_offset(), None);
    let thread = rseq.bind(Sim::on(1)).expect("bind");
    let again = rseq.bind(Sim::on(1)).expect("bind twice");
    assert_eq!(thread.cpu_id(), again.cpu_id());
    let cpu = thread.cpu_id().expect("cpu");
    let words = rseq.words().expect("words");
    let w = words.get(cpu).expect("word");
    assert_eq!(thread.compare_exchange(w, 0, 7), Ok(0));
    assert_eq!(thread.fetch_add(w, 1), Ok(7));
    let side = AtomicUsize::new(0);
    let s = Word::new(&side, cpu);
    assert_eq!(thread.store_if(w, 8, 9, s, 3), Ok(8));
    assert_eq!(side.load(Ordering::Relaxed), 3);
    assert_eq!(thread.cid(), None);
    assert_eq!(thread.node_id(), None);
}

#[test]
fn store_if_release_and_copy() {
    let rseq = rseq();
    let thread = rseq.bind(Sim::on(0)).expect("bind");
    let cpu = thread.cpu_id().expect("cpu");
    let words = rseq.words().expect("words");
    let w = words.get(cpu).expect("word");
    let side = AtomicUsize::new(0);
    let s = Word::new(&side, cpu);
    assert_eq!(thread.store_if_release(w, 0, 1, s, 6), Ok(0));
    assert_eq!(side.load(Ordering::Relaxed), 6);
    let mut dst = [0u8; 3];
    assert_eq!(thread.store_if_copy(w, 1, 2, &mut dst, &[1, 2, 3]), Ok(1));
    assert_eq!(dst, [1, 2, 3]);
    assert_eq!(thread.store_if_copy_release(w, 9, 3, &mut dst, &[4, 5, 6]), Err(Error::Miss(2)));
    assert_eq!(dst, [1, 2, 3]);
}

#[test]
fn store_if_copy_length_checks_abort_before_the_sequence() {
    let rseq = rseq();
    let thread = rseq.bind(Sim::on(0)).expect("bind");
    let cpu = thread.cpu_id().expect("cpu");
    let words = rseq.words().expect("words");
    let w = words.get(cpu).expect("word");
    let mut dst = [9u8; 2];
    assert_eq!(thread.store_if_copy(w, 0, 1, &mut dst, &[1, 2, 3]), Err(Error::Abort));
    assert_eq!(dst, [9, 9]);
    let mut big = [0u8; 65];
    let src = [1u8; 65];
    assert_eq!(thread.store_if_copy(w, 0, 1, &mut big, &src), Err(Error::Abort));
    assert_eq!(big, [0u8; 65]);
    assert_eq!(thread.compare_exchange(w, 0, 0), Ok(0));
}

#[test]
fn load_if_ne_out_key_mismatch_aborts() {
    let rseq = rseq();
    let thread = rseq.bind(Sim::on(0)).expect("bind");
    let here = thread.cpu_id().expect("cpu");
    let words = rseq.words().expect("words");
    let w = words.get(here).expect("word");
    let out = AtomicUsize::new(5);
    let o = Word::new(&out, other_cpu(rseq, here));
    assert_eq!(thread.load_if_ne(w, 0, 0, o), Err(Error::Abort));
    assert_eq!(out.load(Ordering::Relaxed), 5);
}

#[test]
fn fence_rejects_cpus_beyond_the_count() {
    let rseq = rseq();
    assert!(!rseq.fence::<Sim>(CpuId::new(4).expect("id")));
    assert!(rseq.fence::<Sim>(CpuId::new(3).expect("id")));
}

#[test]
fn bind_refuses_a_sentinel_cpu_id() {
    let rseq = rseq();
    assert!(rseq.bind(Sim::on(u32::MAX)).is_none());
    assert!(rseq.bind(Sim::on(u32::MAX - 1)).is_none());
    assert!(rseq.bind(Sim::on(u32::MAX - 2)).is_some());
}

#[test]
fn reads_come_from_the_area() {
    let host = Host { glibc: Some((0, 33)), registered: false, feature_size: 32, cpus: Cpus::parse(b"0-7") };
    let rseq = Rseq::new(&host).expect("rseq");
    let thread = rseq.bind(Sim { cpu: 5, cid: 2, node: 1 }).expect("bind");
    assert_eq!(thread.cpu(), CpuId::new(5).expect("id"));
    assert_eq!(thread.cid().map(|c| c.get()), Some(2));
    assert_eq!(thread.node_id().map(|n| n.get()), Some(1));
    assert_eq!(thread.node().get(), 1);
    assert_eq!(thread.slice_ctrl(), Some(0));
}

#[test]
fn slice_ctrl_needs_more_than_the_legacy_size() {
    let slice = |glibc: Option<(isize, usize)>, feature_size: u64| {
        let host = Host { glibc, registered: true, feature_size, cpus: Cpus::parse(b"0-3") };
        let rseq = Rseq::new(&host).expect("rseq");
        rseq.bind(Sim::on(0)).expect("bind").slice_ctrl()
    };
    assert_eq!(slice(Some((0, 32)), 32), None);
    assert_eq!(slice(Some((0, 33)), 32), Some(0));
    assert_eq!(slice(Some((0, 33)), 31), None);
    assert_eq!(slice(None, 32), None);
}
