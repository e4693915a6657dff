//! This thread's registered area and the word operations on it.

use vstd::prelude::*;

use crate::abi::is_cpu_sentinel;
use crate::attempt::Attempt;
use crate::ids::{Cid, CpuId, Index, NodeId};
use crate::kernel::Kernel;
use crate::words::Word;

verus! {

/// Longest memcpy [`Thread::store_if_copy`] will perform inside the critical section.
pub const COPY_MAX: usize = 64;

/// Compare-miss or an index-mismatch abort. Kernel preemption restarts
/// inside the critical section.
///
/// Exhaustive on purpose: the critical section has two outcomes.
#[derive(Clone, Copy, Debug, Eq, PartialEq, Structural)]
pub enum Error {
    /// The word was not `expect`. Carries the value that was seen.
    Miss(usize),
    /// This thread's index is not `word.key`. Re-read [`Thread::cpu_id`] or
    /// [`Thread::cid`] and pick a new word. Do not retry the same word.
    Abort,
}

/// The character of decimal digit `d`.
pub open spec fn digit_char(d: nat) -> char {
    ('0' as u32 + d) as char
}

/// Decimal digits of `n`, most significant first, no leading zeros.
pub open spec fn decimal(n: nat) -> Seq<char>
    decreases n,
{
    if n < 10 {
        seq![digit_char(n)]
    } else {
        decimal(n / 10) + seq![digit_char(n % 10)]
    }
}

/// Text of an [`Error`].
pub open spec fn error_message(e: Error) -> Seq<char> {
    match e {
        Error::Miss(seen) => "compare miss: found "@ + decimal(seen as nat),
        Error::Abort => "index mismatch"@,
    }
}

fn digit_str(d: usize) -> (r: &'static str)
    requires
        d < 10,
    ensures
        r@ == seq![digit_char(d as nat)],
{
    proof {
        reveal_strlit("0");
        reveal_strlit("1");
        reveal_strlit("2");
        reveal_strlit("3");
        reveal_strlit("4");
        reveal_strlit("5");
        reveal_strlit("6");
        reveal_strlit("7");
        reveal_strlit("8");
        reveal_strlit("9");
    }
    let r = match d {
        0 => "0",
        1 => "1",
        2 => "2",
        3 => "3",
        4 => "4",
        5 => "5",
        6 => "6",
        7 => "7",
        8 => "8",
        _ => "9",
    };
    assert(r@ =~= seq![digit_char(d as nat)]);
    r
}

fn push_decimal(s: &mut String, n: usize)
    ensures
        final(s)@ == old(s)@ + decimal(n as nat),
    decreases n,
{
    if n >= 10 {
        push_decimal(s, n / 10);
    }
    s.append(digit_str(n % 10));
    assert(s@ =~= old(s)@ + decimal(n as nat));
}

impl Error {
    /// Human-readable text: `compare miss: found {seen}` or `index mismatch`.
    pub fn message(&self) -> (r: String)
        ensures
            r@ == error_message(*self),
    {
        match self {
            Error::Miss(seen) => {
                let mut s = String::from_str("compare miss: found ");
                push_decimal(&mut s, *seen);
                s
            },
            Error::Abort => String::from_str("index mismatch"),
        }
    }
}

/// `fallback_cpu`: the CPU `sched_getcpu` reported, or CPU 0 when it failed.
pub open spec fn fallback_cpu_id(n: i32) -> u32 {
    if n >= 0 {
        n as u32
    } else {
        0
    }
}

/// `fallback_node`: the node `getcpu` wrote, or node 0 when it failed.
pub open spec fn fallback_node_id(rc: i64, node: u32) -> u32 {
    if rc == 0 {
        node
    } else {
        0
    }
}

/// CPU from a `sched_getcpu` result: CPU 0 when it failed.
pub fn fallback_cpu(n: i32) -> (r: CpuId)
    ensures
        r@ == fallback_cpu_id(n),
{
    if n >= 0 {
        match CpuId::new(n as u32) {
            Some(c) => c,
            None => CpuId::zero(),
        }
    } else {
        CpuId::zero()
    }
}

/// Node from a `getcpu` return code and the node it wrote: node 0 when it
/// failed.
pub fn fallback_node(rc: i64, node: u32) -> (r: NodeId)
    ensures
        r@ == fallback_node_id(rc, node),
{
    if rc == 0 {
        NodeId::new(node)
    } else {
        NodeId::new(0)
    }
}

/// This thread's registered `struct rseq`, through a [`Kernel`]. `Copy`.
///
/// A self-registered [`Thread`] is valid until its thread exits. Bind again
/// in a child after `fork`. The process registration stays valid; this
/// area does not.
#[derive(Clone, Copy, Debug)]
pub struct Thread<S: Kernel> {
    area: S,
    node: bool,
    cid: bool,
    slice: bool,
}

impl<S: Kernel> Thread<S> {
    /// The kernel populates `node_id` for this thread.
    pub closed spec fn has_node(self) -> bool {
        self.node
    }

    /// The kernel populates `mm_cid` for this thread.
    pub closed spec fn has_cid(self) -> bool {
        self.cid
    }

    /// The kernel and this registration cover `slice_ctrl`.
    pub closed spec fn has_slice(self) -> bool {
        self.slice
    }

    /// The area this thread's operations run against.
    pub closed spec fn area(self) -> S {
        self.area
    }

    pub(crate) fn new(area: S, node: bool, cid: bool, slice: bool) -> (r: Self)
        ensures
            r.area() == area,
            r.has_node() == node,
            r.has_cid() == cid,
            r.has_slice() == slice,
    {
        Self { area, node, cid, slice }
    }

    /// Kernel `cpu_id`. `None` while it holds a sentinel.
    ///
    /// librseq `rseq_current_cpu_raw`.
    pub fn cpu_id(&self) -> (r: Option<CpuId>)
        ensures
            exists|id: u32|
                #![trigger call_ensures(S::load_cpu_id, (&self.area(),), id)]
                call_ensures(S::load_cpu_id, (&self.area(),), id) && (is_cpu_sentinel(id) ==> r is None)
                    && (!is_cpu_sentinel(id) ==> (r matches Some(c) && c@ == id)),
    {
        let load = S::load_cpu_id;
        let id = load(&self.area);
        assert(call_ensures(S::load_cpu_id, (&self.area(),), id));
        CpuId::new(id)
    }

    /// Speculative `cpu_id_start`. Read only. Side effects still require
    /// [`Self::cpu_id`] or [`Self::cid`] to confirm the index. The critical
    /// sections never use this field as the key.
    ///
    /// librseq `rseq_cpu_start`.
    pub fn cpu_id_start(&self) -> (r: Option<CpuId>)
        ensures
            exists|id: u32|
                #![trigger call_ensures(S::load_cpu_id_start, (&self.area(),), id)]
                call_ensures(S::load_cpu_id_start, (&self.area(),), id) && (is_cpu_sentinel(id)
                    ==> r is None) && (!is_cpu_sentinel(id) ==> (r matches Some(c) && c@ == id)),
    {
        let load = S::load_cpu_id_start;
        let id = load(&self.area);
        assert(call_ensures(S::load_cpu_id_start, (&self.area(),), id));
        CpuId::new(id)
    }

    /// Current CPU: [`Self::cpu_id`], then `sched_getcpu`, then CPU 0.
    ///
    /// librseq `rseq_current_cpu`.
    pub fn cpu(&self) -> (r: CpuId)
        ensures
            !is_cpu_sentinel(r@),
            exists|id: u32|
                #![trigger call_ensures(S::load_cpu_id, (&self.area(),), id)]
                call_ensures(S::load_cpu_id, (&self.area(),), id) && (!is_cpu_sentinel(id) ==> r@
                    == id) && (is_cpu_sentinel(id) ==> exists|n: i32|
                    #![trigger call_ensures(S::sched_getcpu, (), n)]
                    call_ensures(S::sched_getcpu, (), n) && r@ == fallback_cpu_id(n)),
    {
        match self.cpu_id() {
            Some(c) => c,
            None => {
                let getcpu = S::sched_getcpu;
                let n = getcpu();
                assert(call_ensures(S::sched_getcpu, (), n));
                fallback_cpu(n)
            },
        }
    }

    /// Kernel `node_id`. `None` if this kernel does not populate it.
    ///
    /// librseq `rseq_current_node_id` / `rseq_node_id_available`.
    pub fn node_id(&self) -> (r: Option<NodeId>)
        ensures
            r is Some <==> self.has_node(),
            r matches Some(n) ==> call_ensures(S::load_node_id, (&self.area(),), n@),
    {
        if !self.node {
            return None;
        }
        let load = S::load_node_id;
        Some(NodeId::new(load(&self.area)))
    }

    /// Current NUMA node: [`Self::node_id`], then `getcpu`, then node 0.
    pub fn node(&self) -> (r: NodeId)
        ensures
            self.has_node() ==> call_ensures(S::load_node_id, (&self.area(),), r@),
            !self.has_node() ==> exists|rc: i64, node: u32|
                #![trigger call_ensures(S::getcpu_node, (), (rc, node))]
                call_ensures(S::getcpu_node, (), (rc, node)) && r@ == fallback_node_id(rc, node),
    {
        match self.node_id() {
            Some(n) => n,
            None => {
                let getcpu = S::getcpu_node;
                let (rc, node) = getcpu();
                fallback_node(rc, node)
            },
        }
    }

    /// Kernel `mm_cid`. `None` if this kernel does not populate it.
    ///
    /// librseq `rseq_current_mm_cid` / `rseq_mm_cid_available`.
    pub fn cid(&self) -> (r: Option<Cid>)
        ensures
            r is Some <==> self.has_cid(),
            r matches Some(c) ==> call_ensures(S::load_mm_cid, (&self.area(),), c@),
    {
        if !self.cid {
            return None;
        }
        let load = S::load_mm_cid;
        Some(Cid::new(load(&self.area)))
    }

    /// Kernel `slice_ctrl`. `None` until auxv and the registration cover
    /// the field.
    ///
    /// librseq `rseq_slice_ctrl_available`.
    pub fn slice_ctrl(&self) -> (r: Option<u32>)
        ensures
            r is Some <==> self.has_slice(),
            r matches Some(v) ==> call_ensures(S::load_slice_ctrl, (&self.area(),), v),
    {
        if !self.slice {
            return None;
        }
        let load = S::load_slice_ctrl;
        Some(load(&self.area))
    }

    /// Clear `rseq_cs` before reclaiming critical-section descriptors or
    /// JIT code.
    ///
    /// librseq `rseq_prepare_unload` / `rseq_clear_rseq_cs`.
    pub fn prepare_unload(self)
        ensures
            call_ensures(S::clear_rseq_cs, (&self.area(),), ()),
    {
        let clear = S::clear_rseq_cs;
        clear(&self.area)
    }

    /// Compare `word` to `expect` and store `new`.
    ///
    /// This is librseq `cmpeqv_storev` / `rseq_load_cbne_store`, not
    /// `AtomicUsize::compare_exchange`. `Abort` is an index mismatch, not a
    /// spurious failure.
    ///
    /// One attempt. Kernel preemption restarts inside the critical section.
    /// On [`Error::Abort`] re-read [`Self::cpu_id`] or [`Self::cid`] and pick
    /// a new word.
    pub fn compare_exchange<K: Index>(&self, word: Word<'_, K>, expect: usize, new: usize) -> (r:
        Result<usize, Error>)
        ensures
            exists|a: Attempt|
                #![trigger call_ensures(S::compare_exchange, (&self.area(), K::area_offset(), word.key().id(), word.atomic(), expect, new), a)]
                call_ensures(
                    S::compare_exchange,
                    (&self.area(), K::area_offset(), word.key().id(), word.atomic(), expect, new),
                    a,
                ) && r == a.compare_result(),
    {
        let cs = S::compare_exchange;
        cs(&self.area, K::offset(), word.key().get(), word.atomic(), expect, new).compare_result()
    }

    /// Compare `word` to `expect` and `other` to `other_expect`, then store
    /// `new` to `word`.
    ///
    /// librseq `cmpeqv_cmpeqv_storev` / `rseq_load_cbne_load_cbne_store`.
    /// One committing store to `word`. [`Error::Miss`] carries the seen value
    /// of the compare that failed (`word` first, else `other`).
    ///
    /// `other.key` must equal `word.key`, or this is [`Error::Abort`] without
    /// entering the critical section.
    pub fn compare_exchange_if<K: Index>(
        &self,
        word: Word<'_, K>,
        expect: usize,
        new: usize,
        other: Word<'_, K>,
        other_expect: usize,
    ) -> (r: Result<usize, Error>)
        ensures
            other.key().id() != word.key().id() ==> r == Err::<usize, Error>(Error::Abort),
            other.key().id() == word.key().id() ==> exists|a: Attempt|
                #![trigger call_ensures(S::compare_exchange_if, (&self.area(), K::area_offset(), word.key().id(), word.atomic(), expect, new, other.atomic(), other_expect), a)]
                call_ensures(
                    S::compare_exchange_if,
                    (
                        &self.area(),
                        K::area_offset(),
                        word.key().id(),
                        word.atomic(),
                        expect,
                        new,
                        other.atomic(),
                        other_expect,
                    ),
                    a,
                ) && r == a.compare_result(),
    {
        let id = word.key().get();
        if other.key().get() != id {
            return Err(Error::Abort);
        }
        let cs = S::compare_exchange_if;
        cs(
            &self.area,
            K::offset(),
            id,
            word.atomic(),
            expect,
            new,
            other.atomic(),
            other_expect,
        ).compare_result()
    }

    /// Add `count` to `word`. Returns the previous value.
    ///
    /// librseq `addv` / `rseq_load_add_store`. The sequence has no compare,
    /// so it never reports [`Error::Miss`].
    pub fn fetch_add<K: Index>(&self, word: Word<'_, K>, count: usize) -> (r: Result<usize, Error>)
        ensures
            !(r matches Err(Error::Miss(_))),
            exists|a: Attempt|
                #![trigger call_ensures(S::fetch_add, (&self.area(), K::area_offset(), word.key().id(), word.atomic(), count), a)]
                call_ensures(
                    S::fetch_add,
                    (&self.area(), K::area_offset(), word.key().id(), word.atomic(), count),
                    a,
                ) && r == a.add_result(),
    {
        let cs = S::fetch_add;
        cs(&self.area, K::offset(), word.key().get(), word.atomic(), count).add_result()
    }

    /// Add `count` to the word at the address loaded from `*ptr + offset`.
    /// Returns that word's previous value.
    ///
    /// librseq `offset_deref_addv` / `rseq_load_add_load_load_add_store`.
    /// `offset` is a byte offset. A wrong offset is the caller's bug, same as
    /// C. Never reports [`Error::Miss`].
    pub fn fetch_add_at<K: Index>(&self, ptr: Word<'_, K>, offset: isize, count: usize) -> (r:
        Result<usize, Error>)
        ensures
            !(r matches Err(Error::Miss(_))),
            exists|a: Attempt|
                #![trigger call_ensures(S::fetch_add_at, (&self.area(), K::area_offset(), ptr.key().id(), ptr.atomic(), offset, count), a)]
                call_ensures(
                    S::fetch_add_at,
                    (&self.area(), K::area_offset(), ptr.key().id(), ptr.atomic(), offset, count),
                    a,
                ) && r == a.add_result(),
    {
        let cs = S::fetch_add_at;
        cs(&self.area, K::offset(), ptr.key().get(), ptr.atomic(), offset, count).add_result()
    }

    /// If `*word != expect_not`, store the old `*word` into `out` and set
    /// `*word = *(*word + offset)`. Returns the old `*word`.
    ///
    /// librseq `cmpnev_storeoffp_load` / `rseq_load_cbeq_store_add_load_store`.
    /// `offset` is a byte offset from the loaded pointer.
    ///
    /// `out.key` must equal `word.key`, or this is [`Error::Abort`] without
    /// entering the critical section.
    pub fn load_if_ne<K: Index>(
        &self,
        word: Word<'_, K>,
        expect_not: usize,
        offset: isize,
        out: Word<'_, K>,
    ) -> (r: Result<usize, Error>)
        ensures
            out.key().id() != word.key().id() ==> r == Err::<usize, Error>(Error::Abort),
            out.key().id() == word.key().id() ==> exists|a: Attempt|
                #![trigger call_ensures(S::load_if_ne, (&self.area(), K::area_offset(), word.key().id(), word.atomic(), expect_not, offset, out.atomic()), a)]
                call_ensures(
                    S::load_if_ne,
                    (
                        &self.area(),
                        K::area_offset(),
                        word.key().id(),
                        word.atomic(),
                        expect_not,
                        offset,
                        out.atomic(),
                    ),
                    a,
                ) && r == a.compare_result(),
    {
        let id = word.key().get();
        if out.key().get() != id {
            return Err(Error::Abort);
        }
        let cs = S::load_if_ne;
        cs(&self.area, K::offset(), id, word.atomic(), expect_not, offset, out.atomic()).compare_result()
    }

    /// Compare `word` to `expect`, store `side_new` into `side`, then store
    /// `new`.
    ///
    /// librseq `cmpeqv_trystorev_storev` / `rseq_load_cbne_store_store`
    /// (Relaxed). The store to `side` is scratch: an abort after it restarts
    /// and may write `side` again. The store to `word` is the commit.
    ///
    /// `side.key` must equal `word.key`, or this is [`Error::Abort`] without
    /// entering the critical section.
    pub fn store_if<K: Index>(
        &self,
        word: Word<'_, K>,
        expect: usize,
        new: usize,
        side: Word<'_, K>,
        side_new: usize,
    ) -> (r: Result<usize, Error>)
        ensures
            side.key().id() != word.key().id() ==> r == Err::<usize, Error>(Error::Abort),
            side.key().id() == word.key().id() ==> exists|a: Attempt|
                #![trigger call_ensures(S::store_if, (&self.area(), K::area_offset(), word.key().id(), false, word.atomic(), expect, new, side.atomic(), side_new), a)]
                call_ensures(
                    S::store_if,
                    (
                        &self.area(),
                        K::area_offset(),
                        word.key().id(),
                        false,
                        word.atomic(),
                        expect,
                        new,
                        side.atomic(),
                        side_new,
                    ),
                    a,
                ) && r == a.compare_result(),
    {
        self.store_if_mo(false, word, expect, new, side, side_new)
    }

    /// [`Self::store_if`] with a Release committing store.
    ///
    /// librseq `RSEQ_MO_RELEASE` on `rseq_load_cbne_store_store`.
    pub fn store_if_release<K: Index>(
        &self,
        word: Word<'_, K>,
        expect: usize,
        new: usize,
        side: Word<'_, K>,
        side_new: usize,
    ) -> (r: Result<usize, Error>)
        ensures
            side.key().id() != word.key().id() ==> r == Err::<usize, Error>(Error::Abort),
            side.key().id() == word.key().id() ==> exists|a: Attempt|
                #![trigger call_ensures(S::store_if, (&self.area(), K::area_offset(), word.key().id(), true, word.atomic(), expect, new, side.atomic(), side_new), a)]
                call_ensures(
                    S::store_if,
                    (
                        &self.area(),
                        K::area_offset(),
                        word.key().id(),
                        true,
                        word.atomic(),
                        expect,
                        new,
                        side.atomic(),
                        side_new,
                    ),
                    a,
                ) && r == a.compare_result(),
    {
        self.store_if_mo(true, word, expect, new, side, side_new)
    }

    /// Compare `word` to `expect`, copy `src` into `dst` (scratch), then
    /// store `new`.
    ///
    /// librseq `cmpeqv_trymemcpy_storev` / `rseq_load_cbne_memcpy_store`
    /// (Relaxed). A length mismatch or a copy longer than [`COPY_MAX`] is
    /// [`Error::Abort`] without entering the critical section.
    pub fn store_if_copy<K: Index>(
        &self,
        word: Word<'_, K>,
        expect: usize,
        new: usize,
        dst: &mut [u8],
        src: &[u8],
    ) -> (r: Result<usize, Error>)
        ensures
            old(dst)@.len() != src@.len() || src@.len() > COPY_MAX ==> r == Err::<usize, Error>(
                Error::Abort,
            ) && final(dst)@ == old(dst)@,
            old(dst)@.len() == src@.len() && src@.len() <= COPY_MAX ==> exists|a: Attempt, d: &mut [u8]|
                d@ == old(dst)@ && final(d)@ == final(dst)@ && #[trigger] call_ensures(
                    S::store_if_copy,
                    (
                        &self.area(),
                        K::area_offset(),
                        word.key().id(),
                        false,
                        word.atomic(),
                        expect,
                        new,
                        d,
                        src,
                    ),
                    a,
                ) && r == a.compare_result(),
    {
        self.store_if_copy_mo(false, word, expect, new, dst, src)
    }

    /// [`Self::store_if_copy`] with a Release committing store.
    ///
    /// librseq `RSEQ_MO_RELEASE` on `rseq_load_cbne_memcpy_store`.
    pub fn store_if_copy_release<K: Index>(
        &self,
        word: Word<'_, K>,
        expect: usize,
        new: usize,
        dst: &mut [u8],
        src: &[u8],
    ) -> (r: Result<usize, Error>)
        ensures
            old(dst)@.len() != src@.len() || src@.len() > COPY_MAX ==> r == Err::<usize, Error>(
                Error::Abort,
            ) && final(dst)@ == old(dst)@,
            old(dst)@.len() == src@.len() && src@.len() <= COPY_MAX ==> exists|a: Attempt, d: &mut [u8]|
                d@ == old(dst)@ && final(d)@ == final(dst)@ && #[trigger] call_ensures(
                    S::store_if_copy,
                    (
                        &self.area(),
                        K::area_offset(),
                        word.key().id(),
                        true,
                        word.atomic(),
                        expect,
                        new,
                        d,
                        src,
                    ),
                    a,
                ) && r == a.compare_result(),
    {
        self.store_if_copy_mo(true, word, expect, new, dst, src)
    }

    fn store_if_mo<K: Index>(
        &self,
        release: bool,
        word: Word<'_, K>,
        expect: usize,
        new: usize,
        side: Word<'_, K>,
        side_new: usize,
    ) -> (r: Result<usize, Error>)
        ensures
            side.key().id() != word.key().id() ==> r == Err::<usize, Error>(Error::Abort),
            side.key().id() == word.key().id() ==> exists|a: Attempt|
                #![trigger call_ensures(S::store_if, (&self.area(), K::area_offset(), word.key().id(), release, word.atomic(), expect, new, side.atomic(), side_new), a)]
                call_ensures(
                    S::store_if,
                    (
                        &self.area(),
                        K::area_offset(),
                        word.key().id(),
                        release,
                        word.atomic(),
                        expect,
                        new,
                        side.atomic(),
                        side_new,
                    ),
                    a,
                ) && r == a.compare_result(),
    {
        let id = word.key().get();
        if side.key().get() != id {
            return Err(Error::Abort);
        }
        let cs = S::store_if;
        cs(
            &self.area,
            K::offset(),
            id,
            release,
            word.atomic(),
            expect,
            new,
            side.atomic(),
            side_new,
        ).compare_result()
    }

    fn store_if_copy_mo<K: Index>(
        &self,
        release: bool,
        word: Word<'_, K>,
        expect: usize,
        new: usize,
        dst: &mut [u8],
        src: &[u8],
    ) -> (r: Result<usize, Error>)
        ensures
            old(dst)@.len() != src@.len() || src@.len() > COPY_MAX ==> r == Err::<usize, Error>(
                Error::Abort,
            ) && final(dst)@ == old(dst)@,
            old(dst)@.len() == src@.len() && src@.len() <= COPY_MAX ==> exists|a: Attempt, d: &mut [u8]|
                d@ == old(dst)@ && final(d)@ == final(dst)@ && #[trigger] call_ensures(
                    S::store_if_copy,
                    (
                        &self.area(),
                        K::area_offset(),
                        word.key().id(),
                        release,
                        word.atomic(),
                        expect,
                        new,
                        d,
                        src,
                    ),
                    a,
                ) && r == a.compare_result(),
    {
        if dst.len() != src.len() || src.len() > COPY_MAX {
            return Err(Error::Abort);
        }
        let cs = S::store_if_copy;
        let a = cs(
            &self.area,
            K::offset(),
            word.key().get(),
            release,
            word.atomic(),
            expect,
            new,
            dst,
            src,
        );
        assert(exists|d: &mut [u8]|
            #[trigger] call_ensures(
                S::store_if_copy,
                (&self.area(), K::area_offset(), word.key().id(), release, word.atomic(), expect, new, d, src),
                a,
            ) && d@ == old(dst)@ && final(d)@ == final(dst)@);
        a.compare_result()
    }
}

} // verus!
