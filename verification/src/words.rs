//! One word plus the index it belongs to, and regions of per-CPU words.

use core::sync::atomic::AtomicUsize;

use vstd::prelude::*;

use crate::ids::{Cid, CpuId, Index};

verus! {

/// One word and the index it belongs to. librseq's `(v, cpu)` / `(v, mm_cid)`.
///
/// [`Words::get`] borrows the region. [`Word::new`] borrows the atomic.
/// `K` defaults to [`CpuId`] so `Word<'_>` stays the cpu word.
#[derive(Clone, Copy, Debug)]
pub struct Word<'a, K: Index = CpuId> {
    word: &'a AtomicUsize,
    key: K,
}

impl<'a, K: Index> Word<'a, K> {
    /// The index this word was picked with.
    pub closed spec fn spec_key(self) -> K {
        self.key
    }

    /// The borrowed atomic.
    pub closed spec fn spec_atomic(self) -> &'a AtomicUsize {
        self.word
    }

    /// Caller-owned word paired with `key`.
    pub fn new(word: &'a AtomicUsize, key: K) -> (r: Self)
        ensures
            r.key() == key,
            r.atomic() == word,
    {
        Self { word, key }
    }

    /// The index this word was picked with.
    #[verifier::when_used_as_spec(spec_key)]
    pub fn key(self) -> (r: K)
        ensures
            r == self.key(),
    {
        self.key
    }

    /// The borrowed atomic. Same address the critical section stores through.
    #[verifier::when_used_as_spec(spec_atomic)]
    pub fn atomic(self) -> (r: &'a AtomicUsize)
        ensures
            r == self.atomic(),
    {
        self.word
    }
}

impl<'a> Word<'a, CpuId> {
    /// The CPU this word was picked with.
    pub fn cpu(self) -> (r: CpuId)
        ensures
            r == self.key(),
    {
        self.key
    }
}

impl<'a> Word<'a, Cid> {
    /// The concurrency id this word was picked with.
    pub fn cid(self) -> (r: Cid)
        ensures
            r == self.key(),
    {
        self.key
    }
}

/// Where a region's words live.
#[derive(Debug)]
enum Slots {
    /// Words this region allocated.
    Owned(Vec<AtomicUsize>),
    /// A caller-owned `'static` span.
    Static(&'static [AtomicUsize]),
}

/// A region of one word per possible CPU.
///
/// Slot count is possible CPUs. `mm_cid` is always `<` allowed CPUs `<=`
/// possible CPUs, so [`crate::Rseq::words`] covers cids. A smaller
/// [`Words::new`] is valid if [`Self::get`] may be `None`.
#[derive(Debug)]
pub struct Words {
    slots: Slots,
    cpus: u32,
}

impl Words {
    /// The region's words, in slot order.
    pub closed spec fn slots(&self) -> Seq<AtomicUsize> {
        match self.slots {
            Slots::Owned(v) => v@,
            Slots::Static(s) => s@,
        }
    }

    /// Slot count.
    pub closed spec fn spec_cpus(&self) -> u32 {
        self.cpus
    }

    #[verifier::type_invariant]
    closed spec fn well_formed(&self) -> bool {
        &&& self.cpus > 0
        &&& self.slots().len() == self.cpus
    }

    /// A region of `cpus` new words. `None` if `cpus` is zero.
    pub fn new(cpus: u32) -> (r: Option<Self>)
        ensures
            r is Some <==> cpus > 0,
            r matches Some(w) ==> w.cpus() == cpus,
    {
        if cpus == 0 {
            return None;
        }
        let n = cpus as usize;
        let mut v: Vec<AtomicUsize> = Vec::new();
        let mut i: usize = 0;
        while i < n
            invariant
                n == cpus,
                i <= n,
                v.len() == i,
            decreases n - i,
        {
            v.push(AtomicUsize::new(0));
            i += 1;
        }
        Some(Self { slots: Slots::Owned(v), cpus })
    }

    /// Use a caller-owned `'static` slice of words.
    ///
    /// `None` if the slice is empty or longer than `u32::MAX`.
    pub fn from_static(words: &'static [AtomicUsize]) -> (r: Option<Self>)
        ensures
            r is Some <==> 0 < words@.len() <= u32::MAX,
            r matches Some(w) ==> w.slots() == words@ && w.cpus() == words@.len(),
    {
        let len = words.len();
        if len == 0 || len > 0xffff_ffff {
            return None;
        }
        Some(Self { slots: Slots::Static(words), cpus: len as u32 })
    }

    /// Slot count. May be indexed by [`CpuId`] or [`Cid`].
    #[verifier::when_used_as_spec(spec_cpus)]
    pub fn cpus(&self) -> (r: u32)
        ensures
            r == self.cpus(),
            r > 0,
            r == self.slots().len(),
    {
        proof {
            use_type_invariant(self);
        }
        self.cpus
    }

    /// The word at slot `key`, paired with `key`. Address math, not a
    /// critical section.
    pub fn get<K: Index>(&self, key: K) -> (r: Option<Word<'_, K>>)
        ensures
            r is Some <==> key.id() < self.cpus(),
            r matches Some(w) ==> w.key() == key && *w.atomic() == self.slots()[key.id() as int],
    {
        proof {
            use_type_invariant(self);
        }
        let id = key.get();
        if id >= self.cpus {
            return None;
        }
        let i = id as usize;
        match &self.slots {
            Slots::Owned(v) => Some(Word::new(&v[i], key)),
            Slots::Static(s) => Some(Word::new(&s[i], key)),
        }
    }
}

} // verus!
