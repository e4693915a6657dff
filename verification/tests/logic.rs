//! Decisions the library makes on what the kernel and glibc report.

use rseq_rs::membarrier::{after_fence, FenceStep};
use rseq_rs::registration::{
    cid_supported, glibc_area_info, kernel_available, libc_available, node_supported,
    slice_supported,
};
use rseq_rs::{
    fallback_cpu, fallback_node, Attempt, Cpus, CpuId, Error, Host, Rseq, Unsupported, Words,
};

fn count(text: &[u8]) -> Option<u32> {
    Cpus::parse(text).map(|c| c.get())
}

#[test]
fn possible_cpu_lists() {
    assert_eq!(count(b"0-95\n"), Some(96));
    assert_eq!(count(b"0"), Some(1));
    assert_eq!(count(b"0,2-3\n"), Some(4));
    assert_eq!(count(b"4-7,0-1"), Some(8));
    assert_eq!(count(b"  0-3 \t\n"), Some(4));
    assert_eq!(count(b"+7"), Some(8));
    assert_eq!(count(b"007"), Some(8));
    assert_eq!(count(b"0-4294967294"), Some(u32::MAX));
}

#[test]
fn possible_cpu_lists_rejected() {
    assert_eq!(count(b""), None);
    assert_eq!(count(b" \n"), None);
    assert_eq!(count(b"0-"), None);
    assert_eq!(count(b"-3"), None);
    assert_eq!(count(b"0-3,"), None);
    assert_eq!(count(b"0-1-2"), None);
    assert_eq!(count(b"a"), None);
    assert_eq!(count(b"+"), None);
    assert_eq!(count(b"0-4294967295"), None);
    assert_eq!(count(b"4294967296"), None);
    assert_eq!(count(&[0x30, 0xff]), None);
}

#[test]
fn possible_cpu_list_trims_unicode_white_space() {
    assert_eq!(count("\u{a0}0-1\u{3000}".as_bytes()), Some(2));
    assert_eq!(count("0-1\u{200b}".as_bytes()), None);
}

#[test]
fn error_messages() {
    assert_eq!(Error::Miss(0).message(), "compare miss: found 0");
    assert_eq!(Error::Miss(42).message(), "compare miss: found 42");
    assert_eq!(
        Error::Miss(usize::MAX).message(),
        format!("compare miss: found {}", usize::MAX)
    );
    assert_eq!(Error::Abort.message(), "index mismatch");
}

#[test]
fn attempt_status_and_results() {
    assert_eq!(Attempt::from_status(0, 5), Attempt::Commit(5));
    assert_eq!(Attempt::from_status(1, 6), Attempt::Miss(6));
    assert_eq!(Attempt::from_status(2, 7), Attempt::Abort);
    assert_eq!(Attempt::from_status(9, 7), Attempt::Abort);
    assert_eq!(Attempt::Commit(5).compare_result(), Ok(5));
    assert_eq!(Attempt::Miss(6).compare_result(), Err(Error::Miss(6)));
    assert_eq!(Attempt::Abort.compare_result(), Err(Error::Abort));
    assert_eq!(Attempt::Commit(5).add_result(), Ok(5));
    assert_eq!(Attempt::Miss(6).add_result(), Err(Error::Abort));
    assert_eq!(Attempt::Abort.add_result(), Err(Error::Abort));
}

#[test]
fn cpu_id_rejects_sentinels() {
    assert!(CpuId::new(u32::MAX).is_none());
    assert!(CpuId::new(u32::MAX - 1).is_none());
    assert_eq!(CpuId::new(u32::MAX - 2).map(|c| c.get()), Some(u32::MAX - 2));
    assert_eq!(CpuId::new(0).map(|c| c.get()), Some(0));
}

#[test]
fn cpu_ids_order_by_id() {
    let one = CpuId::new(1).expect("id");
    let two = CpuId::new(2).expect("id");
    assert!(one < two);
    assert!(!(two < one));
    assert_eq!(one, CpuId::new(1).expect("id"));
    assert_ne!(one, two);
}

#[test]
fn glibc_area_decisions() {
    assert_eq!(glibc_area_info(Some(20), Some(-64)), Some((-64, 20)));
    assert_eq!(glibc_area_info(Some(32), Some(8)), Some((8, 32)));
    assert_eq!(glibc_area_info(Some(19), Some(8)), None);
    assert_eq!(glibc_area_info(Some(0), Some(8)), None);
    assert_eq!(glibc_area_info(None, Some(8)), None);
    assert_eq!(glibc_area_info(Some(32), None), None);
}

#[test]
fn feature_sizes() {
    assert!(!node_supported(23));
    assert!(node_supported(24));
    assert!(!cid_supported(27));
    assert!(cid_supported(28));
    assert!(!slice_supported(31));
    assert!(slice_supported(32));
}

fn cpus4() -> Option<Cpus> {
    Cpus::parse(b"0-3\n")
}

#[test]
fn rseq_new_prefers_glibc() {
    let host = Host { glibc: Some((-96, 20)), registered: true, feature_size: 28, cpus: cpus4() };
    let rseq = Rseq::new(&host).expect("glibc");
    assert_eq!(rseq.glibc_offset(), Some(-96));
    assert_eq!(rseq.cpus(), 4);
}

#[test]
fn rseq_new_needs_a_registration_and_a_count() {
    let none = Host { glibc: None, registered: false, feature_size: 32, cpus: cpus4() };
    assert!(Rseq::new(&none).is_none());
    let own = Host { glibc: None, registered: true, feature_size: 32, cpus: cpus4() };
    assert_eq!(Rseq::new(&own).expect("own").glibc_offset(), None);
    let no_cpus = Host { glibc: Some((0, 32)), registered: false, feature_size: 32, cpus: None };
    assert!(Rseq::new(&no_cpus).is_none());
}

#[test]
fn rseq_words_cover_cpus() {
    let host = Host { glibc: Some((0, 32)), registered: false, feature_size: 0, cpus: cpus4() };
    let rseq = Rseq::new(&host).expect("rseq");
    let words: Words = rseq.words().expect("words");
    assert_eq!(words.cpus(), rseq.cpus());
    for id in 0..rseq.cpus() {
        assert!(words.get(CpuId::new(id).expect("id")).is_some());
    }
}

#[test]
fn fallbacks() {
    assert_eq!(fallback_cpu(5).get(), 5);
    assert_eq!(fallback_cpu(-1).get(), 0);
    assert_eq!(fallback_cpu(i32::MAX).get(), i32::MAX as u32);
    assert_eq!(fallback_node(0, 3).get(), 3);
    assert_eq!(fallback_node(-1, 3).get(), 0);
}

#[test]
fn unsupported_target_never_binds() {
    let host = Host { glibc: Some((0, 32)), registered: false, feature_size: 32, cpus: cpus4() };
    let rseq = Rseq::new(&host).expect("rseq");
    assert!(rseq.bind(Unsupported).is_none());
    assert!(!rseq.fence_all::<Unsupported>());
    assert!(!rseq.fence::<Unsupported>(CpuId::new(0).expect("id")));
}

#[test]
fn fence_steps() {
    assert_eq!(after_fence(true, false, false), (FenceStep::Done(true), true));
    assert_eq!(after_fence(true, false, true), (FenceStep::Done(true), true));
    assert_eq!(after_fence(false, true, true), (FenceStep::Reregister, false));
    assert_eq!(after_fence(false, true, false), (FenceStep::Done(false), false));
    assert_eq!(after_fence(false, false, true), (FenceStep::Done(false), true));
}

#[test]
fn presence_probes() {
    assert!(kernel_available(-1, true));
    assert!(!kernel_available(-1, false));
    assert!(!kernel_available(0, true));
    assert!(libc_available(true, true, true));
    assert!(!libc_available(true, true, false));
    assert!(!libc_available(false, true, true));
}
