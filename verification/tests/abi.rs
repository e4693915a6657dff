//! Layout of the kernel's `struct rseq` and the registration constants.

use rseq_rs::abi::{
    AREA_SIZE, AT_RSEQ_FEATURE_SIZE, CID_FEATURE_SIZE, CPU_ID_OFF, CPU_ID_START_OFF,
    CPU_REG_FAILED, CPU_UNINIT, CS_OFF, FLAGS_OFF, FLAG_UNREGISTER, GLIBC_SIZE_MIN, MM_CID_OFF,
    NODE_FEATURE_SIZE, NODE_ID_OFF, SIG_AARCH64, SIG_X86_64, SLICE_CTRL_OFF, SLICE_FEATURE_SIZE,
};

#[test]
fn area_abi() {
    assert_eq!(CPU_ID_START_OFF, 0);
    assert_eq!(CPU_ID_OFF, 4);
    assert_eq!(CS_OFF, 8);
    assert_eq!(FLAGS_OFF, 16);
    assert_eq!(NODE_ID_OFF, 20);
    assert_eq!(MM_CID_OFF, 24);
    assert_eq!(SLICE_CTRL_OFF, 28);
    assert_eq!(AREA_SIZE, 32);
    assert_eq!(GLIBC_SIZE_MIN, 20);
    assert_eq!(FLAG_UNREGISTER, 1);
    assert_eq!(SIG_X86_64, 0x5305_3053);
    assert_eq!(SIG_AARCH64, 0xd428_bc00);
    assert_eq!(AT_RSEQ_FEATURE_SIZE, 27);
    assert_eq!(NODE_FEATURE_SIZE, 24);
    assert_eq!(CID_FEATURE_SIZE, 28);
    assert_eq!(SLICE_FEATURE_SIZE, 32);
}

#[test]
fn sentinels_are_minus_one_and_minus_two() {
    assert_eq!(CPU_UNINIT, u32::MAX);
    assert_eq!(CPU_REG_FAILED, u32::MAX - 1);
}
