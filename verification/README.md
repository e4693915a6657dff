# rseq-rs

Linux restartable-sequence (rseq) word operations: per-CPU or per-`mm_cid`
words updated by a short kernel-restartable sequence instead of a lock or a
CAS.

## Layout

- `src/` — the verified library (Verus). Everything the library decides:
  the possible-CPU list grammar, how the process's rseq area was
  registered, which area fields are live, the CPU-id sentinels, the
  per-CPU word region and its indexing, the key and length checks that
  precede a critical section, how a critical section's status becomes a
  `Result`, the fallbacks when the area has no CPU, and the membarrier
  re-registration step. The critical sections themselves are reached
  through the `Kernel` trait; `Unsupported` is the target without them.
- `app/` — ordinary Rust around it: the inline-assembly critical sections
  (x86-64, aarch64) behind `Kernel`, the thread's own `struct rseq`
  registration, the glibc / auxv / sysfs probes, membarrier syscalls, and
  `Display` for errors.
- `tests/` — the library's tests; word operations run against a
  single-threaded stand-in for the kernel.
