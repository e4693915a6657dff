//! Restartable-sequence (rseq) word operations with verified decision logic.

pub mod abi;
mod attempt;
pub mod cpus;
mod ids;
mod kernel;
pub mod laws;
pub mod membarrier;
pub mod registration;
mod rseq;
mod sealed;
mod thread;
mod words;

pub use attempt::Attempt;
pub use cpus::Cpus;
pub use ids::{Cid, CpuId, Index, NodeId};
pub use kernel::{Kernel, Unsupported};
pub use rseq::{Available, Host, Rseq};
pub use thread::{fallback_cpu, fallback_node, Error, Thread, COPY_MAX};
pub use words::{Word, Words};
