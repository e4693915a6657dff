//! Decisions around the expedited RSEQ membarrier.
//!
//! Registration of the command is per `mm`: after `fork` the child's first
//! fence may fail with `EPERM` although the parent registered. The caller
//! keeps whether a fence has succeeded in this process, and on such a
//! failure registers once more and retries once.

use vstd::prelude::*;

verus! {

/// What to do after one membarrier fence call.
#[derive(Clone, Copy, Debug, Eq, PartialEq, Structural)]
pub enum FenceStep {
    /// The fence is over; report this.
    Done(bool),
    /// Register the command again; if that succeeds, the retried call's
    /// success is the fence's.
    Reregister,
}

/// Next step after a fence call that succeeded (`ok`) or failed with
/// `EPERM` (`eperm`), given whether a fence succeeded before (`used`).
/// Returns the step and the new `used`.
///
/// A success marks the process as used. `EPERM` after an earlier success is
/// the post-`fork` case: clear the mark and re-register. Anything else is a
/// failure.
pub fn after_fence(ok: bool, eperm: bool, used: bool) -> (r: (FenceStep, bool))
    ensures
        ok ==> r == (FenceStep::Done(true), true),
        !ok && eperm && used ==> r == (FenceStep::Reregister, false),
        !ok && !(eperm && used) ==> r == (FenceStep::Done(false), used),
{
    if ok {
        (FenceStep::Done(true), true)
    } else if eperm && used {
        (FenceStep::Reregister, false)
    } else {
        (FenceStep::Done(false), used)
    }
}

} // verus!
