//! Outcome of one critical-section attempt, as the kernel side reports it.

use vstd::prelude::*;

use crate::thread::Error;

verus! {

/// What one run of a critical section came to.
#[derive(Clone, Copy, Debug, PartialEq, Eq, Structural)]
pub enum Attempt {
    /// The committing store ran. Carries the word's value before it.
    Commit(usize),
    /// A compare failed. Carries the value that was seen.
    Miss(usize),
    /// This thread's index was not the word's key.
    Abort,
}

impl Attempt {
    /// Decode the status register an arch sequence leaves: `0` is a commit,
    /// `1` a compare miss, anything else an abort.
    pub fn from_status(status: u64, value: usize) -> (r: Self)
        ensures
            status == 0 ==> r == Attempt::Commit(value),
            status == 1 ==> r == Attempt::Miss(value),
            status != 0 && status != 1 ==> r == Attempt::Abort,
    {
        match status {
            0 => Self::Commit(value),
            1 => Self::Miss(value),
            _ => Self::Abort,
        }
    }

    /// Result of a compare-and-store sequence.
    pub open spec fn spec_compare_result(self) -> Result<usize, Error> {
        match self {
            Attempt::Commit(old) => Ok(old),
            Attempt::Miss(seen) => Err(Error::Miss(seen)),
            Attempt::Abort => Err(Error::Abort),
        }
    }

    /// Result of an add sequence, which has no compare: anything but a
    /// commit is an abort.
    pub open spec fn spec_add_result(self) -> Result<usize, Error> {
        match self {
            Attempt::Commit(prev) => Ok(prev),
            _ => Err(Error::Abort),
        }
    }

    /// Result of a compare-and-store sequence: `Ok(old)`, `Miss(seen)` or
    /// `Abort`.
    #[verifier::when_used_as_spec(spec_compare_result)]
    pub fn compare_result(self) -> (r: Result<usize, Error>)
        ensures
            r == self.spec_compare_result(),
    {
        match self {
            Attempt::Commit(old) => Ok(old),
            Attempt::Miss(seen) => Err(Error::Miss(seen)),
            Attempt::Abort => Err(Error::Abort),
        }
    }

    /// Result of an add sequence: `Ok(prev)`, else `Abort`.
    #[verifier::when_used_as_spec(spec_add_result)]
    pub fn add_result(self) -> (r: Result<usize, Error>)
        ensures
            r == self.spec_add_result(),
    {
        match self {
            Attempt::Commit(prev) => Ok(prev),
            Attempt::Miss(_) | Attempt::Abort => Err(Error::Abort),
        }
    }
}

} // verus!
