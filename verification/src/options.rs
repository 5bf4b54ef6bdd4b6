//! Cost parameters for hashing, and the check they must pass.

use crate::error::{Failure, PasswordError};
use vstd::prelude::*;

verus! {

/// The smallest memory cost, in KiB, that the library accepts.
pub const MIN_MEMORY_COST: u32 = 8;

/// Cost parameters of Argon2id.
#[derive(Clone, Copy, Debug, PartialEq, Eq)]
pub struct HashOptions {
    /// Number of passes over memory.
    pub time_cost: u32,
    /// Size of the working memory in KiB.
    pub memory_cost: u32,
    /// Number of lanes.
    pub parallelism: u32,
}

/// The detail text of the error that rejects ill-formed options.
pub open spec fn invalid_options_text() -> Seq<char> {
    "Invalid hash parameters: memory_cost must be >= 8, time_cost and parallelism must be > 0"@
}

impl HashOptions {
    /// Well-formedness: at least 8 KiB of memory, at least one pass, at
    /// least one lane.
    pub open spec fn valid(self) -> bool {
        &&& self.memory_cost >= MIN_MEMORY_COST
        &&& self.time_cost >= 1
        &&& self.parallelism >= 1
    }

    /// The error that ill-formed options are answered with.
    pub open spec fn rejection() -> Failure {
        Failure::InvalidInput(invalid_options_text())
    }

    /// Checks the options before they reach the primitive, so that every
    /// ill-formed triple is reported the same way, as `InvalidInput`.
    pub fn validate(&self) -> (r: Result<(), PasswordError>)
        ensures
            self.valid() ==> r is Ok,
            !self.valid() ==> (r matches Err(e) && e@ == Self::rejection()),
    {
        if self.memory_cost < MIN_MEMORY_COST || self.time_cost == 0 || self.parallelism == 0 {
            return Err(
                PasswordError::invalid_input(
                    "Invalid hash parameters: memory_cost must be >= 8, time_cost and parallelism must be > 0",
                ),
            );
        }
        Ok(())
    }
}

} // verus!
