//! Hardware random numbers: the decisions around the `rdrand` instruction.
use crate::arch::x86_64::registers::rflags::{RFLAGS_ALL, RFLAGS_CARRY_FLAG};
use vstd::prelude::*;

verus! {

/// Why no random number was produced.
#[derive(Debug, Clone, Copy, PartialEq, Eq, Structural)]
pub enum RdRandError {
    /// The processor has no `rdrand` instruction.
    NotSupported,
    /// `rdrand` failed on every attempt.
    HardFailure,
}

/// How many times `rdrand` is tried before giving up.
pub const RDRAND_RETRY_LIMIT: u32 = 22;

/// Whether an `rdrand` result is usable: it is not zero and the carry flag
/// (with the always-set bit 1) is set in the flags it left.
pub open spec fn spec_sample_accepted(result: u64, rflags: u64) -> bool {
    result > 0 && (rflags & RFLAGS_ALL) & RFLAGS_CARRY_FLAG == RFLAGS_CARRY_FLAG
}

/// The retry state of one request for a random number.
#[derive(Debug)]
pub struct RdRand {
    attempts: u32,
}

impl RdRand {
    /// How many attempts have been made.
    pub closed spec fn spec_attempts(&self) -> u32 {
        self.attempts
    }

    /// Starts a request: fails with `NotSupported` when the processor has no
    /// `rdrand`.
    pub fn begin(has_rdrand: bool) -> (r: Result<RdRand, RdRandError>)
        ensures
            has_rdrand <==> r is Ok,
            !has_rdrand ==> r == Err::<RdRand, RdRandError>(RdRandError::NotSupported),
            r matches Ok(state) ==> state.spec_attempts() == 0,
    {
        if has_rdrand {
            Ok(RdRand { attempts: 0 })
        } else {
            Err(RdRandError::NotSupported)
        }
    }

    /// Takes the outcome of one `rdrand` (its result and the flags it
    /// left): `Some(Ok(result))` when it is usable, `None` to try again, and
    /// `Some(Err(HardFailure))` after the last of [`RDRAND_RETRY_LIMIT`]
    /// attempts failed.
    pub fn next(&mut self, result: u64, rflags: u64) -> (r: Option<Result<u64, RdRandError>>)
        requires
            old(self).spec_attempts() < RDRAND_RETRY_LIMIT,
        ensures
            final(self).spec_attempts() == old(self).spec_attempts() + 1,
            spec_sample_accepted(result, rflags) ==> r == Some(Ok::<u64, RdRandError>(result)),
            !spec_sample_accepted(result, rflags) && final(self).spec_attempts() < RDRAND_RETRY_LIMIT
                ==> r is None,
            !spec_sample_accepted(result, rflags) && final(self).spec_attempts() == RDRAND_RETRY_LIMIT
                ==> r == Some(Err::<u64, RdRandError>(RdRandError::HardFailure)),
    {
        self.attempts = self.attempts + 1;
        if result > 0 && (rflags & RFLAGS_ALL) & RFLAGS_CARRY_FLAG == RFLAGS_CARRY_FLAG {
            Some(Ok(result))
        } else if self.attempts < RDRAND_RETRY_LIMIT {
            None
        } else {
            Some(Err(RdRandError::HardFailure))
        }
    }
}

} // verus!
