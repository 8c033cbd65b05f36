use vstd::prelude::*;

verus! {

/// The ways in which one invocation can fail.
#[derive(Clone, Copy, Debug, PartialEq, Eq, Structural)]
pub enum CounterError {
    /// The input does not describe exactly one account.
    WrongAccountCount,
    /// The counter account's data region is not exactly eight bytes long.
    BadCounterAccountSize,
    /// The counter account is not owned by the invoking program.
    OwnershipViolation,
    /// The data region could not be read as exactly eight bytes.
    MalformedCounterBytes,
    /// The stored counter already holds the largest 64-bit value.
    CounterOverflow,
    /// A field would be read past the end of the input buffer.
    TruncatedInput,
}

impl CounterError {
    /// The status code that the host receives for this failure.
    pub open spec fn spec_status(self) -> u64 {
        match self {
            CounterError::WrongAccountCount => 1,
            CounterError::BadCounterAccountSize => 2,
            CounterError::OwnershipViolation => 3,
            CounterError::MalformedCounterBytes => 4,
            CounterError::CounterOverflow => 5,
            CounterError::TruncatedInput => 6,
        }
    }

    pub fn status(&self) -> (r: u64)
        ensures
            r == self.spec_status(),
            r != 0,
    {
        match self {
            CounterError::WrongAccountCount => 1,
            CounterError::BadCounterAccountSize => 2,
            CounterError::OwnershipViolation => 3,
            CounterError::MalformedCounterBytes => 4,
            CounterError::CounterOverflow => 5,
            CounterError::TruncatedInput => 6,
        }
    }
}

} // verus!
