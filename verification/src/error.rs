//! Failures of the instruction processor.

use vstd::prelude::*;

verus! {

/// Why an invocation of the counter program was refused.
#[derive(Clone, Copy, Debug, PartialEq, Eq, Structural)]
pub enum CounterError {
    /// The instruction named no account at all.
    MissingAccount,
    /// The account is owned by some other program.
    IncorrectOwner,
    /// The account's buffer is too short to hold a counter.
    InvalidAccountData,
}

} // verus!
