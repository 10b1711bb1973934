//! The error values surfaced by the account store.

use vstd::prelude::*;

verus! {

/// Errors surfaced by the account store and its borrow engine.
///
/// `MissingAccount` is a precondition error (index out of range);
/// `AccountBorrowFailed` is a borrow conflict; `InvalidRealloc` and
/// `MaxAccountsDataAllocationsExceeded` are capacity errors;
/// `ArithmeticOverflow` reports a checked 128-bit addition that overflowed.
#[derive(Clone, Copy, Debug, PartialEq, Eq, Structural)]
pub enum InstructionError {
    /// The account index is out of range for this transaction.
    MissingAccount,
    /// The account is already leased in a conflicting mode, or the reader
    /// count would overflow its cell.
    AccountBorrowFailed,
    /// A resize would exceed the absolute payload cap.
    InvalidRealloc,
    /// A resize would exceed the per-transaction growth cap.
    MaxAccountsDataAllocationsExceeded,
    /// A lamport-delta addition overflowed its 128-bit accumulator.
    ArithmeticOverflow,
}

} // verus!
