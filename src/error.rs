use vstd::prelude::*;

verus! {

/// Why an invocation of the fee handler failed.
#[derive(Debug, Clone, Copy, PartialEq, Eq, Structural)]
pub enum FeeError {
    /// The instruction bytes do not decode to the expected (empty) payload.
    DeserializationError,
    /// Fewer accounts were supplied than the positional contract requires.
    MissingAccount,
    /// The payer account did not sign the transaction.
    MissingRequiredSignature,
    /// The fixed recipient address does not parse.
    InvalidArgument,
    /// The host ledger refused the transfer; the host's error code is kept as is.
    LedgerExecutionError(u64),
}

} // verus!
