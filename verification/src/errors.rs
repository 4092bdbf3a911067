use vstd::prelude::*;

verus! {

/// Why the record locator failed. None of these are retried: each aborts the
/// whole disbursement run.
#[derive(Clone, Copy, Debug, PartialEq, Eq, Structural)]
pub enum LocateError {
    /// The latest chain height could not be fetched (only possible when no
    /// block hint was given, since only then is the height needed).
    NoLatestHeight,
    /// Fewer than two qualifying unspent records were found in the range.
    InsufficientRecords,
    /// The ledger client failed at the transport level.
    NetworkError,
}

/// Why startup failed before any ledger interaction.
#[derive(Clone, Copy, Debug, PartialEq, Eq, Structural)]
pub enum SetupError {
    /// The funding private key string did not parse.
    InvalidPrivateKey,
    /// The recipient line at this index (0-based) did not parse as an address.
    InvalidAddress { line: usize },
}

/// Why a whole disbursement run halted before the recipient list was done.
#[derive(Clone, Copy, Debug, PartialEq, Eq, Structural)]
pub enum FailReason {
    /// Record selection failed for the current recipient.
    Locate(LocateError),
    /// The submission retry budget for the current recipient was exhausted.
    RetriesExhausted,
}

} // verus!
