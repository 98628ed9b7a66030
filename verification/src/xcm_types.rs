//! Plain-value forms of the XCM execution results that the message queue reads.
use vstd::prelude::*;

verus! {

/// Weight of an XCM execution: computation time and proof size.
#[derive(Clone, Copy, Debug, PartialEq, Eq, Structural)]
pub struct Weight {
    pub ref_time: u64,
    pub proof_size: u64,
}

impl Weight {
    /// Builds a weight from its two components.
    pub fn from_parts(ref_time: u64, proof_size: u64) -> (w: Weight)
        ensures
            w.ref_time == ref_time,
            w.proof_size == proof_size,
    {
        Weight { ref_time, proof_size }
    }
}

/// The errors that executing an XCM message can report (version 3 of the format).
#[derive(Clone, Copy, Debug, PartialEq, Eq)]
pub enum XcmError {
    Overflow,
    Unimplemented,
    UntrustedReserveLocation,
    UntrustedTeleportLocation,
    LocationFull,
    LocationNotInvertible,
    BadOrigin,
    InvalidLocation,
    AssetNotFound,
    FailedToTransactAsset(&'static str),
    NotWithdrawable,
    LocationCannotHold,
    ExceedsMaxMessageSize,
    DestinationUnsupported,
    Transport(&'static str),
    Unroutable,
    UnknownClaim,
    FailedToDecode,
    MaxWeightInvalid,
    NotHoldingFees,
    TooExpensive,
    Trap(u64),
    ExpectationFalse,
    PalletNotFound,
    NameMismatch,
    VersionIncompatible,
    HoldingWouldOverflow,
    ExportError,
    ReanchorFailed,
    NoDeal,
    FeesNotMet,
    LockError,
    NoPermission,
    Unanchored,
    NotDepositable,
    UnhandledXcmVersion,
    WeightLimitReached(Weight),
    Barrier,
    WeightNotComputable,
    ExceedsStackLimit,
}

/// What the XCM executor reports after it was handed a message.
#[derive(Clone, Copy, Debug, PartialEq, Eq)]
pub enum ExecOutcome {
    /// Execution completed; the given weight was used.
    Complete(Weight),
    /// Execution started but stopped with the given error after using the given weight.
    Incomplete(Weight, XcmError),
    /// Execution did not start.
    Error(XcmError),
}

} // verus!
