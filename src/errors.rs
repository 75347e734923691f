//! Error kinds of the library.

use vstd::prelude::*;

verus! {

/// Why a registry record could not be decoded.
#[derive(Clone, Copy, Debug, PartialEq, Eq, Structural)]
pub enum DecodeError {
    /// The buffer ends before the record does.
    Truncated,
    /// The buffer does not start with the tag of the record kind asked for.
    TagMismatch,
}

/// One of the two parties of a transfer.
#[derive(Clone, Copy, Debug, PartialEq, Eq, Structural)]
pub enum Party {
    Source,
    Destination,
}

/// Outcomes of the transfer compliance hook other than acceptance.
#[derive(Clone, Copy, Debug, PartialEq, Eq, Structural)]
pub enum TransferHookError {
    /// Policy: the party's blacklist record is present and set.
    Blacklisted(Party),
    /// Policy: the allowlist is enforced and the party is not on it.
    NotOnAllowlist(Party),
    /// Malformed input: fewer accounts than the calling convention fixes.
    NotEnoughAccountKeys,
    /// Malformed input: a record that had to be read could not be decoded.
    InvalidAccountData,
    /// Malformed input: the instruction is not a transfer execution.
    InvalidInstructionData,
}

impl TransferHookError {
    /// Whether this is a policy rejection rather than malformed input.
    pub fn is_policy_rejection(&self) -> (r: bool)
        ensures
            r == (self is Blacklisted || self is NotOnAllowlist),
    {
        match self {
            TransferHookError::Blacklisted(_) => true,
            TransferHookError::NotOnAllowlist(_) => true,
            _ => false,
        }
    }
}

/// Errors of the issuance ledger and of registry administration.
#[derive(Clone, Copy, Debug, PartialEq, Eq, Structural)]
pub enum StablecoinError {
    Unauthorized,
    ProgramPaused,
    QuotaExceeded,
    MinterInactive,
    ComplianceNotEnabled,
    PermanentDelegateNotEnabled,
    ConfidentialTransfersNotEnabled,
    MathOverflow,
}

} // verus!
