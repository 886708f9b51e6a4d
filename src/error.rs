use vstd::prelude::*;

verus! {

/// Every way a lifecycle run can fail.
#[derive(Debug, Clone, Copy, PartialEq, Eq, Structural)]
pub enum LavaErrors {
    NoContractID,
    FailedToUpdateBtcBalance,
    FailedToUpdateSolBalance,
    GenerationFailure,
    InvalidMnemonic,
    InvalidPath,
    DerivationFailure,
    SubprocessFailure,
    StateFileUnreadable,
    StateParseFailure,
}

/// The human-readable text of each error.
pub open spec fn message_of(e: LavaErrors) -> Seq<char> {
    match e {
        LavaErrors::NoContractID => "No contract ID found"@,
        LavaErrors::FailedToUpdateBtcBalance => "Failed to update BTC balance"@,
        LavaErrors::FailedToUpdateSolBalance => "Failed to update Sol balance"@,
        LavaErrors::GenerationFailure => "Failed to generate a mnemonic"@,
        LavaErrors::InvalidMnemonic => "Invalid mnemonic"@,
        LavaErrors::InvalidPath => "Invalid derivation path"@,
        LavaErrors::DerivationFailure => "Key derivation failed"@,
        LavaErrors::SubprocessFailure => "Loan tool could not be run"@,
        LavaErrors::StateFileUnreadable => "Contract state file could not be read"@,
        LavaErrors::StateParseFailure => "Contract state file is not valid JSON"@,
    }
}

impl LavaErrors {
    /// The message shown to a user for this error.
    pub fn message(&self) -> (r: String)
        ensures
            r@ == message_of(*self),
    {
        match self {
            LavaErrors::NoContractID => String::from_str("No contract ID found"),
            LavaErrors::FailedToUpdateBtcBalance => String::from_str("Failed to update BTC balance"),
            LavaErrors::FailedToUpdateSolBalance => String::from_str("Failed to update Sol balance"),
            LavaErrors::GenerationFailure => String::from_str("Failed to generate a mnemonic"),
            LavaErrors::InvalidMnemonic => String::from_str("Invalid mnemonic"),
            LavaErrors::InvalidPath => String::from_str("Invalid derivation path"),
            LavaErrors::DerivationFailure => String::from_str("Key derivation failed"),
            LavaErrors::SubprocessFailure => String::from_str("Loan tool could not be run"),
            LavaErrors::StateFileUnreadable => String::from_str("Contract state file could not be read"),
            LavaErrors::StateParseFailure => String::from_str("Contract state file is not valid JSON"),
        }
    }
}

} // verus!
