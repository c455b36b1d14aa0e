use vstd::prelude::*;

verus! {

/// Failures of the key lifecycle. Each is distinct so that a caller knows
/// whether a retry is safe: an input error (`InvalidMnemonic`) leaves no state
/// behind, a persistence error (`PersistFailed`, `VerifyFailed`) must not be
/// retried silently, and `NoWalletFound` stands for a missing or corrupt key
/// record, never for a partially decoded one.
#[derive(Clone, Copy, PartialEq, Eq, Structural, Debug)]
pub enum WalletError {
    /// The supplied phrase failed word-list or checksum validation.
    InvalidMnemonic,
    /// A derivation path was malformed or child-key derivation failed.
    DerivationFailed,
    /// The key record could not be written.
    PersistFailed,
    /// The key record read back after a write did not match what was written.
    VerifyFailed,
    /// No readable key record exists.
    NoWalletFound,
}

impl WalletError {
    /// The human-readable text for each failure.
    pub open spec fn spec_message(self) -> Seq<char> {
        match self {
            WalletError::InvalidMnemonic => "invalid mnemonic"@,
            WalletError::DerivationFailed => "key derivation failed"@,
            WalletError::PersistFailed => "could not save private keys"@,
            WalletError::VerifyFailed => "could not read back saved private keys"@,
            WalletError::NoWalletFound => "could not read wallet private keys"@,
        }
    }

    /// Returns the human-readable text for this failure.
    pub fn message(&self) -> (r: &'static str)
        ensures
            r@ == self.spec_message(),
    {
        match self {
            WalletError::InvalidMnemonic => "invalid mnemonic",
            WalletError::DerivationFailed => "key derivation failed",
            WalletError::PersistFailed => "could not save private keys",
            WalletError::VerifyFailed => "could not read back saved private keys",
            WalletError::NoWalletFound => "could not read wallet private keys",
        }
    }
}

} // verus!
