use vstd::prelude::*;

verus! {

/// The kinds of failure that the library reports to its caller.
#[derive(Clone, Copy, Debug, PartialEq, Eq, Structural)]
pub enum WalletError {
    /// The seed did not decode to exactly 64 bytes.
    InvalidSeedLength,
    /// The network selector was neither `Mainnet` nor `Testnet`.
    UnknownNet,
    /// The anonymity-revoker threshold was zero or above the number of revokers.
    InvalidThreshold,
    /// A revealed attribute tag was requested more than once.
    DuplicateReveal,
    /// A revealed attribute tag is not part of the attribute list.
    UnknownAttribute,
    /// A required input field was absent.
    MissingField,
    /// Malformed hex or binary input.
    DecodeFailure,
    /// The proving protocol could not produce a proof.
    ProofGenerationFailed,
    /// The keys of the attribute values and of the randomness disagree.
    SignatureVerificationMismatch,
    /// More keys or signatures than key indices can address.
    TooManyKeys,
    /// No commitment randomness was supplied for an attribute that needs one.
    MissingAttributeRandomness,
}

impl WalletError {
    /// A human-readable description of the failure.
    pub fn message(&self) -> String {
        let s: &str = match self {
            WalletError::InvalidSeedLength => "The provided seed was not 64 bytes",
            WalletError::UnknownNet => "Unknown net",
            WalletError::InvalidThreshold =>
                "arThreshold must be at least 1 and at most the number of anonymity revokers.",
            WalletError::DuplicateReveal => "Cannot reveal an attribute more than once.",
            WalletError::UnknownAttribute =>
                "Cannot reveal an attribute which is not part of the attribute list.",
            WalletError::MissingField => "A required field is not present, but should be.",
            WalletError::DecodeFailure => "Unable to decode the hex or binary input.",
            WalletError::ProofGenerationFailed => "Unable to generate proof",
            WalletError::SignatureVerificationMismatch => "Values and randomness does not match",
            WalletError::TooManyKeys => "At most 256 keys can be indexed.",
            WalletError::MissingAttributeRandomness => "Missing randomness for given attribute tag.",
        };
        s.to_string()
    }
}

} // verus!
