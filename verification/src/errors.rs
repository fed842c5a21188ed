use vstd::prelude::*;

verus! {

/// Which sealed-store operation failed.
#[derive(Clone, Copy, Debug, PartialEq, Eq, Structural)]
pub enum SealErrorKind {
    Create,
    Write,
    Open,
    Read,
}

/// Every failure the wallet operations can report.
#[derive(Clone, Copy, Debug, PartialEq, Eq, Structural)]
pub enum WalletError {
    /// The entropy source was unavailable or never yielded a usable scalar.
    RandomnessFailure,
    /// The persistence collaborator failed to create, write, open or read
    /// the sealed blob.
    SealFailure(SealErrorKind),
    /// The persisted payload does not have the fixed record length.
    CodecFailure,
    /// The decoded bytes are not a valid nonzero sub-order scalar.
    KeyValidationFailure,
    /// Signing was attempted with key material that did not validate.
    SigningFailure,
}

} // verus!
