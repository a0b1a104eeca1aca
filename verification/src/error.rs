//! The ways in which an operation on the ledger can fail.
use vstd::prelude::*;

verus! {

/// Why an operation was refused. A refused operation leaves the ledger as it
/// was.
#[derive(Clone, Copy, Debug, PartialEq, Eq, Structural)]
pub enum Cep18Error {
    /// The call chain is too short to name an immediate caller.
    InvalidContext,
    /// The debited balance is smaller than the amount.
    InsufficientBalance,
    /// The spender's allowance is smaller than the amount.
    InsufficientAllowance,
    /// An amount would leave the 256-bit range.
    Overflow,
    /// The package hash is not stored.
    PackageHashMissing,
    /// The stored package hash does not name a package.
    PackageHashNotPackage,
    /// The events mode is not one the ledger knows.
    InvalidEventsMode,
    /// No events mode was given.
    MissingEventsMode,
    /// Stands for an error that is never reported.
    Phantom,
    /// The host could not hand over an argument.
    FailedToGetArgBytes,
    /// The caller's badge does not allow the operation.
    InsufficientRights,
    /// The list of admins could not be read.
    InvalidAdminList,
    /// The list of minters could not be read.
    InvalidMinterList,
    /// The list of identities to strip of rights could not be read.
    InvalidNoneList,
    /// The flag that enables minting and burning could not be read.
    InvalidEnableMBFlag,
    /// The ledger instance exists already.
    AlreadyInitialized,
    /// Minting and burning are switched off.
    MintBurnDisabled,
    /// An operation names the caller as its own counterparty.
    CannotTargetSelfUser,
    /// A burn names an owner other than the caller.
    InvalidBurnTarget,
    /// The mint id was consumed by an earlier mint.
    AlreadyMint,
    /// The fee given differs from the configured swap fee.
    InvalidFee,
    /// The minted amount is smaller than the swap fee.
    MintTooLow,
    /// The external request id is not 64 hexadecimal digits.
    RequestIdIllFormatted,
    /// The external request id was used by an earlier request.
    RequestIdExist,
    /// The fees exceed the locked amount.
    RequestAmountTooLow,
    /// No bridge request has the given index.
    RequestNotFound,
    /// The destination chain is not among the supported chains.
    UnsupportedChainIdForRequestBridgeBack,
    /// The source token is not among the redeemable tokens.
    NotSupportedToken,
}

/// The number under which the host reports an error.
pub open spec fn error_code(error: Cep18Error) -> u16 {
    match error {
        Cep18Error::InvalidContext => 60000,
        Cep18Error::InsufficientBalance => 60001,
        Cep18Error::InsufficientAllowance => 60002,
        Cep18Error::Overflow => 60003,
        Cep18Error::PackageHashMissing => 60004,
        Cep18Error::PackageHashNotPackage => 60005,
        Cep18Error::InvalidEventsMode => 60006,
        Cep18Error::MissingEventsMode => 60007,
        Cep18Error::Phantom => 60008,
        Cep18Error::FailedToGetArgBytes => 60009,
        Cep18Error::InsufficientRights => 60010,
        Cep18Error::InvalidAdminList => 60011,
        Cep18Error::InvalidMinterList => 60012,
        Cep18Error::InvalidNoneList => 60013,
        Cep18Error::InvalidEnableMBFlag => 60014,
        Cep18Error::AlreadyInitialized => 60015,
        Cep18Error::MintBurnDisabled => 60016,
        Cep18Error::CannotTargetSelfUser => 60017,
        Cep18Error::InvalidBurnTarget => 60018,
        Cep18Error::AlreadyMint => 60019,
        Cep18Error::InvalidFee => 60020,
        Cep18Error::MintTooLow => 60021,
        Cep18Error::RequestIdIllFormatted => 60022,
        Cep18Error::RequestIdExist => 60023,
        Cep18Error::RequestAmountTooLow => 60024,
        Cep18Error::RequestNotFound => 60025,
        Cep18Error::UnsupportedChainIdForRequestBridgeBack => 60026,
        Cep18Error::NotSupportedToken => 60027,
    }
}

impl Cep18Error {
    /// The number under which the host reports this error.
    pub fn code(&self) -> (r: u16)
        ensures
            r == error_code(*self),
    {
        match self {
            Cep18Error::InvalidContext => 60000,
            Cep18Error::InsufficientBalance => 60001,
            Cep18Error::InsufficientAllowance => 60002,
            Cep18Error::Overflow => 60003,
            Cep18Error::PackageHashMissing => 60004,
            Cep18Error::PackageHashNotPackage => 60005,
            Cep18Error::InvalidEventsMode => 60006,
            Cep18Error::MissingEventsMode => 60007,
            Cep18Error::Phantom => 60008,
            Cep18Error::FailedToGetArgBytes => 60009,
            Cep18Error::InsufficientRights => 60010,
            Cep18Error::InvalidAdminList => 60011,
            Cep18Error::InvalidMinterList => 60012,
            Cep18Error::InvalidNoneList => 60013,
            Cep18Error::InvalidEnableMBFlag => 60014,
            Cep18Error::AlreadyInitialized => 60015,
            Cep18Error::MintBurnDisabled => 60016,
            Cep18Error::CannotTargetSelfUser => 60017,
            Cep18Error::InvalidBurnTarget => 60018,
            Cep18Error::AlreadyMint => 60019,
            Cep18Error::InvalidFee => 60020,
            Cep18Error::MintTooLow => 60021,
            Cep18Error::RequestIdIllFormatted => 60022,
            Cep18Error::RequestIdExist => 60023,
            Cep18Error::RequestAmountTooLow => 60024,
            Cep18Error::RequestNotFound => 60025,
            Cep18Error::UnsupportedChainIdForRequestBridgeBack => 60026,
            Cep18Error::NotSupportedToken => 60027,
        }
    }
}

} // verus!
