use vstd::prelude::*;

verus! {

/// The failures surfaced by the escrow handlers and by the token-gateway
/// model.  A failed call leaves every record and balance unchanged.
#[derive(Clone, Copy, Debug, PartialEq, Eq, Structural)]
pub enum PasswordEscrowError {
    /// A deposit amount that is not positive.
    ZeroAmount,
    /// The caller's signature does not match the required stored authority
    /// or beneficiary.
    AuthorizationMismatch,
    /// A supplied account's address does not match the address reconstructed
    /// from stored seeds and nonce (or the stored account it must equal).
    AddressDerivationMismatch,
    /// A record already exists where a fresh one was to be created.
    AccountAlreadyExists,
    /// A referenced record does not exist (for example, already withdrawn).
    AccountNotFound,
    /// A fee rate above the allowed range of basis points.
    InvalidFeeRate,
    /// The source token account holds less than the requested amount.
    InsufficientFunds,
    /// A token account or supplied decimals disagree with the named mint.
    MintMismatch,
    /// An attempt to close a token account that still holds a balance.
    AccountNotEmpty,
    /// A transfer that would push the receiving balance past its capacity.
    BalanceOverflow,
}

} // verus!
