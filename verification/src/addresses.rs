use vstd::prelude::*;

verus! {

/// An account address on the modeled ledger.
///
/// Plain keypair-held addresses are written as integer ids wrapped in
/// [`Address::Key`].  The remaining variants are derived addresses: computed
/// deterministically from a seed tuple, with no private key in existence, so
/// only the program's own signing path can act as them.  Structural equality
/// of this enum models the injectivity of address derivation: two distinct
/// seed tuples never collide, and a derived address never equals a plain key.
#[derive(Clone, Copy, Debug, PartialEq, Eq, Structural)]
pub enum Address {
    /// An ordinary address whose holder signs with a private key.
    Key(u64),
    /// The per-config fee-custody authority, from seeds `("signer", config)`.
    SignerPda { config: u64 },
    /// The per-escrow authority, from seeds `("escrow", beneficiary, config)`.
    EscrowPda { beneficiary: u64, config: u64 },
    /// The custody token account ("vault") associated with an escrow
    /// authority and a mint.
    VaultAta { beneficiary: u64, config: u64, mint: u64 },
}

/// A seed tuple from which a signing authority is derived.
#[derive(Clone, Copy, Debug, PartialEq, Eq, Structural)]
pub enum Seeds {
    /// Seeds of a config's fee-custody authority.
    Signer { config: u64 },
    /// Seeds of an escrow's custody authority.
    Escrow { beneficiary: u64, config: u64 },
}

/// The nonce that derivation discovers for every seed tuple.
///
/// The hosting environment decides which nonces yield a valid derived
/// address and the search walks downward from the highest candidate; this
/// model's host accepts every nonce, so the first valid one is always the
/// highest.  The nonce must be persisted at creation time and re-supplied at
/// every later authorization.
pub const CANONICAL_NONCE: u8 = 255;

/// The address a seed tuple derives to.
pub open spec fn address_of(seeds: Seeds) -> Address {
    match seeds {
        Seeds::Signer { config } => Address::SignerPda { config },
        Seeds::Escrow { beneficiary, config } => Address::EscrowPda { beneficiary, config },
    }
}

/// Whether `supplied` together with `nonce` reproduces the derivation of
/// `seeds`: the check every authorization against stored seed data performs.
pub open spec fn derivation_ok(supplied: Address, seeds: Seeds, nonce: u8) -> bool {
    supplied == address_of(seeds) && nonce == CANONICAL_NONCE
}

/// Derives the address and nonce for a seed tuple.
pub fn derive_address(seeds: Seeds) -> (r: (Address, u8))
    ensures
        r.0 == address_of(seeds),
        r.1 == CANONICAL_NONCE,
{
    let addr = match seeds {
        Seeds::Signer { config } => Address::SignerPda { config },
        Seeds::Escrow { beneficiary, config } => Address::EscrowPda { beneficiary, config },
    };
    (addr, CANONICAL_NONCE)
}

/// Checks a supplied address and a stored nonce against the derivation of
/// `seeds`; a mismatch is a hard failure for the caller.
pub fn verify_derivation(supplied: &Address, seeds: Seeds, nonce: u8) -> (r: bool)
    ensures
        r == derivation_ok(*supplied, seeds, nonce),
{
    let (addr, canonical) = derive_address(seeds);
    *supplied == addr && nonce == canonical
}

/// The capability to sign as a derived address, reconstructed from the
/// stored seed data and the persisted nonce.  It authorizes an action only
/// if the pair reproduces the derivation.
#[derive(Clone, Copy, Debug, PartialEq, Eq, Structural)]
pub struct AuthorityHandle {
    /// The seed tuple the authority was derived from.
    pub seeds: Seeds,
    /// The nonce persisted when the authority was derived.
    pub nonce: u8,
}

/// An authorization presented to the token gateway: either a plain signature
/// the host has verified, or a derived authority reconstructed from stored
/// seed data.
#[derive(Clone, Copy, Debug, PartialEq, Eq, Structural)]
pub enum Authority {
    /// The named key signed the transaction (verified by the host).
    Signature(u64),
    /// Signing as the derived address of a seed tuple, proved by its nonce.
    Handle(AuthorityHandle),
}

/// Whether an authorization is a valid signer for the account owner `owner`.
pub open spec fn authorizes(a: Authority, owner: Address) -> bool {
    match a {
        Authority::Signature(k) => owner == Address::Key(k),
        Authority::Handle(h) => derivation_ok(owner, h.seeds, h.nonce),
    }
}

/// Checks an authorization against an account owner.
pub fn check_authority(a: &Authority, owner: &Address) -> (r: bool)
    ensures
        r == authorizes(*a, *owner),
{
    match a {
        Authority::Signature(k) => *owner == Address::Key(*k),
        Authority::Handle(h) => verify_derivation(owner, h.seeds, h.nonce),
    }
}

} // verus!
