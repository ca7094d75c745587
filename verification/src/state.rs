use vstd::prelude::*;

use crate::addresses::{address_of, Address, Seeds, CANONICAL_NONCE};
use crate::error::PasswordEscrowError;
use crate::table::Table;

verus! {

/// The administrative policy record, one per deployment.
///
/// It is created once by any payer, mutated only by `config_authority`, and
/// never closed.  The derived fee-custody authority `signer` and its nonce
/// `signer_bump` are fixed at creation and immutable afterwards.
#[derive(Clone, Copy, Debug, PartialEq, Eq, Structural)]
pub struct EscrowConfig {
    /// The address permitted to mutate this policy record.
    pub config_authority: u64,
    /// The address permitted to sweep collected fees.
    pub withdraw_authority: u64,
    /// The derived authority used for fee custody.
    pub signer: Address,
    /// The fee rate in basis points, at most [`crate::handlers::MAX_FEE_BPS`].
    pub fee_bps: u64,
    /// The nonce proving the derivation of `signer`.
    pub signer_bump: u8,
}

/// One active deposit: created by `deposit`, destroyed by `withdraw`.
///
/// Its address is derived from `(beneficiary, config)` alone, so at most one
/// active escrow exists per such pair at any time, whatever the salt.
#[derive(Clone, Copy, Debug, PartialEq, Eq, Structural)]
pub struct Escrow {
    /// The config this escrow was opened under.
    pub config: u64,
    /// The key that funded the escrow.
    pub depositor: u64,
    /// The only key whose signature can release the funds.
    pub beneficiary: u64,
    /// A 16-byte client-supplied value, stored verbatim; it does not enter
    /// address derivation.
    pub salt: u128,
    /// The token type held in custody.
    pub mint: u64,
    /// The custody token account's address.
    pub vault: Address,
    /// The nonce proving the derivation of this escrow's address.
    pub escrow_bump: u8,
}

/// A fungible-token account of the ledger: its token type, its controlling
/// authority, and its balance in minor units.
#[derive(Clone, Copy, Debug, PartialEq, Eq, Structural)]
pub struct TokenAccount {
    /// The token type this account holds.
    pub mint: u64,
    /// The authority whose signature (plain or derived) moves the balance.
    pub owner: Address,
    /// The held amount in minor units.
    pub balance: u64,
}

/// Token-type metadata, kept by the ledger's minting layer.
#[derive(Clone, Copy, Debug, PartialEq, Eq, Structural)]
pub struct MintInfo {
    /// The number of decimal places of the token's minor unit.
    pub decimals: u8,
}

/// The persisted state the handlers act on: every record type at its
/// address.  The hosting ledger serializes access per account; each handler
/// call is one atomic transaction on a `World`.
pub struct World {
    /// Policy records, at freely chosen `Address::Key` addresses.
    pub configs: Table<EscrowConfig>,
    /// Active escrow records, at their derived addresses.
    pub escrows: Table<Escrow>,
    /// Token accounts, vaults included.
    pub accounts: Table<TokenAccount>,
    /// Token-type metadata, at the mint's `Address::Key` address.
    pub mints: Table<MintInfo>,
}

/// The mathematical view of a [`World`].
#[verifier::ext_equal]
pub struct WorldView {
    /// Policy records by address.
    pub configs: Map<Address, EscrowConfig>,
    /// Active escrow records by address.
    pub escrows: Map<Address, Escrow>,
    /// Token accounts by address.
    pub accounts: Map<Address, TokenAccount>,
    /// Token-type metadata by address.
    pub mints: Map<Address, MintInfo>,
}

impl WorldView {
    /// Every escrow record of the world is internally consistent: it sits at
    /// the address derived from its beneficiary and config, its nonce is the
    /// canonical one, its vault address is the derivation for that escrow and
    /// its mint, and the vault exists, holds that mint, and is controlled by
    /// the escrow's derived authority — an address no key signs for.
    pub open spec fn consistent(self) -> bool {
        forall|addr: Address| #[trigger] self.escrows.dom().contains(addr) ==> {
            let e = self.escrows[addr];
            &&& addr == address_of(
                Seeds::Escrow { beneficiary: e.beneficiary, config: e.config },
            )
            &&& e.escrow_bump == CANONICAL_NONCE
            &&& e.vault == (Address::VaultAta {
                beneficiary: e.beneficiary,
                config: e.config,
                mint: e.mint,
            })
            &&& self.accounts.dom().contains(e.vault)
            &&& self.accounts[e.vault].owner == addr
            &&& self.accounts[e.vault].mint == e.mint
        }
    }
}

impl View for World {
    type V = WorldView;

    open spec fn view(&self) -> WorldView {
        WorldView {
            configs: self.configs@,
            escrows: self.escrows@,
            accounts: self.accounts@,
            mints: self.mints@,
        }
    }
}

impl World {
    /// Each record table keys every address at most once.
    pub open spec fn wf(self) -> bool {
        self.configs.wf() && self.escrows.wf() && self.accounts.wf() && self.mints.wf()
    }

    /// A ledger with no records at all.
    pub fn new() -> (w: World)
        ensures
            w.wf(),
            w@.configs == Map::<Address, EscrowConfig>::empty(),
            w@.escrows == Map::<Address, Escrow>::empty(),
            w@.accounts == Map::<Address, TokenAccount>::empty(),
            w@.mints == Map::<Address, MintInfo>::empty(),
    {
        World {
            configs: Table::new(),
            escrows: Table::new(),
            accounts: Table::new(),
            mints: Table::new(),
        }
    }

    /// Registers a token type.  This stands for the ledger's own minting
    /// layer, which is outside the escrow program's scope.
    pub fn add_mint(&mut self, mint: u64, decimals: u8) -> (r: Result<(), PasswordEscrowError>)
        requires
            old(self).wf(),
        ensures
            final(self).wf(),
            r is Ok <==> !old(self)@.mints.dom().contains(Address::Key(mint)),
            r is Ok ==> final(self)@ == (WorldView {
                mints: old(self)@.mints.insert(Address::Key(mint), MintInfo { decimals }),
                ..old(self)@
            }),
            r is Err ==> final(self)@ == old(self)@ && r == Err::<(), PasswordEscrowError>(
                PasswordEscrowError::AccountAlreadyExists,
            ),
    {
        let key = Address::Key(mint);
        if self.mints.contains(&key) {
            return Err(PasswordEscrowError::AccountAlreadyExists);
        }
        self.mints.set(key, MintInfo { decimals });
        Ok(())
    }

    /// Creates a token account holding `balance` minor units of `mint` under
    /// authority `owner`.  This stands for the ledger-native account creation
    /// and minting that surround the escrow program.
    pub fn create_token_account(
        &mut self,
        addr: Address,
        mint: u64,
        owner: Address,
        balance: u64,
    ) -> (r: Result<(), PasswordEscrowError>)
        requires
            old(self).wf(),
        ensures
            final(self).wf(),
            r is Ok <==> old(self)@.mints.dom().contains(Address::Key(mint)) && !old(
                self,
            )@.accounts.dom().contains(addr),
            r is Ok ==> final(self)@ == (WorldView {
                accounts: old(self)@.accounts.insert(addr, TokenAccount { mint, owner, balance }),
                ..old(self)@
            }),
            r is Err ==> final(self)@ == old(self)@,
            r is Err ==> r->Err_0 == (if !old(self)@.mints.dom().contains(Address::Key(mint)) {
                PasswordEscrowError::AccountNotFound
            } else {
                PasswordEscrowError::AccountAlreadyExists
            }),
    {
        if !self.mints.contains(&Address::Key(mint)) {
            return Err(PasswordEscrowError::AccountNotFound);
        }
        if self.accounts.contains(&addr) {
            return Err(PasswordEscrowError::AccountAlreadyExists);
        }
        self.accounts.set(addr, TokenAccount { mint, owner, balance });
        Ok(())
    }

    /// The policy record stored for config id `config`, if any.
    pub fn config_at(&self, config: u64) -> (r: Option<EscrowConfig>)
        requires
            self.wf(),
        ensures
            r == (if self@.configs.dom().contains(Address::Key(config)) {
                Some(self@.configs[Address::Key(config)])
            } else {
                None::<EscrowConfig>
            }),
    {
        self.configs.get(&Address::Key(config))
    }

    /// The escrow record stored at `addr`, if any.
    pub fn escrow_at(&self, addr: &Address) -> (r: Option<Escrow>)
        requires
            self.wf(),
        ensures
            r == (if self@.escrows.dom().contains(*addr) {
                Some(self@.escrows[*addr])
            } else {
                None::<Escrow>
            }),
    {
        self.escrows.get(addr)
    }

    /// The token account stored at `addr`, if any.
    pub fn token_account_at(&self, addr: &Address) -> (r: Option<TokenAccount>)
        requires
            self.wf(),
        ensures
            r == (if self@.accounts.dom().contains(*addr) {
                Some(self@.accounts[*addr])
            } else {
                None::<TokenAccount>
            }),
    {
        self.accounts.get(addr)
    }
}

} // verus!
