use vstd::prelude::*;

use crate::addresses::{
    address_of, derivation_ok, derive_address, verify_derivation, Address, Authority,
    AuthorityHandle, Seeds, CANONICAL_NONCE,
};
use crate::error::PasswordEscrowError;
use crate::gateway::{close_account, close_spec, transfer_checked, transfer_spec};
use crate::state::{Escrow, EscrowConfig, TokenAccount, World, WorldView};

verus! {

/// The highest admissible fee rate: 10000 basis points, that is 100%.
pub const MAX_FEE_BPS: u64 = 10000;

/// The accounts named by an `initialize_config` call.
#[derive(Clone, Copy, Debug, PartialEq, Eq, Structural)]
pub struct InitializeConfig {
    /// The signer paying for the fresh record's storage.
    pub payer: u64,
    /// The freshly chosen id of the config record's address.
    pub config: u64,
}

/// The accounts named by an `update_config` call.
#[derive(Clone, Copy, Debug, PartialEq, Eq, Structural)]
pub struct UpdateConfig {
    /// The id of the config record to change.
    pub config: u64,
    /// The signer of the call, which must be the stored `config_authority`.
    pub config_authority: u64,
}

/// The accounts named by a `withdraw_fees` call.
#[derive(Clone, Copy, Debug, PartialEq, Eq, Structural)]
pub struct WithdrawFees {
    /// The id of the config whose fees would be swept.
    pub config: u64,
    /// The signer of the call, which must be the stored `withdraw_authority`.
    pub withdraw_authority: u64,
}

/// The accounts named by a `deposit` call.
#[derive(Clone, Copy, Debug, PartialEq, Eq, Structural)]
pub struct Deposit {
    /// The id of the config the escrow is opened under.
    pub config: u64,
    /// The address of the escrow record to create; it must equal the
    /// derivation from `(beneficiary, config)`.
    pub escrow: Address,
    /// The signer funding the deposit.
    pub depositor: u64,
    /// The depositor's token account, debited by the deposit.
    pub token_account: Address,
    /// The id of the token type deposited.
    pub mint: u64,
    /// The address of the custody account to create; it must equal the
    /// vault derivation for the escrow authority and the mint.
    pub vault: Address,
}

/// The accounts named by a `withdraw` call.
#[derive(Clone, Copy, Debug, PartialEq, Eq, Structural)]
pub struct Withdraw {
    /// The id of the config the escrow was opened under.
    pub config: u64,
    /// The address of the escrow record to release and close.
    pub escrow: Address,
    /// The signer of the call, which must be the stored beneficiary.
    pub beneficiary: u64,
    /// The custody account to drain and close.
    pub vault: Address,
    /// The id of the token type held.
    pub mint: u64,
    /// The token account receiving the whole vault balance.
    pub destination: Address,
}

/// The `initialize_config` transition: create a policy record at a fresh
/// address, derive and persist its fee-custody authority, and store the two
/// role addresses and the fee rate verbatim.
pub open spec fn initialize_config_spec(
    w: WorldView,
    accounts: InitializeConfig,
    config_authority: u64,
    withdraw_authority: u64,
    fee_bps: u64,
) -> Result<WorldView, PasswordEscrowError> {
    let key = Address::Key(accounts.config);
    if fee_bps > MAX_FEE_BPS {
        Err(PasswordEscrowError::InvalidFeeRate)
    } else if w.configs.dom().contains(key) {
        Err(PasswordEscrowError::AccountAlreadyExists)
    } else {
        Ok(
            WorldView {
                configs: w.configs.insert(
                    key,
                    EscrowConfig {
                        config_authority,
                        withdraw_authority,
                        signer: address_of(Seeds::Signer { config: accounts.config }),
                        fee_bps,
                        signer_bump: CANONICAL_NONCE,
                    },
                ),
                ..w
            },
        )
    }
}

/// Creates the policy record for `accounts.config`, exactly as
/// [`initialize_config_spec`] says; on failure the world is unchanged.
pub fn initialize_config(
    w: &mut World,
    accounts: InitializeConfig,
    config_authority: u64,
    withdraw_authority: u64,
    fee_bps: u64,
) -> (r: Result<(), PasswordEscrowError>)
    requires
        old(w).wf(),
    ensures
        final(w).wf(),
        r is Ok ==> initialize_config_spec(old(w)@, accounts, config_authority, withdraw_authority, fee_bps)
            == Ok::<WorldView, PasswordEscrowError>(final(w)@),
        r is Err ==> initialize_config_spec(old(w)@, accounts, config_authority, withdraw_authority, fee_bps)
            == Err::<WorldView, PasswordEscrowError>(r->Err_0) && final(w)@ == old(w)@,
{
    if fee_bps > MAX_FEE_BPS {
        return Err(PasswordEscrowError::InvalidFeeRate);
    }
    let key = Address::Key(accounts.config);
    if w.configs.contains(&key) {
        return Err(PasswordEscrowError::AccountAlreadyExists);
    }
    let (signer, signer_bump) = derive_address(Seeds::Signer { config: accounts.config });
    w.configs.set(
        key,
        EscrowConfig { config_authority, withdraw_authority, signer, fee_bps, signer_bump },
    );
    Ok(())
}

/// The `update_config` transition: only a call signed by the stored
/// `config_authority` may overwrite the three policy fields; the derived
/// fee-custody authority and its nonce are immutable.
pub open spec fn update_config_spec(
    w: WorldView,
    accounts: UpdateConfig,
    config_authority: u64,
    withdraw_authority: u64,
    fee_bps: u64,
) -> Result<WorldView, PasswordEscrowError> {
    let key = Address::Key(accounts.config);
    if !w.configs.dom().contains(key) {
        Err(PasswordEscrowError::AccountNotFound)
    } else if accounts.config_authority != w.configs[key].config_authority {
        Err(PasswordEscrowError::AuthorizationMismatch)
    } else if fee_bps > MAX_FEE_BPS {
        Err(PasswordEscrowError::InvalidFeeRate)
    } else {
        Ok(
            WorldView {
                configs: w.configs.insert(
                    key,
                    EscrowConfig {
                        config_authority,
                        withdraw_authority,
                        signer: w.configs[key].signer,
                        fee_bps,
                        signer_bump: w.configs[key].signer_bump,
                    },
                ),
                ..w
            },
        )
    }
}

/// Overwrites the policy of `accounts.config`, exactly as
/// [`update_config_spec`] says; on failure the world is unchanged.
pub fn update_config(
    w: &mut World,
    accounts: UpdateConfig,
    config_authority: u64,
    withdraw_authority: u64,
    fee_bps: u64,
) -> (r: Result<(), PasswordEscrowError>)
    requires
        old(w).wf(),
    ensures
        final(w).wf(),
        r is Ok ==> update_config_spec(old(w)@, accounts, config_authority, withdraw_authority, fee_bps)
            == Ok::<WorldView, PasswordEscrowError>(final(w)@),
        r is Err ==> update_config_spec(old(w)@, accounts, config_authority, withdraw_authority, fee_bps)
            == Err::<WorldView, PasswordEscrowError>(r->Err_0) && final(w)@ == old(w)@,
{
    let key = Address::Key(accounts.config);
    let stored = match w.configs.get(&key) {
        Some(c) => c,
        None => {
            return Err(PasswordEscrowError::AccountNotFound);
        },
    };
    if accounts.config_authority != stored.config_authority {
        return Err(PasswordEscrowError::AuthorizationMismatch);
    }
    if fee_bps > MAX_FEE_BPS {
        return Err(PasswordEscrowError::InvalidFeeRate);
    }
    w.configs.set(
        key,
        EscrowConfig {
            config_authority,
            withdraw_authority,
            signer: stored.signer,
            fee_bps,
            signer_bump: stored.signer_bump,
        },
    );
    Ok(())
}

/// The `withdraw_fees` transition: it authenticates the stored
/// `withdraw_authority` and then changes nothing.  Sweeping the fee custody
/// account is an unimplemented feature, not a preserved behaviour: a real
/// sweep must be designed before fee collection is relied on.
pub open spec fn withdraw_fees_spec(w: WorldView, accounts: WithdrawFees) -> Result<
    WorldView,
    PasswordEscrowError,
> {
    let key = Address::Key(accounts.config);
    if !w.configs.dom().contains(key) {
        Err(PasswordEscrowError::AccountNotFound)
    } else if accounts.withdraw_authority != w.configs[key].withdraw_authority {
        Err(PasswordEscrowError::AuthorizationMismatch)
    } else {
        Ok(w)
    }
}

/// Authenticates a fee sweep and performs no state change at all, exactly as
/// [`withdraw_fees_spec`] says: the world after the call equals the world
/// before it, whether the call succeeds or fails.
pub fn withdraw_fees(w: &mut World, accounts: WithdrawFees) -> (r: Result<
    (),
    PasswordEscrowError,
>)
    requires
        old(w).wf(),
    ensures
        final(w).wf(),
        final(w)@ == old(w)@,
        r is Ok ==> withdraw_fees_spec(old(w)@, accounts) == Ok::<WorldView, PasswordEscrowError>(
            final(w)@,
        ),
        r is Err ==> withdraw_fees_spec(old(w)@, accounts) == Err::<WorldView, PasswordEscrowError>(
            r->Err_0,
        ),
{
    let key = Address::Key(accounts.config);
    let stored = match w.configs.get(&key) {
        Some(c) => c,
        None => {
            return Err(PasswordEscrowError::AccountNotFound);
        },
    };
    if accounts.withdraw_authority != stored.withdraw_authority {
        return Err(PasswordEscrowError::AuthorizationMismatch);
    }
    Ok(())
}

/// The `deposit` transition.
///
/// A positive `amount` is moved from the depositor's token account into a
/// fresh vault controlled by the escrow's derived authority, and the escrow
/// record is persisted at its derived address with the discovered nonce.
/// The supplied escrow and vault addresses must equal their derivations; at
/// most one escrow can exist per `(beneficiary, config)` pair, whatever the
/// salt, because the salt does not enter the derivation.
pub open spec fn deposit_spec(
    w: WorldView,
    accounts: Deposit,
    amount: u64,
    salt: u128,
    beneficiary: u64,
) -> Result<WorldView, PasswordEscrowError> {
    let cfg_key = Address::Key(accounts.config);
    let mint_key = Address::Key(accounts.mint);
    let escrow_addr = address_of(Seeds::Escrow { beneficiary, config: accounts.config });
    let vault_addr = Address::VaultAta {
        beneficiary,
        config: accounts.config,
        mint: accounts.mint,
    };
    if amount == 0 {
        Err(PasswordEscrowError::ZeroAmount)
    } else if !w.configs.dom().contains(cfg_key) {
        Err(PasswordEscrowError::AccountNotFound)
    } else if accounts.escrow != escrow_addr {
        Err(PasswordEscrowError::AddressDerivationMismatch)
    } else if w.escrows.dom().contains(escrow_addr) {
        Err(PasswordEscrowError::AccountAlreadyExists)
    } else if !w.mints.dom().contains(mint_key) {
        Err(PasswordEscrowError::AccountNotFound)
    } else if accounts.vault != vault_addr {
        Err(PasswordEscrowError::AddressDerivationMismatch)
    } else if w.accounts.dom().contains(vault_addr) {
        Err(PasswordEscrowError::AccountAlreadyExists)
    } else {
        let with_vault = w.accounts.insert(
            vault_addr,
            TokenAccount { mint: accounts.mint, owner: escrow_addr, balance: 0 },
        );
        match transfer_spec(
            with_vault,
            w.mints,
            accounts.token_account,
            vault_addr,
            accounts.mint,
            w.mints[mint_key].decimals,
            Authority::Signature(accounts.depositor),
            amount,
        ) {
            Err(e) => Err(e),
            Ok(accounts2) => Ok(
                WorldView {
                    escrows: w.escrows.insert(
                        escrow_addr,
                        Escrow {
                            config: accounts.config,
                            depositor: accounts.depositor,
                            beneficiary,
                            salt,
                            mint: accounts.mint,
                            vault: vault_addr,
                            escrow_bump: CANONICAL_NONCE,
                        },
                    ),
                    accounts: accounts2,
                    ..w
                },
            ),
        }
    }
}

/// Locks `amount` minor units for `beneficiary`, exactly as [`deposit_spec`]
/// says; on failure the world is unchanged and no account is created.
pub fn deposit(
    w: &mut World,
    accounts: Deposit,
    amount: u64,
    salt: u128,
    beneficiary: u64,
) -> (r: Result<(), PasswordEscrowError>)
    requires
        old(w).wf(),
    ensures
        final(w).wf(),
        r is Ok ==> deposit_spec(old(w)@, accounts, amount, salt, beneficiary)
            == Ok::<WorldView, PasswordEscrowError>(final(w)@),
        r is Err ==> deposit_spec(old(w)@, accounts, amount, salt, beneficiary)
            == Err::<WorldView, PasswordEscrowError>(r->Err_0) && final(w)@ == old(w)@,
{
    if amount == 0 {
        return Err(PasswordEscrowError::ZeroAmount);
    }
    if !w.configs.contains(&Address::Key(accounts.config)) {
        return Err(PasswordEscrowError::AccountNotFound);
    }
    let (escrow_addr, escrow_bump) = derive_address(
        Seeds::Escrow { beneficiary, config: accounts.config },
    );
    if accounts.escrow != escrow_addr {
        return Err(PasswordEscrowError::AddressDerivationMismatch);
    }
    if w.escrows.contains(&escrow_addr) {
        return Err(PasswordEscrowError::AccountAlreadyExists);
    }
    let mint_info = match w.mints.get(&Address::Key(accounts.mint)) {
        Some(m) => m,
        None => {
            return Err(PasswordEscrowError::AccountNotFound);
        },
    };
    let vault_addr = Address::VaultAta {
        beneficiary,
        config: accounts.config,
        mint: accounts.mint,
    };
    if accounts.vault != vault_addr {
        return Err(PasswordEscrowError::AddressDerivationMismatch);
    }
    if w.accounts.contains(&vault_addr) {
        return Err(PasswordEscrowError::AccountAlreadyExists);
    }
    // The vault is created empty under the escrow authority, then funded by
    // the depositor's own signature through the token gateway.
    w.accounts.set(
        vault_addr,
        TokenAccount { mint: accounts.mint, owner: escrow_addr, balance: 0 },
    );
    let moved = transfer_checked(
        &mut w.accounts,
        &w.mints,
        &accounts.token_account,
        &vault_addr,
        accounts.mint,
        mint_info.decimals,
        &Authority::Signature(accounts.depositor),
        amount,
    );
    match moved {
        Err(e) => {
            // The gateway rejected the funding transfer without touching any
            // balance; undo the vault creation so the whole call is atomic.
            w.accounts.remove(&vault_addr);
            proof {
                assert(final(w)@.accounts =~= old(w)@.accounts);
                assert(final(w)@ =~= old(w)@);
            }
            Err(e)
        },
        Ok(()) => {
            w.escrows.set(
                escrow_addr,
                Escrow {
                    config: accounts.config,
                    depositor: accounts.depositor,
                    beneficiary,
                    salt,
                    mint: accounts.mint,
                    vault: vault_addr,
                    escrow_bump,
                },
            );
            Ok(())
        },
    }
}

/// The `withdraw` transition.
///
/// Only a call signed by the escrow's stored beneficiary, naming the stored
/// config and vault, and whose escrow address is reproduced by the stored
/// seeds and nonce, releases the funds: the whole vault balance moves to the
/// destination under the escrow's derived-authority signature, then the
/// vault and the escrow record cease to exist.  No fee is deducted in this
/// path even though a fee rate is stored in policy.
pub open spec fn withdraw_spec(w: WorldView, accounts: Withdraw) -> Result<
    WorldView,
    PasswordEscrowError,
> {
    let cfg_key = Address::Key(accounts.config);
    let mint_key = Address::Key(accounts.mint);
    let seeds = Seeds::Escrow { beneficiary: accounts.beneficiary, config: accounts.config };
    if !w.configs.dom().contains(cfg_key) {
        Err(PasswordEscrowError::AccountNotFound)
    } else if !w.escrows.dom().contains(accounts.escrow) {
        Err(PasswordEscrowError::AccountNotFound)
    } else if w.escrows[accounts.escrow].config != accounts.config
        || w.escrows[accounts.escrow].vault != accounts.vault {
        Err(PasswordEscrowError::AddressDerivationMismatch)
    } else if w.escrows[accounts.escrow].beneficiary != accounts.beneficiary {
        Err(PasswordEscrowError::AuthorizationMismatch)
    } else if !derivation_ok(accounts.escrow, seeds, w.escrows[accounts.escrow].escrow_bump) {
        Err(PasswordEscrowError::AddressDerivationMismatch)
    } else if w.escrows[accounts.escrow].mint != accounts.mint {
        Err(PasswordEscrowError::MintMismatch)
    } else if !w.mints.dom().contains(mint_key) {
        Err(PasswordEscrowError::AccountNotFound)
    } else if !w.accounts.dom().contains(accounts.vault) {
        Err(PasswordEscrowError::AccountNotFound)
    } else {
        let handle = Authority::Handle(
            AuthorityHandle { seeds, nonce: w.escrows[accounts.escrow].escrow_bump },
        );
        match transfer_spec(
            w.accounts,
            w.mints,
            accounts.vault,
            accounts.destination,
            accounts.mint,
            w.mints[mint_key].decimals,
            handle,
            w.accounts[accounts.vault].balance,
        ) {
            Err(e) => Err(e),
            Ok(accounts2) => match close_spec(accounts2, accounts.vault, handle) {
                Err(e) => Err(e),
                Ok(accounts3) => Ok(
                    WorldView {
                        escrows: w.escrows.remove(accounts.escrow),
                        accounts: accounts3,
                        ..w
                    },
                ),
            },
        }
    }
}

/// Releases an escrow to its beneficiary, exactly as [`withdraw_spec`] says;
/// on failure the world is unchanged, the escrow and vault included.
pub fn withdraw(w: &mut World, accounts: Withdraw) -> (r: Result<(), PasswordEscrowError>)
    requires
        old(w).wf(),
    ensures
        final(w).wf(),
        r is Ok ==> withdraw_spec(old(w)@, accounts) == Ok::<WorldView, PasswordEscrowError>(
            final(w)@,
        ),
        r is Err ==> withdraw_spec(old(w)@, accounts) == Err::<WorldView, PasswordEscrowError>(
            r->Err_0,
        ) && final(w)@ == old(w)@,
{
    if !w.configs.contains(&Address::Key(accounts.config)) {
        return Err(PasswordEscrowError::AccountNotFound);
    }
    let escrow = match w.escrows.get(&accounts.escrow) {
        Some(e) => e,
        None => {
            return Err(PasswordEscrowError::AccountNotFound);
        },
    };
    if escrow.config != accounts.config || escrow.vault != accounts.vault {
        return Err(PasswordEscrowError::AddressDerivationMismatch);
    }
    if escrow.beneficiary != accounts.beneficiary {
        return Err(PasswordEscrowError::AuthorizationMismatch);
    }
    let seeds = Seeds::Escrow { beneficiary: accounts.beneficiary, config: accounts.config };
    if !verify_derivation(&accounts.escrow, seeds, escrow.escrow_bump) {
        return Err(PasswordEscrowError::AddressDerivationMismatch);
    }
    if escrow.mint != accounts.mint {
        return Err(PasswordEscrowError::MintMismatch);
    }
    let mint_info = match w.mints.get(&Address::Key(accounts.mint)) {
        Some(m) => m,
        None => {
            return Err(PasswordEscrowError::AccountNotFound);
        },
    };
    let vault_acc = match w.accounts.get(&accounts.vault) {
        Some(a) => a,
        None => {
            return Err(PasswordEscrowError::AccountNotFound);
        },
    };
    // Reconstruct the escrow's signing authority from its stored seed data:
    // no human key takes part in the two gateway calls below.
    let handle = Authority::Handle(AuthorityHandle { seeds, nonce: escrow.escrow_bump });
    let moved = transfer_checked(
        &mut w.accounts,
        &w.mints,
        &accounts.vault,
        &accounts.destination,
        accounts.mint,
        mint_info.decimals,
        &handle,
        vault_acc.balance,
    );
    if let Err(e) = moved {
        return Err(e);
    }
    let closed = close_account(&mut w.accounts, &accounts.vault, &Address::Key(accounts.config), &handle);
    if let Err(e) = closed {
        // The closure can only be refused when the destination was the vault
        // itself, in which case the transfer above moved nothing.
        proof {
            assert(final(w)@ =~= old(w)@);
        }
        return Err(e);
    }
    w.escrows.remove(&accounts.escrow);
    Ok(())
}

} // verus!
