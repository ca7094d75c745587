use vstd::prelude::*;

use crate::addresses::{authorizes, check_authority, Address, Authority};
use crate::error::PasswordEscrowError;
use crate::state::{MintInfo, TokenAccount};
use crate::table::Table;

verus! {

/// The token gateway's transfer as a transition on the token-account map.
///
/// It moves exactly `amount` minor units from `from` to `to` and fails if
/// `authority` is not a valid signer (plain or derived) for `from`, if either
/// account or the mint is missing, if an account or the supplied `decimals`
/// disagree with `mint`, if `from` holds less than `amount`, or if `to`
/// could not hold the sum.  A transfer of an account to itself moves
/// nothing and succeeds.
pub open spec fn transfer_spec(
    accounts: Map<Address, TokenAccount>,
    mints: Map<Address, MintInfo>,
    from: Address,
    to: Address,
    mint: u64,
    decimals: u8,
    authority: Authority,
    amount: u64,
) -> Result<Map<Address, TokenAccount>, PasswordEscrowError> {
    if !accounts.dom().contains(from) || !accounts.dom().contains(to) || !mints.dom().contains(
        Address::Key(mint),
    ) {
        Err(PasswordEscrowError::AccountNotFound)
    } else if accounts[from].mint != mint || accounts[to].mint != mint
        || mints[Address::Key(mint)].decimals != decimals {
        Err(PasswordEscrowError::MintMismatch)
    } else if !authorizes(authority, accounts[from].owner) {
        Err(PasswordEscrowError::AuthorizationMismatch)
    } else if accounts[from].balance < amount {
        Err(PasswordEscrowError::InsufficientFunds)
    } else if from == to {
        Ok(accounts)
    } else if accounts[to].balance + amount > u64::MAX {
        Err(PasswordEscrowError::BalanceOverflow)
    } else {
        Ok(
            accounts.insert(
                from,
                TokenAccount {
                    balance: (accounts[from].balance - amount) as u64,
                    ..accounts[from]
                },
            ).insert(
                to,
                TokenAccount { balance: (accounts[to].balance + amount) as u64, ..accounts[to] },
            ),
        )
    }
}

/// Moves `amount` minor units of `mint` from `from` to `to`, exactly as
/// [`transfer_spec`] says, or fails leaving every balance unchanged.
pub fn transfer_checked(
    accounts: &mut Table<TokenAccount>,
    mints: &Table<MintInfo>,
    from: &Address,
    to: &Address,
    mint: u64,
    decimals: u8,
    authority: &Authority,
    amount: u64,
) -> (r: Result<(), PasswordEscrowError>)
    requires
        old(accounts).wf(),
        mints.wf(),
    ensures
        final(accounts).wf(),
        r is Ok ==> transfer_spec(old(accounts)@, mints@, *from, *to, mint, decimals, *authority, amount)
            == Ok::<Map<Address, TokenAccount>, PasswordEscrowError>(final(accounts)@),
        r is Err ==> transfer_spec(old(accounts)@, mints@, *from, *to, mint, decimals, *authority, amount)
            == Err::<Map<Address, TokenAccount>, PasswordEscrowError>(r->Err_0)
            && final(accounts)@ == old(accounts)@,
{
    let from_acc = match accounts.get(from) {
        Some(a) => a,
        None => {
            return Err(PasswordEscrowError::AccountNotFound);
        },
    };
    let to_acc = match accounts.get(to) {
        Some(a) => a,
        None => {
            return Err(PasswordEscrowError::AccountNotFound);
        },
    };
    let mint_info = match mints.get(&Address::Key(mint)) {
        Some(m) => m,
        None => {
            return Err(PasswordEscrowError::AccountNotFound);
        },
    };
    if from_acc.mint != mint || to_acc.mint != mint || mint_info.decimals != decimals {
        return Err(PasswordEscrowError::MintMismatch);
    }
    if !check_authority(authority, &from_acc.owner) {
        return Err(PasswordEscrowError::AuthorizationMismatch);
    }
    if from_acc.balance < amount {
        return Err(PasswordEscrowError::InsufficientFunds);
    }
    if *from == *to {
        return Ok(());
    }
    if amount > u64::MAX - to_acc.balance {
        return Err(PasswordEscrowError::BalanceOverflow);
    }
    accounts.set(
        *from,
        TokenAccount { mint: from_acc.mint, owner: from_acc.owner, balance: from_acc.balance - amount },
    );
    accounts.set(
        *to,
        TokenAccount { mint: to_acc.mint, owner: to_acc.owner, balance: to_acc.balance + amount },
    );
    Ok(())
}

/// The token gateway's account closure as a transition on the token-account
/// map.  It fails if the account is missing, still holds a balance, or if
/// `authority` is not a valid signer for it; otherwise the account ceases to
/// exist.
pub open spec fn close_spec(
    accounts: Map<Address, TokenAccount>,
    account: Address,
    authority: Authority,
) -> Result<Map<Address, TokenAccount>, PasswordEscrowError> {
    if !accounts.dom().contains(account) {
        Err(PasswordEscrowError::AccountNotFound)
    } else if !authorizes(authority, accounts[account].owner) {
        Err(PasswordEscrowError::AuthorizationMismatch)
    } else if accounts[account].balance != 0 {
        Err(PasswordEscrowError::AccountNotEmpty)
    } else {
        Ok(accounts.remove(account))
    }
}

/// Closes the empty token account `account`, exactly as [`close_spec`] says.
/// Its storage deposit goes to `destination`; storage economics are the
/// hosting ledger's bookkeeping and are not tracked here.
#[allow(unused_variables)]
pub fn close_account(
    accounts: &mut Table<TokenAccount>,
    account: &Address,
    destination: &Address,
    authority: &Authority,
) -> (r: Result<(), PasswordEscrowError>)
    requires
        old(accounts).wf(),
    ensures
        final(accounts).wf(),
        r is Ok ==> close_spec(old(accounts)@, *account, *authority)
            == Ok::<Map<Address, TokenAccount>, PasswordEscrowError>(final(accounts)@),
        r is Err ==> close_spec(old(accounts)@, *account, *authority)
            == Err::<Map<Address, TokenAccount>, PasswordEscrowError>(r->Err_0)
            && final(accounts)@ == old(accounts)@,
{
    let acc = match accounts.get(account) {
        Some(a) => a,
        None => {
            return Err(PasswordEscrowError::AccountNotFound);
        },
    };
    if !check_authority(authority, &acc.owner) {
        return Err(PasswordEscrowError::AuthorizationMismatch);
    }
    if acc.balance != 0 {
        return Err(PasswordEscrowError::AccountNotEmpty);
    }
    accounts.remove(account);
    Ok(())
}

} // verus!
