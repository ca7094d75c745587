use vstd::prelude::*;

use crate::addresses::{address_of, authorizes, Address, Authority, Seeds, CANONICAL_NONCE};
use crate::error::PasswordEscrowError;
use crate::handlers::{
    deposit_spec, initialize_config_spec, update_config_spec, withdraw_fees_spec, withdraw_spec,
    Deposit, InitializeConfig, UpdateConfig, Withdraw, WithdrawFees, MAX_FEE_BPS,
};
use crate::state::WorldView;

verus! {

/// Only a call signed by the stored configuration authority may succeed at
/// `update_config`: whenever the transition succeeds, the signer was that
/// authority.
pub proof fn lemma_update_config_only_authority(
    w: WorldView,
    accounts: UpdateConfig,
    config_authority: u64,
    withdraw_authority: u64,
    fee_bps: u64,
)
    ensures
        update_config_spec(w, accounts, config_authority, withdraw_authority, fee_bps) is Ok
            ==> w.configs.dom().contains(Address::Key(accounts.config))
            && accounts.config_authority == w.configs[Address::Key(accounts.config)].config_authority,
{
}

/// A call at an existing config signed by anything but the stored
/// configuration authority fails with `AuthorizationMismatch`; the handler's
/// contract adds that a failed call leaves the world unchanged.
pub proof fn lemma_update_config_wrong_signer(
    w: WorldView,
    accounts: UpdateConfig,
    config_authority: u64,
    withdraw_authority: u64,
    fee_bps: u64,
)
    requires
        w.configs.dom().contains(Address::Key(accounts.config)),
        accounts.config_authority != w.configs[Address::Key(accounts.config)].config_authority,
    ensures
        update_config_spec(w, accounts, config_authority, withdraw_authority, fee_bps)
            == Err::<WorldView, PasswordEscrowError>(PasswordEscrowError::AuthorizationMismatch),
{
}

/// A second deposit for the same `(beneficiary, config)` pair, made before
/// any withdrawal and however it chooses depositor, salt, mint or amount,
/// fails with `AccountAlreadyExists`; the handler's contract adds that no
/// account is created by the failed call.
pub proof fn lemma_second_deposit_rejected(
    w: WorldView,
    first: Deposit,
    amount1: u64,
    salt1: u128,
    second: Deposit,
    amount2: u64,
    salt2: u128,
    beneficiary: u64,
)
    requires
        deposit_spec(w, first, amount1, salt1, beneficiary) is Ok,
        amount2 != 0,
        second.config == first.config,
        second.escrow == address_of(Seeds::Escrow { beneficiary, config: second.config }),
    ensures
        deposit_spec(
            deposit_spec(w, first, amount1, salt1, beneficiary)->Ok_0,
            second,
            amount2,
            salt2,
            beneficiary,
        ) == Err::<WorldView, PasswordEscrowError>(PasswordEscrowError::AccountAlreadyExists),
{
}

/// A deposit of zero fails with `ZeroAmount` in every world; the handler's
/// contract adds that no escrow or vault is created and that the depositor's
/// balance is untouched.
pub proof fn lemma_deposit_zero_amount(
    w: WorldView,
    accounts: Deposit,
    salt: u128,
    beneficiary: u64,
)
    ensures
        deposit_spec(w, accounts, 0, salt, beneficiary) == Err::<WorldView, PasswordEscrowError>(
            PasswordEscrowError::ZeroAmount,
        ),
{
}

/// A withdrawal naming the stored config and vault but signed by any address
/// other than the escrow's stored beneficiary fails with
/// `AuthorizationMismatch`; the handler's contract adds that the escrow and
/// the vault remain exactly as before the call.
pub proof fn lemma_withdraw_wrong_signer(w: WorldView, accounts: Withdraw)
    requires
        w.configs.dom().contains(Address::Key(accounts.config)),
        w.escrows.dom().contains(accounts.escrow),
        w.escrows[accounts.escrow].config == accounts.config,
        w.escrows[accounts.escrow].vault == accounts.vault,
        w.escrows[accounts.escrow].beneficiary != accounts.beneficiary,
    ensures
        withdraw_spec(w, accounts) == Err::<WorldView, PasswordEscrowError>(
            PasswordEscrowError::AuthorizationMismatch,
        ),
{
}

/// `withdraw_fees` causes no state change for any config: a successful call
/// returns the very world it was given.  (The handler's contract states the
/// same for failed calls, so the operation never changes anything: fee
/// sweeping is an unimplemented feature.)
pub proof fn lemma_withdraw_fees_no_change(w: WorldView, accounts: WithdrawFees)
    ensures
        withdraw_fees_spec(w, accounts) is Ok ==> withdraw_fees_spec(w, accounts)->Ok_0 == w,
{
}

/// A fee rate above [`MAX_FEE_BPS`] is rejected by `update_config` whenever
/// the caller is otherwise entitled to set it.
pub proof fn lemma_update_config_fee_range(
    w: WorldView,
    accounts: UpdateConfig,
    config_authority: u64,
    withdraw_authority: u64,
    fee_bps: u64,
)
    requires
        w.configs.dom().contains(Address::Key(accounts.config)),
        accounts.config_authority == w.configs[Address::Key(accounts.config)].config_authority,
        fee_bps > MAX_FEE_BPS,
    ensures
        update_config_spec(w, accounts, config_authority, withdraw_authority, fee_bps)
            == Err::<WorldView, PasswordEscrowError>(PasswordEscrowError::InvalidFeeRate),
{
}

/// The round trip: a successful deposit of `amount` for `beneficiary`,
/// followed by a withdrawal signed by that beneficiary naming a destination
/// account of the same mint, delivers exactly `amount` minor units to the
/// destination, and afterwards neither the escrow record nor the vault
/// exists.
pub proof fn lemma_deposit_withdraw_round_trip(
    w: WorldView,
    accounts: Deposit,
    amount: u64,
    salt: u128,
    beneficiary: u64,
    destination: Address,
)
    requires
        deposit_spec(w, accounts, amount, salt, beneficiary) is Ok,
        w.accounts.dom().contains(destination),
        w.accounts[destination].mint == accounts.mint,
        destination != accounts.vault,
        w.accounts[destination].balance + amount <= u64::MAX,
    ensures
        ({
            let w1 = deposit_spec(w, accounts, amount, salt, beneficiary)->Ok_0;
            let claim = Withdraw {
                config: accounts.config,
                escrow: accounts.escrow,
                beneficiary,
                vault: accounts.vault,
                mint: accounts.mint,
                destination,
            };
            &&& w1.accounts[accounts.vault].balance == amount
            &&& withdraw_spec(w1, claim) is Ok
            &&& withdraw_spec(w1, claim)->Ok_0.accounts[destination].balance == w1.accounts[destination].balance
                + amount
            &&& !withdraw_spec(w1, claim)->Ok_0.escrows.dom().contains(accounts.escrow)
            &&& !withdraw_spec(w1, claim)->Ok_0.accounts.dom().contains(accounts.vault)
        }),
{
    let vault_addr = Address::VaultAta {
        beneficiary,
        config: accounts.config,
        mint: accounts.mint,
    };
    // The funding transfer was authorized by the depositor's signature, so
    // its source cannot be the vault, whose owner is a derived address.
    assert(accounts.token_account != vault_addr);
    let w1 = deposit_spec(w, accounts, amount, salt, beneficiary)->Ok_0;
    assert(w1.accounts[vault_addr].balance == amount);
    assert(w1.accounts.dom().contains(destination));
    assert(w1.accounts[destination].mint == accounts.mint);
    assert(w1.accounts[destination].balance + amount <= u64::MAX);
}

/// No plain signature authorizes an action as a derived address: nobody
/// holds a private key for an address computed from seeds, so escrowed
/// custody can only move through the program's own signing path.
pub proof fn lemma_derived_addresses_unsignable(k: u64, seeds: Seeds)
    ensures
        !authorizes(Authority::Signature(k), address_of(seeds)),
{
}

/// The policy operations preserve world consistency: none of
/// `initialize_config`, `update_config` and `withdraw_fees` touches an
/// escrow record or a token account.
pub proof fn lemma_policy_ops_preserve_consistency(
    w: WorldView,
    init: InitializeConfig,
    upd: UpdateConfig,
    fees: WithdrawFees,
    config_authority: u64,
    withdraw_authority: u64,
    fee_bps: u64,
)
    requires
        w.consistent(),
    ensures
        initialize_config_spec(w, init, config_authority, withdraw_authority, fee_bps) is Ok
            ==> initialize_config_spec(
            w,
            init,
            config_authority,
            withdraw_authority,
            fee_bps,
        )->Ok_0.consistent(),
        update_config_spec(w, upd, config_authority, withdraw_authority, fee_bps) is Ok
            ==> update_config_spec(
            w,
            upd,
            config_authority,
            withdraw_authority,
            fee_bps,
        )->Ok_0.consistent(),
        withdraw_fees_spec(w, fees) is Ok ==> withdraw_fees_spec(w, fees)->Ok_0.consistent(),
{
}

/// A successful deposit preserves world consistency: the new escrow record
/// is created consistent, and no other escrow's vault is disturbed.
pub proof fn lemma_deposit_preserves_consistency(
    w: WorldView,
    accounts: Deposit,
    amount: u64,
    salt: u128,
    beneficiary: u64,
)
    requires
        w.consistent(),
        deposit_spec(w, accounts, amount, salt, beneficiary) is Ok,
    ensures
        deposit_spec(w, accounts, amount, salt, beneficiary)->Ok_0.consistent(),
{
    let w1 = deposit_spec(w, accounts, amount, salt, beneficiary)->Ok_0;
    let escrow_addr = address_of(Seeds::Escrow { beneficiary, config: accounts.config });
    let vault_addr = Address::VaultAta {
        beneficiary,
        config: accounts.config,
        mint: accounts.mint,
    };
    // The funding source is signature-held, so it is neither the fresh vault
    // nor any escrow's custody account.
    assert(accounts.token_account != vault_addr);
    assert forall|addr: Address| #[trigger] w1.escrows.dom().contains(addr) implies {
        let e = w1.escrows[addr];
        &&& addr == address_of(Seeds::Escrow { beneficiary: e.beneficiary, config: e.config })
        &&& e.escrow_bump == CANONICAL_NONCE
        &&& e.vault == (Address::VaultAta {
            beneficiary: e.beneficiary,
            config: e.config,
            mint: e.mint,
        })
        &&& w1.accounts.dom().contains(e.vault)
        &&& w1.accounts[e.vault].owner == addr
        &&& w1.accounts[e.vault].mint == e.mint
    } by {
        if addr != escrow_addr {
            let e = w.escrows[addr];
            assert(w.escrows.dom().contains(addr));
            // Another escrow's vault cannot be this deposit's fresh vault:
            // equal vault derivations would force equal escrow addresses.
            assert(e.vault != vault_addr);
        }
    }
}

/// A successful withdrawal preserves world consistency: the released
/// escrow and its vault go away together, and no other escrow's custody is
/// disturbed.
pub proof fn lemma_withdraw_preserves_consistency(w: WorldView, accounts: Withdraw)
    requires
        w.consistent(),
        withdraw_spec(w, accounts) is Ok,
    ensures
        withdraw_spec(w, accounts)->Ok_0.consistent(),
{
    let w1 = withdraw_spec(w, accounts)->Ok_0;
    let e0 = w.escrows[accounts.escrow];
    assert forall|addr: Address| #[trigger] w1.escrows.dom().contains(addr) implies {
        let e = w1.escrows[addr];
        &&& addr == address_of(Seeds::Escrow { beneficiary: e.beneficiary, config: e.config })
        &&& e.escrow_bump == CANONICAL_NONCE
        &&& e.vault == (Address::VaultAta {
            beneficiary: e.beneficiary,
            config: e.config,
            mint: e.mint,
        })
        &&& w1.accounts.dom().contains(e.vault)
        &&& w1.accounts[e.vault].owner == addr
        &&& w1.accounts[e.vault].mint == e.mint
    } by {
        let e = w.escrows[addr];
        assert(w.escrows.dom().contains(addr));
        assert(addr != accounts.escrow);
        // The closed vault belonged to the released escrow alone: equal
        // vault derivations would force equal escrow addresses.
        assert(e.vault != accounts.vault);
    }
}

} // verus!
