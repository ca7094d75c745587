use password_escrow::addresses::{derive_address, verify_derivation, Address, Seeds, CANONICAL_NONCE};
use password_escrow::error::PasswordEscrowError;
use password_escrow::handlers::{
    deposit, initialize_config, update_config, withdraw, withdraw_fees, Deposit, InitializeConfig,
    UpdateConfig, Withdraw, WithdrawFees, MAX_FEE_BPS,
};
use password_escrow::state::World;

const PAYER: u64 = 1;
const AUTH_A: u64 = 10;
const AUTH_W: u64 = 11;
const AUTH_W2: u64 = 12;
const DEPOSITOR: u64 = 20;
const BENEFICIARY: u64 = 21;
const OTHER: u64 = 22;
const CONFIG: u64 = 30;
const MINT: u64 = 40;
const DECIMALS: u8 = 6;

fn funding_account() -> Address {
    Address::Key(100)
}

fn destination_account() -> Address {
    Address::Key(101)
}

fn escrow_address() -> Address {
    Address::EscrowPda { beneficiary: BENEFICIARY, config: CONFIG }
}

fn vault_address() -> Address {
    Address::VaultAta { beneficiary: BENEFICIARY, config: CONFIG, mint: MINT }
}

fn deposit_accounts() -> Deposit {
    Deposit {
        config: CONFIG,
        escrow: escrow_address(),
        depositor: DEPOSITOR,
        token_account: funding_account(),
        mint: MINT,
        vault: vault_address(),
    }
}

fn withdraw_accounts() -> Withdraw {
    Withdraw {
        config: CONFIG,
        escrow: escrow_address(),
        beneficiary: BENEFICIARY,
        vault: vault_address(),
        mint: MINT,
        destination: destination_account(),
    }
}

/// A world with one config (fee 250), one mint, a funded depositor account
/// and an empty destination account.
fn setup(funding_balance: u64) -> World {
    let mut w = World::new();
    let r = initialize_config(
        &mut w,
        InitializeConfig { payer: PAYER, config: CONFIG },
        AUTH_A,
        AUTH_W,
        250,
    );
    assert!(r.is_ok());
    assert!(w.add_mint(MINT, DECIMALS).is_ok());
    assert!(w
        .create_token_account(funding_account(), MINT, Address::Key(DEPOSITOR), funding_balance)
        .is_ok());
    assert!(w
        .create_token_account(destination_account(), MINT, Address::Key(BENEFICIARY), 0)
        .is_ok());
    w
}

#[test]
fn derivation_is_deterministic_and_checked() {
    let (addr, nonce) = derive_address(Seeds::Signer { config: CONFIG });
    assert_eq!(addr, Address::SignerPda { config: CONFIG });
    assert_eq!(nonce, CANONICAL_NONCE);
    let (again, nonce2) = derive_address(Seeds::Signer { config: CONFIG });
    assert_eq!(addr, again);
    assert_eq!(nonce, nonce2);
    assert!(verify_derivation(&addr, Seeds::Signer { config: CONFIG }, nonce));
    assert!(!verify_derivation(&addr, Seeds::Signer { config: CONFIG }, nonce.wrapping_sub(1)));
    assert!(!verify_derivation(&addr, Seeds::Signer { config: CONFIG + 1 }, nonce));
}

#[test]
fn initialize_config_stores_policy() {
    let w = setup(0);
    let cfg = w.config_at(CONFIG).expect("config must exist");
    assert_eq!(cfg.config_authority, AUTH_A);
    assert_eq!(cfg.withdraw_authority, AUTH_W);
    assert_eq!(cfg.fee_bps, 250);
    assert_eq!(cfg.signer, Address::SignerPda { config: CONFIG });
    assert_eq!(cfg.signer_bump, CANONICAL_NONCE);
}

#[test]
fn initialize_config_rejects_fee_above_range() {
    let mut w = World::new();
    let r = initialize_config(
        &mut w,
        InitializeConfig { payer: PAYER, config: CONFIG },
        AUTH_A,
        AUTH_W,
        MAX_FEE_BPS + 1,
    );
    assert_eq!(r, Err(PasswordEscrowError::InvalidFeeRate));
    assert_eq!(w.config_at(CONFIG), None);
    // The whole range up to 100% is accepted.
    let r = initialize_config(
        &mut w,
        InitializeConfig { payer: PAYER, config: CONFIG },
        AUTH_A,
        AUTH_W,
        MAX_FEE_BPS,
    );
    assert!(r.is_ok());
    assert_eq!(w.config_at(CONFIG).unwrap().fee_bps, MAX_FEE_BPS);
}

#[test]
fn initialize_config_rejects_duplicate() {
    let mut w = setup(0);
    let r = initialize_config(
        &mut w,
        InitializeConfig { payer: PAYER, config: CONFIG },
        OTHER,
        OTHER,
        0,
    );
    assert_eq!(r, Err(PasswordEscrowError::AccountAlreadyExists));
    // The stored policy is untouched.
    assert_eq!(w.config_at(CONFIG).unwrap().config_authority, AUTH_A);
}

#[test]
fn update_config_by_authority_updates_policy() {
    let mut w = setup(0);
    let r = update_config(
        &mut w,
        UpdateConfig { config: CONFIG, config_authority: AUTH_A },
        AUTH_A,
        AUTH_W2,
        500,
    );
    assert!(r.is_ok());
    let cfg = w.config_at(CONFIG).unwrap();
    assert_eq!(cfg.withdraw_authority, AUTH_W2);
    assert_eq!(cfg.fee_bps, 500);
    // The derived fee-custody authority and its nonce are immutable.
    assert_eq!(cfg.signer, Address::SignerPda { config: CONFIG });
    assert_eq!(cfg.signer_bump, CANONICAL_NONCE);
}

#[test]
fn update_config_rejects_wrong_signer() {
    let mut w = setup(0);
    let before = w.config_at(CONFIG);
    let r = update_config(
        &mut w,
        UpdateConfig { config: CONFIG, config_authority: OTHER },
        OTHER,
        OTHER,
        0,
    );
    assert_eq!(r, Err(PasswordEscrowError::AuthorizationMismatch));
    assert_eq!(w.config_at(CONFIG), before);
}

#[test]
fn update_config_rejects_missing_config() {
    let mut w = setup(0);
    let r = update_config(
        &mut w,
        UpdateConfig { config: CONFIG + 1, config_authority: AUTH_A },
        AUTH_A,
        AUTH_W,
        0,
    );
    assert_eq!(r, Err(PasswordEscrowError::AccountNotFound));
}

#[test]
fn update_config_rejects_fee_above_range() {
    let mut w = setup(0);
    let before = w.config_at(CONFIG);
    let r = update_config(
        &mut w,
        UpdateConfig { config: CONFIG, config_authority: AUTH_A },
        AUTH_A,
        AUTH_W,
        MAX_FEE_BPS + 1,
    );
    assert_eq!(r, Err(PasswordEscrowError::InvalidFeeRate));
    assert_eq!(w.config_at(CONFIG), before);
}

#[test]
fn withdraw_fees_changes_nothing() {
    let mut w = setup(750);
    assert!(deposit(&mut w, deposit_accounts(), 750, 3, BENEFICIARY).is_ok());
    let config_before = w.config_at(CONFIG);
    let funding_before = w.token_account_at(&funding_account());
    let vault_before = w.token_account_at(&vault_address());
    let escrow_before = w.escrow_at(&escrow_address());

    let r = withdraw_fees(&mut w, WithdrawFees { config: CONFIG, withdraw_authority: AUTH_W });
    assert!(r.is_ok());

    assert_eq!(w.config_at(CONFIG), config_before);
    assert_eq!(w.token_account_at(&funding_account()), funding_before);
    assert_eq!(w.token_account_at(&vault_address()), vault_before);
    assert_eq!(w.escrow_at(&escrow_address()), escrow_before);
}

#[test]
fn withdraw_fees_rejects_wrong_signer() {
    let mut w = setup(0);
    let r = withdraw_fees(&mut w, WithdrawFees { config: CONFIG, withdraw_authority: OTHER });
    assert_eq!(r, Err(PasswordEscrowError::AuthorizationMismatch));
    let r = withdraw_fees(&mut w, WithdrawFees { config: CONFIG + 1, withdraw_authority: AUTH_W });
    assert_eq!(r, Err(PasswordEscrowError::AccountNotFound));
}

#[test]
fn deposit_zero_amount_rejected() {
    let mut w = setup(1000);
    let r = deposit(&mut w, deposit_accounts(), 0, 0, BENEFICIARY);
    assert_eq!(r, Err(PasswordEscrowError::ZeroAmount));
    // No escrow or vault was created and the funding balance is untouched.
    assert_eq!(w.escrow_at(&escrow_address()), None);
    assert_eq!(w.token_account_at(&vault_address()), None);
    assert_eq!(w.token_account_at(&funding_account()).unwrap().balance, 1000);
}

#[test]
fn deposit_locks_amount_in_vault() {
    let mut w = setup(1500);
    let r = deposit(&mut w, deposit_accounts(), 1000, 77, BENEFICIARY);
    assert!(r.is_ok());

    let vault = w.token_account_at(&vault_address()).expect("vault must exist");
    assert_eq!(vault.balance, 1000);
    assert_eq!(vault.mint, MINT);
    // The vault's controlling authority is the derived escrow address.
    assert_eq!(vault.owner, escrow_address());
    assert_eq!(w.token_account_at(&funding_account()).unwrap().balance, 500);

    let escrow = w.escrow_at(&escrow_address()).expect("escrow must exist");
    assert_eq!(escrow.config, CONFIG);
    assert_eq!(escrow.depositor, DEPOSITOR);
    assert_eq!(escrow.beneficiary, BENEFICIARY);
    assert_eq!(escrow.salt, 77);
    assert_eq!(escrow.mint, MINT);
    assert_eq!(escrow.vault, vault_address());
    assert_eq!(escrow.escrow_bump, CANONICAL_NONCE);
}

#[test]
fn deposit_largest_amount_works() {
    let mut w = setup(u64::MAX);
    let r = deposit(&mut w, deposit_accounts(), u64::MAX, 0, BENEFICIARY);
    assert!(r.is_ok());
    assert_eq!(w.token_account_at(&vault_address()).unwrap().balance, u64::MAX);
    assert_eq!(w.token_account_at(&funding_account()).unwrap().balance, 0);
}

#[test]
fn second_deposit_for_same_pair_rejected() {
    let mut w = setup(1000);
    assert!(deposit(&mut w, deposit_accounts(), 400, 1, BENEFICIARY).is_ok());
    // A different salt and a different depositor do not help: the escrow
    // address is derived from the beneficiary and the config alone.
    let mut second = deposit_accounts();
    second.depositor = OTHER;
    let r = deposit(&mut w, second, 100, 2, BENEFICIARY);
    assert_eq!(r, Err(PasswordEscrowError::AccountAlreadyExists));
    // Nothing changed: the vault still holds the first amount.
    assert_eq!(w.token_account_at(&vault_address()).unwrap().balance, 400);
    assert_eq!(w.escrow_at(&escrow_address()).unwrap().salt, 1);
}

#[test]
fn deposit_rejects_wrong_derived_addresses() {
    let mut w = setup(1000);
    let mut wrong_escrow = deposit_accounts();
    wrong_escrow.escrow = Address::Key(999);
    assert_eq!(
        deposit(&mut w, wrong_escrow, 100, 0, BENEFICIARY),
        Err(PasswordEscrowError::AddressDerivationMismatch)
    );
    let mut wrong_vault = deposit_accounts();
    wrong_vault.vault = Address::Key(999);
    assert_eq!(
        deposit(&mut w, wrong_vault, 100, 0, BENEFICIARY),
        Err(PasswordEscrowError::AddressDerivationMismatch)
    );
    assert_eq!(w.escrow_at(&escrow_address()), None);
}

#[test]
fn deposit_rejects_insufficient_funds() {
    let mut w = setup(99);
    let r = deposit(&mut w, deposit_accounts(), 100, 0, BENEFICIARY);
    assert_eq!(r, Err(PasswordEscrowError::InsufficientFunds));
    assert_eq!(w.escrow_at(&escrow_address()), None);
    assert_eq!(w.token_account_at(&vault_address()), None);
    assert_eq!(w.token_account_at(&funding_account()).unwrap().balance, 99);
}

#[test]
fn deposit_rejects_foreign_mint_token_account() {
    let mut w = setup(1000);
    assert!(w.add_mint(MINT + 1, 0).is_ok());
    let mut accounts = deposit_accounts();
    accounts.mint = MINT + 1;
    accounts.vault = Address::VaultAta { beneficiary: BENEFICIARY, config: CONFIG, mint: MINT + 1 };
    // The funding account holds MINT, not MINT + 1.
    let r = deposit(&mut w, accounts, 100, 0, BENEFICIARY);
    assert_eq!(r, Err(PasswordEscrowError::MintMismatch));
}

#[test]
fn deposit_rejects_missing_records() {
    let mut w = setup(1000);
    let mut accounts = deposit_accounts();
    accounts.config = CONFIG + 1;
    accounts.escrow = Address::EscrowPda { beneficiary: BENEFICIARY, config: CONFIG + 1 };
    accounts.vault = Address::VaultAta { beneficiary: BENEFICIARY, config: CONFIG + 1, mint: MINT };
    assert_eq!(
        deposit(&mut w, accounts, 100, 0, BENEFICIARY),
        Err(PasswordEscrowError::AccountNotFound)
    );
    let mut accounts = deposit_accounts();
    accounts.mint = MINT + 9;
    accounts.vault = Address::VaultAta { beneficiary: BENEFICIARY, config: CONFIG, mint: MINT + 9 };
    assert_eq!(
        deposit(&mut w, accounts, 100, 0, BENEFICIARY),
        Err(PasswordEscrowError::AccountNotFound)
    );
}

#[test]
fn round_trip_delivers_exact_amount() {
    let mut w = setup(1000);
    assert!(deposit(&mut w, deposit_accounts(), 1000, 5, BENEFICIARY).is_ok());
    let r = withdraw(&mut w, withdraw_accounts());
    assert!(r.is_ok());
    // The destination received exactly the deposited amount.
    assert_eq!(w.token_account_at(&destination_account()).unwrap().balance, 1000);
    // Neither the escrow record nor the vault exists any more.
    assert_eq!(w.escrow_at(&escrow_address()), None);
    assert_eq!(w.token_account_at(&vault_address()), None);
}

#[test]
fn withdraw_rejects_wrong_signer() {
    let mut w = setup(1000);
    assert!(deposit(&mut w, deposit_accounts(), 600, 0, BENEFICIARY).is_ok());
    let escrow_before = w.escrow_at(&escrow_address());
    let vault_before = w.token_account_at(&vault_address());

    let mut claim = withdraw_accounts();
    claim.beneficiary = OTHER;
    let r = withdraw(&mut w, claim);
    assert_eq!(r, Err(PasswordEscrowError::AuthorizationMismatch));
    // The escrow and the vault remain exactly as before the call.
    assert_eq!(w.escrow_at(&escrow_address()), escrow_before);
    assert_eq!(w.token_account_at(&vault_address()), vault_before);
}

#[test]
fn withdraw_rejects_wrong_vault_or_config() {
    let mut w = setup(1000);
    assert!(deposit(&mut w, deposit_accounts(), 600, 0, BENEFICIARY).is_ok());
    let mut claim = withdraw_accounts();
    claim.vault = Address::Key(999);
    assert_eq!(withdraw(&mut w, claim), Err(PasswordEscrowError::AddressDerivationMismatch));
    assert!(w.escrow_at(&escrow_address()).is_some());
}

#[test]
fn withdraw_rejects_wrong_mint() {
    let mut w = setup(1000);
    assert!(deposit(&mut w, deposit_accounts(), 600, 0, BENEFICIARY).is_ok());
    let mut claim = withdraw_accounts();
    claim.mint = MINT + 1;
    assert_eq!(withdraw(&mut w, claim), Err(PasswordEscrowError::MintMismatch));
}

#[test]
fn withdraw_twice_rejected() {
    let mut w = setup(1000);
    assert!(deposit(&mut w, deposit_accounts(), 600, 0, BENEFICIARY).is_ok());
    assert!(withdraw(&mut w, withdraw_accounts()).is_ok());
    let r = withdraw(&mut w, withdraw_accounts());
    assert_eq!(r, Err(PasswordEscrowError::AccountNotFound));
}

#[test]
fn withdraw_into_vault_itself_rejected() {
    let mut w = setup(1000);
    assert!(deposit(&mut w, deposit_accounts(), 600, 0, BENEFICIARY).is_ok());
    let mut claim = withdraw_accounts();
    claim.destination = vault_address();
    let r = withdraw(&mut w, claim);
    assert_eq!(r, Err(PasswordEscrowError::AccountNotEmpty));
    // The call failed atomically: funds and records are all still there.
    assert_eq!(w.token_account_at(&vault_address()).unwrap().balance, 600);
    assert!(w.escrow_at(&escrow_address()).is_some());
}

#[test]
fn full_scenario() {
    let mut w = World::new();
    assert!(initialize_config(
        &mut w,
        InitializeConfig { payer: PAYER, config: CONFIG },
        AUTH_A,
        AUTH_W,
        250
    )
    .is_ok());
    assert_eq!(w.config_at(CONFIG).unwrap().fee_bps, 250);

    assert!(update_config(
        &mut w,
        UpdateConfig { config: CONFIG, config_authority: AUTH_A },
        AUTH_A,
        AUTH_W2,
        500
    )
    .is_ok());
    let cfg = w.config_at(CONFIG).unwrap();
    assert_eq!(cfg.withdraw_authority, AUTH_W2);
    assert_eq!(cfg.fee_bps, 500);

    assert!(w.add_mint(MINT, DECIMALS).is_ok());
    assert!(w
        .create_token_account(funding_account(), MINT, Address::Key(DEPOSITOR), 500000)
        .is_ok());
    assert!(w
        .create_token_account(destination_account(), MINT, Address::Key(BENEFICIARY), 0)
        .is_ok());

    assert!(deposit(&mut w, deposit_accounts(), 500000, 0, BENEFICIARY).is_ok());
    assert_eq!(w.token_account_at(&vault_address()).unwrap().balance, 500000);
    assert_eq!(w.escrow_at(&escrow_address()).unwrap().depositor, DEPOSITOR);

    assert!(withdraw(&mut w, withdraw_accounts()).is_ok());
    assert_eq!(w.token_account_at(&destination_account()).unwrap().balance, 500000);
    assert_eq!(w.escrow_at(&escrow_address()), None);
    assert_eq!(w.token_account_at(&vault_address()), None);
}

#[test]
fn self_escrow_round_trip() {
    // The depositor names themself as beneficiary and withdraws back into
    // the very account that funded the deposit.
    let mut w = World::new();
    assert!(initialize_config(
        &mut w,
        InitializeConfig { payer: PAYER, config: CONFIG },
        AUTH_A,
        AUTH_W,
        0
    )
    .is_ok());
    assert!(w.add_mint(MINT, DECIMALS).is_ok());
    assert!(w
        .create_token_account(funding_account(), MINT, Address::Key(DEPOSITOR), 300)
        .is_ok());

    let escrow = Address::EscrowPda { beneficiary: DEPOSITOR, config: CONFIG };
    let vault = Address::VaultAta { beneficiary: DEPOSITOR, config: CONFIG, mint: MINT };
    let mut accounts = deposit_accounts();
    accounts.escrow = escrow;
    accounts.vault = vault;
    assert!(deposit(&mut w, accounts, 300, 0, DEPOSITOR).is_ok());
    assert_eq!(w.token_account_at(&funding_account()).unwrap().balance, 0);

    let claim = Withdraw {
        config: CONFIG,
        escrow,
        beneficiary: DEPOSITOR,
        vault,
        mint: MINT,
        destination: funding_account(),
    };
    assert!(withdraw(&mut w, claim).is_ok());
    assert_eq!(w.token_account_at(&funding_account()).unwrap().balance, 300);
    assert_eq!(w.escrow_at(&escrow), None);
    assert_eq!(w.token_account_at(&vault), None);
}
