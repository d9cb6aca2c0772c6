use anchor_lang::prelude::Pubkey;
use escrow_programs::address::Address;
use escrow_programs::authority::VaultAuthority;
use escrow_programs::cancel::{cancel_escrow, CancelEscrow};
use escrow_programs::exchange::{exchange, Exchange};
use escrow_programs::initialize::{initialize_escrow, InitializeEscrow};
use escrow_programs::ledger::{Identity, LedgerOp, TokenAccount};
use escrow_programs::record::{EscrowAccount, EscrowError};
use std::str::FromStr;

fn addr(tag: u8) -> Address {
    Address::new([tag; 32])
}

fn program_id() -> Address {
    let id = Pubkey::from_str("2VdVJPpgQhdecDZsqVgJAeGUtrLiNjBGzgkjmowKqjmS").unwrap();
    Address::new(id.to_bytes())
}

fn authority() -> VaultAuthority {
    VaultAuthority::find(program_id()).unwrap()
}

const INITIALIZER: u8 = 1;
const TAKER: u8 = 2;
const MINT_X: u8 = 10;
const MINT_Y: u8 = 11;
const INIT_X: u8 = 20;
const INIT_Y: u8 = 21;
const TAKER_X: u8 = 22;
const TAKER_Y: u8 = 23;
const VAULT: u8 = 30;

fn token(key: u8, mint: u8, owner: u8, amount: u64) -> TokenAccount {
    TokenAccount { key: addr(key), mint: addr(mint), owner: addr(owner), amount }
}

fn opening(balance: u64) -> InitializeEscrow {
    InitializeEscrow {
        escrow_account: None,
        vault_account: None,
        vault_key: addr(VAULT),
        mint: addr(MINT_X),
        initializer: Identity { key: addr(INITIALIZER), is_signer: true },
        initializer_deposit_token_account: token(INIT_X, MINT_X, INITIALIZER, balance),
        initializer_receive_token_account: token(INIT_Y, MINT_Y, INITIALIZER, 7),
    }
}

fn opened(balance: u64, amount_x: u64, amount_y: u64) -> InitializeEscrow {
    let mut accounts = opening(balance);
    initialize_escrow(&mut accounts, &authority(), amount_x, amount_y).unwrap();
    accounts
}

fn cancelling(state: &InitializeEscrow) -> CancelEscrow {
    CancelEscrow {
        escrow_account: state.escrow_account,
        vault_account: state.vault_account,
        vault_authority: authority().address(),
        initializer: state.initializer,
        initializer_deposit_token_account: state.initializer_deposit_token_account,
    }
}

fn swapping(state: &InitializeEscrow, taker_balance: u64) -> Exchange {
    Exchange {
        escrow_account: state.escrow_account,
        vault_account: state.vault_account,
        vault_authority: authority().address(),
        taker_deposit_token_account: token(TAKER_Y, MINT_Y, TAKER, taker_balance),
        taker_receive_token_account: token(TAKER_X, MINT_X, TAKER, 3),
        initializer_deposit_token_account: state.initializer_deposit_token_account,
        initializer_receive_token_account: state.initializer_receive_token_account,
        initializer_main_account: state.initializer.key,
        taker: Identity { key: addr(TAKER), is_signer: true },
    }
}

#[test]
fn record_len_is_112_bytes() {
    assert_eq!(EscrowAccount::LEN, 112);
}

#[test]
fn address_equality_compares_every_byte() {
    let a = addr(5);
    let mut bytes = [5u8; 32];
    assert!(a == Address::new(bytes));
    bytes[31] = 6;
    assert!(a != Address::new(bytes));
    bytes[31] = 5;
    bytes[0] = 4;
    assert!(a != Address::new(bytes));
    assert_eq!(a.to_bytes(), [5u8; 32]);
}

#[test]
fn authority_is_the_derived_program_address() {
    let id = Pubkey::from_str("2VdVJPpgQhdecDZsqVgJAeGUtrLiNjBGzgkjmowKqjmS").unwrap();
    let (expected, bump) = Pubkey::find_program_address(&[&b"escrow"[..]], &id);
    let found = authority();
    assert_eq!(found.address().to_bytes(), expected.to_bytes());
    assert_eq!(found.bump(), bump);
    assert_eq!(found.program_id(), program_id());
    assert!(found.address() != program_id());
    let again = Pubkey::create_program_address(&[&b"escrow"[..], &[found.bump()]], &id).unwrap();
    assert_eq!(again.to_bytes(), found.address().to_bytes());
    assert!(!Pubkey::new_from_array(found.address().to_bytes()).is_on_curve());
}

#[test]
fn authority_depends_on_the_program() {
    let one = VaultAuthority::find(addr(1)).unwrap();
    let two = VaultAuthority::find(addr(2)).unwrap();
    assert!(one.address() != two.address());
    let one_again = VaultAuthority::find(addr(1)).unwrap();
    assert_eq!(one.address(), one_again.address());
    assert_eq!(one.bump(), one_again.bump());
}

#[test]
fn initialize_places_the_deposit_in_custody() {
    let before = opening(500);
    let mut accounts = before;
    let auth = authority();
    let ops = initialize_escrow(&mut accounts, &auth, 100, 50).unwrap();
    assert_eq!(
        accounts.vault_account,
        Some(TokenAccount {
            key: addr(VAULT),
            mint: addr(MINT_X),
            owner: auth.address(),
            amount: 100,
        })
    );
    assert_eq!(
        accounts.escrow_account,
        Some(EscrowAccount {
            initializer_key: addr(INITIALIZER),
            initializer_deposit_token_account: addr(INIT_X),
            initializer_receive_token_account: addr(INIT_Y),
            initializer_amount: 100,
            taker_amount: 50,
        })
    );
    assert_eq!(accounts.initializer_deposit_token_account.amount, 400);
    assert_eq!(accounts.initializer_receive_token_account, before.initializer_receive_token_account);
    assert_eq!(
        ops,
        vec![
            LedgerOp::CreateAccount {
                account: addr(VAULT),
                mint: addr(MINT_X),
                owner: addr(INITIALIZER),
            },
            LedgerOp::SetAuthority {
                account: addr(VAULT),
                current_authority: addr(INITIALIZER),
                new_authority: auth.address(),
            },
            LedgerOp::Transfer {
                from: addr(INIT_X),
                to: addr(VAULT),
                authority: addr(INITIALIZER),
                amount: 100,
                program_bump: None,
            },
        ]
    );
}

#[test]
fn initialize_with_the_whole_balance() {
    let mut accounts = opening(100);
    assert!(initialize_escrow(&mut accounts, &authority(), 100, 50).is_ok());
    assert_eq!(accounts.initializer_deposit_token_account.amount, 0);
    assert_eq!(accounts.vault_account.unwrap().amount, 100);
}

#[test]
fn initialize_of_nothing_is_accepted() {
    let mut accounts = opening(0);
    assert!(initialize_escrow(&mut accounts, &authority(), 0, 0).is_ok());
    assert_eq!(accounts.vault_account.unwrap().amount, 0);
}

#[test]
fn initialize_fails_on_insufficient_deposit() {
    let before = opening(99);
    let mut accounts = before;
    let r = initialize_escrow(&mut accounts, &authority(), 100, 50);
    assert_eq!(r, Err(EscrowError::InsufficientDeposit));
    assert_eq!(accounts, before);
    assert_eq!(before.validate(100), Err(EscrowError::InsufficientDeposit));
}

#[test]
fn initialize_reports_the_balance_before_the_linkage() {
    let mut accounts = opening(99);
    accounts.initializer.is_signer = false;
    let r = initialize_escrow(&mut accounts, &authority(), 100, 50);
    assert_eq!(r, Err(EscrowError::InsufficientDeposit));
}

#[test]
fn initialize_needs_signature_and_ownership() {
    let auth = authority();
    let mut unsigned = opening(500);
    unsigned.initializer.is_signer = false;
    let before = unsigned;
    assert_eq!(initialize_escrow(&mut unsigned, &auth, 100, 50), Err(EscrowError::ConstraintViolation));
    assert_eq!(unsigned, before);

    let mut foreign = opening(500);
    foreign.initializer_deposit_token_account.owner = addr(TAKER);
    assert_eq!(initialize_escrow(&mut foreign, &auth, 100, 50), Err(EscrowError::ConstraintViolation));

    let mut other_asset = opening(500);
    other_asset.initializer_deposit_token_account.mint = addr(MINT_Y);
    assert_eq!(
        initialize_escrow(&mut other_asset, &auth, 100, 50),
        Err(EscrowError::ConstraintViolation)
    );
}

#[test]
fn initialize_refuses_a_slot_in_use() {
    let auth = authority();
    let mut accounts = opened(500, 100, 50);
    let before = accounts;
    assert_eq!(initialize_escrow(&mut accounts, &auth, 100, 50), Err(EscrowError::ConstraintViolation));
    assert_eq!(accounts, before);

    let mut vault_taken = opening(500);
    vault_taken.vault_account = Some(token(VAULT, MINT_X, INITIALIZER, 0));
    assert_eq!(
        initialize_escrow(&mut vault_taken, &auth, 100, 50),
        Err(EscrowError::ConstraintViolation)
    );
}

#[test]
fn initialize_then_cancel_returns_the_deposit() {
    let state = opened(500, 100, 50);
    let auth = authority();
    let mut accounts = cancelling(&state);
    assert!(accounts.check_fits());
    let ops = cancel_escrow(&mut accounts, &auth).unwrap();
    assert_eq!(accounts.initializer_deposit_token_account.amount, 500);
    assert_eq!(accounts.initializer_deposit_token_account, token(INIT_X, MINT_X, INITIALIZER, 500));
    assert_eq!(accounts.escrow_account, None);
    assert_eq!(accounts.vault_account, None);
    // nothing of the other asset was asked to move
    assert_eq!(state.initializer_receive_token_account.amount, 7);
    assert_eq!(
        ops,
        vec![
            LedgerOp::Transfer {
                from: addr(VAULT),
                to: addr(INIT_X),
                authority: auth.address(),
                amount: 100,
                program_bump: Some(auth.bump()),
            },
            LedgerOp::CloseAccount {
                account: addr(VAULT),
                destination: addr(INITIALIZER),
                authority: auth.address(),
                program_bump: Some(auth.bump()),
            },
            LedgerOp::CloseRecord { refund_to: addr(INITIALIZER) },
        ]
    );
}

#[test]
fn cancel_twice_finds_nothing() {
    let state = opened(500, 100, 50);
    let auth = authority();
    let mut accounts = cancelling(&state);
    assert!(cancel_escrow(&mut accounts, &auth).is_ok());
    let after = accounts;
    assert_eq!(cancel_escrow(&mut accounts, &auth), Err(EscrowError::NotFound));
    assert_eq!(accounts, after);
    assert_eq!(accounts.initializer_deposit_token_account.amount, 500);
}

#[test]
fn cancel_by_another_identity_is_refused() {
    let state = opened(500, 100, 50);
    let auth = authority();
    let mut accounts = cancelling(&state);
    accounts.initializer = Identity { key: addr(TAKER), is_signer: true };
    let before = accounts;
    assert_eq!(cancel_escrow(&mut accounts, &auth), Err(EscrowError::ConstraintViolation));
    assert_eq!(accounts, before);
    assert_eq!(before.validate(&auth), Err(EscrowError::ConstraintViolation));
}

#[test]
fn cancel_checks_every_link() {
    let state = opened(500, 100, 50);
    let auth = authority();

    let mut unsigned = cancelling(&state);
    unsigned.initializer.is_signer = false;
    assert_eq!(cancel_escrow(&mut unsigned, &auth), Err(EscrowError::ConstraintViolation));

    let mut other_deposit = cancelling(&state);
    other_deposit.initializer_deposit_token_account.key = addr(TAKER_X);
    assert_eq!(cancel_escrow(&mut other_deposit, &auth), Err(EscrowError::ConstraintViolation));

    let mut wrong_authority = cancelling(&state);
    wrong_authority.vault_authority = addr(INITIALIZER);
    assert_eq!(cancel_escrow(&mut wrong_authority, &auth), Err(EscrowError::ConstraintViolation));

    let mut foreign_vault = cancelling(&state);
    foreign_vault.vault_account = Some(token(VAULT, MINT_X, INITIALIZER, 100));
    assert_eq!(cancel_escrow(&mut foreign_vault, &auth), Err(EscrowError::ConstraintViolation));

    let mut short_vault = cancelling(&state);
    short_vault.vault_account = Some(TokenAccount { amount: 99, ..state.vault_account.unwrap() });
    assert_eq!(cancel_escrow(&mut short_vault, &auth), Err(EscrowError::ConstraintViolation));

    let mut no_vault = cancelling(&state);
    no_vault.vault_account = None;
    assert_eq!(cancel_escrow(&mut no_vault, &auth), Err(EscrowError::ConstraintViolation));

    let mut fine = cancelling(&state);
    assert!(cancel_escrow(&mut fine, &auth).is_ok());
}

#[test]
fn cancel_fit_check_sees_an_overfull_account() {
    let state = opened(500, 100, 50);
    let mut accounts = cancelling(&state);
    accounts.initializer_deposit_token_account.amount = u64::MAX - 99;
    assert!(!accounts.check_fits());
    accounts.initializer_deposit_token_account.amount = u64::MAX - 100;
    assert!(accounts.check_fits());
    assert!(cancel_escrow(&mut accounts, &authority()).is_ok());
    assert_eq!(accounts.initializer_deposit_token_account.amount, u64::MAX);
}

#[test]
fn initialize_then_exchange_swaps_both_assets() {
    let state = opened(500, 100, 50);
    let auth = authority();
    let mut accounts = swapping(&state, 80);
    assert!(accounts.check_fits());
    let ops = exchange(&mut accounts, &auth).unwrap();
    // the initializer ends with +50 of the asked asset, the taker with +100 of the deposited one
    assert_eq!(accounts.initializer_receive_token_account.amount, 7 + 50);
    assert_eq!(accounts.taker_receive_token_account.amount, 3 + 100);
    // both deposit accounts are debited
    assert_eq!(accounts.taker_deposit_token_account.amount, 80 - 50);
    assert_eq!(accounts.initializer_deposit_token_account.amount, 500 - 100);
    assert_eq!(accounts.escrow_account, None);
    assert_eq!(accounts.vault_account, None);
    assert_eq!(
        ops,
        vec![
            LedgerOp::Transfer {
                from: addr(TAKER_Y),
                to: addr(INIT_Y),
                authority: addr(TAKER),
                amount: 50,
                program_bump: None,
            },
            LedgerOp::Transfer {
                from: addr(VAULT),
                to: addr(TAKER_X),
                authority: auth.address(),
                amount: 100,
                program_bump: Some(auth.bump()),
            },
            LedgerOp::CloseAccount {
                account: addr(VAULT),
                destination: addr(INITIALIZER),
                authority: auth.address(),
                program_bump: Some(auth.bump()),
            },
            LedgerOp::CloseRecord { refund_to: addr(INITIALIZER) },
        ]
    );
}

#[test]
fn exchange_with_exactly_the_price() {
    let state = opened(500, 100, 50);
    let mut accounts = swapping(&state, 50);
    assert!(exchange(&mut accounts, &authority()).is_ok());
    assert_eq!(accounts.taker_deposit_token_account.amount, 0);
}

#[test]
fn exchange_fails_one_short_of_the_price() {
    let state = opened(500, 100, 50);
    let mut accounts = swapping(&state, 49);
    let before = accounts;
    assert_eq!(exchange(&mut accounts, &authority()), Err(EscrowError::InsufficientDeposit));
    assert_eq!(accounts, before);
    assert_eq!(before.validate(&authority()), Err(EscrowError::InsufficientDeposit));
}

#[test]
fn exchange_twice_finds_nothing() {
    let state = opened(500, 100, 50);
    let auth = authority();
    let mut accounts = swapping(&state, 80);
    assert!(exchange(&mut accounts, &auth).is_ok());
    let after = accounts;
    assert_eq!(exchange(&mut accounts, &auth), Err(EscrowError::NotFound));
    assert_eq!(accounts, after);
}

#[test]
fn exchange_checks_every_link() {
    let state = opened(500, 100, 50);
    let auth = authority();

    let mut unsigned = swapping(&state, 80);
    unsigned.taker.is_signer = false;
    let before = unsigned;
    assert_eq!(exchange(&mut unsigned, &auth), Err(EscrowError::ConstraintViolation));
    assert_eq!(unsigned, before);

    let mut not_owner = swapping(&state, 80);
    not_owner.taker_deposit_token_account.owner = addr(INITIALIZER);
    assert_eq!(exchange(&mut not_owner, &auth), Err(EscrowError::ConstraintViolation));

    let mut redirected = swapping(&state, 80);
    redirected.initializer_receive_token_account.key = addr(TAKER_X);
    assert_eq!(exchange(&mut redirected, &auth), Err(EscrowError::ConstraintViolation));

    let mut other_deposit = swapping(&state, 80);
    other_deposit.initializer_deposit_token_account.key = addr(TAKER_X);
    assert_eq!(exchange(&mut other_deposit, &auth), Err(EscrowError::ConstraintViolation));

    let mut other_refund = swapping(&state, 80);
    other_refund.initializer_main_account = addr(TAKER);
    assert_eq!(exchange(&mut other_refund, &auth), Err(EscrowError::ConstraintViolation));

    let mut wrong_authority = swapping(&state, 80);
    wrong_authority.vault_authority = addr(TAKER);
    assert_eq!(exchange(&mut wrong_authority, &auth), Err(EscrowError::ConstraintViolation));

    let mut wrong_asset = swapping(&state, 80);
    wrong_asset.taker_deposit_token_account.mint = addr(MINT_X);
    assert_eq!(exchange(&mut wrong_asset, &auth), Err(EscrowError::ConstraintViolation));

    let mut wrong_receive = swapping(&state, 80);
    wrong_receive.taker_receive_token_account.mint = addr(MINT_Y);
    assert_eq!(exchange(&mut wrong_receive, &auth), Err(EscrowError::ConstraintViolation));

    let mut short_vault = swapping(&state, 80);
    short_vault.vault_account = Some(TokenAccount { amount: 101, ..state.vault_account.unwrap() });
    assert_eq!(exchange(&mut short_vault, &auth), Err(EscrowError::ConstraintViolation));
}

#[test]
fn exchange_fit_check_sees_an_overfull_account() {
    let state = opened(500, 100, 50);
    let mut accounts = swapping(&state, 80);
    accounts.initializer_receive_token_account.amount = u64::MAX - 49;
    assert!(!accounts.check_fits());
    accounts.initializer_receive_token_account.amount = u64::MAX - 50;
    assert!(accounts.check_fits());
    accounts.taker_receive_token_account.amount = u64::MAX - 99;
    assert!(!accounts.check_fits());
}

#[test]
fn cancel_after_exchange_finds_nothing() {
    let state = opened(500, 100, 50);
    let auth = authority();
    let mut swap = swapping(&state, 80);
    assert!(exchange(&mut swap, &auth).is_ok());
    let mut cancel = cancelling(&state);
    cancel.escrow_account = swap.escrow_account;
    cancel.vault_account = swap.vault_account;
    assert_eq!(cancel_escrow(&mut cancel, &auth), Err(EscrowError::NotFound));
    assert_eq!(cancel.initializer_deposit_token_account.amount, 400);
}

#[test]
fn exchange_after_cancel_finds_nothing() {
    let state = opened(500, 100, 50);
    let auth = authority();
    let mut cancel = cancelling(&state);
    assert!(cancel_escrow(&mut cancel, &auth).is_ok());
    let mut swap = swapping(&state, 80);
    swap.escrow_account = cancel.escrow_account;
    swap.vault_account = cancel.vault_account;
    let before = swap;
    assert_eq!(exchange(&mut swap, &auth), Err(EscrowError::NotFound));
    assert_eq!(swap, before);
}

#[test]
fn a_refused_cancel_leaves_the_exchange_open() {
    let state = opened(500, 100, 50);
    let auth = authority();
    let mut cancel = cancelling(&state);
    cancel.initializer = Identity { key: addr(TAKER), is_signer: true };
    assert!(cancel_escrow(&mut cancel, &auth).is_err());
    let mut swap = swapping(&state, 80);
    swap.escrow_account = cancel.escrow_account;
    swap.vault_account = cancel.vault_account;
    assert!(exchange(&mut swap, &auth).is_ok());
}

#[test]
fn request_builders_name_the_presented_accounts() {
    let state = opened(500, 100, 50);
    let auth = authority();
    let open = opening(500);
    assert_eq!(
        open.into_set_authority_context(&auth),
        LedgerOp::SetAuthority {
            account: addr(VAULT),
            current_authority: addr(INITIALIZER),
            new_authority: auth.address(),
        }
    );
    let swap = swapping(&state, 80);
    assert_eq!(
        swap.into_transfer_to_taker_context(&auth),
        LedgerOp::Transfer {
            from: addr(VAULT),
            to: addr(TAKER_X),
            authority: auth.address(),
            amount: 100,
            program_bump: Some(auth.bump()),
        }
    );
    assert_eq!(
        swap.into_transfer_to_initializer_context(),
        LedgerOp::Transfer {
            from: addr(TAKER_Y),
            to: addr(INIT_Y),
            authority: addr(TAKER),
            amount: 50,
            program_bump: None,
        }
    );
    let cancel = cancelling(&state);
    assert_eq!(cancel.into_close_record_context(), LedgerOp::CloseRecord { refund_to: addr(INITIALIZER) });
    assert!(state.initializer_deposit_token_account.authorizes(&state.initializer));
    assert!(!state.initializer_deposit_token_account.authorizes(&swap.taker));
}
