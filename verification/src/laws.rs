//! What holds of each of the three operations, stated over their verdicts
//! (`check`), over the accounts that a successful call leaves (`committed`),
//! and over what it asks of the ledger (`requests`).

use crate::address::Address;
use crate::authority::VaultAuthority;
use crate::cancel::CancelEscrow;
use crate::exchange::Exchange;
use crate::initialize::InitializeEscrow;
use crate::ledger::{apply_from, Signatures, TokenAccount};
use crate::record::{EscrowAccount, EscrowError};
use vstd::prelude::*;

verus! {

/// After a successful Initialize the vault holds exactly the deposit, the
/// program's authority owns it, and the record holds the terms as they were
/// given.
pub proof fn lemma_initialize_establishes_custody(
    accounts: InitializeEscrow,
    initializer_amount: u64,
    taker_amount: u64,
    authority: Address,
)
    requires
        accounts.check(initializer_amount) is Ok,
    ensures
        accounts.committed(initializer_amount, taker_amount, authority).vault_account matches Some(
            vault,
        ) && vault.amount == initializer_amount && vault.owner == authority && vault.mint
            == accounts.mint,
        accounts.committed(initializer_amount, taker_amount, authority).escrow_account matches Some(
            record,
        ) && record.initializer_key == accounts.initializer.key
            && record.initializer_deposit_token_account
            == accounts.initializer_deposit_token_account.key
            && record.initializer_receive_token_account
            == accounts.initializer_receive_token_account.key && record.initializer_amount
            == initializer_amount && record.taker_amount == taker_amount,
        accounts.committed(
            initializer_amount,
            taker_amount,
            authority,
        ).initializer_deposit_token_account.amount + initializer_amount
            == accounts.initializer_deposit_token_account.amount,
{
}

/// Initialize with a deposit account that holds less than the amount to be
/// deposited is refused as an insufficient deposit, whatever else is
/// presented.
pub proof fn lemma_initialize_needs_the_deposit(accounts: InitializeEscrow, initializer_amount: u64)
    requires
        accounts.initializer_deposit_token_account.amount < initializer_amount,
    ensures
        accounts.check(initializer_amount) == Err::<(), EscrowError>(
            EscrowError::InsufficientDeposit,
        ),
{
}

/// Cancel by an identity other than the one that the record names is refused
/// as a constraint violation.
pub proof fn lemma_cancel_only_by_initializer(
    accounts: CancelEscrow,
    record: EscrowAccount,
    authority: Address,
)
    requires
        accounts.escrow_account == Some(record),
        accounts.initializer.key != record.initializer_key,
    ensures
        accounts.check(authority) == Err::<(), EscrowError>(EscrowError::ConstraintViolation),
{
}

/// Cancel without the initializer's signature is refused as a constraint
/// violation.
pub proof fn lemma_cancel_needs_signature(accounts: CancelEscrow, authority: Address)
    requires
        accounts.escrow_account is Some,
        !accounts.initializer.is_signer,
    ensures
        accounts.check(authority) == Err::<(), EscrowError>(EscrowError::ConstraintViolation),
{
}

/// A successful Cancel gives the deposit account exactly the recorded
/// amount, leaves neither vault nor record, and a second Cancel on what it
/// left finds no record.
pub proof fn lemma_cancel_returns_the_deposit(
    accounts: CancelEscrow,
    record: EscrowAccount,
    authority: Address,
)
    requires
        accounts.escrow_account == Some(record),
        accounts.check(authority) is Ok,
        accounts.fits(),
    ensures
        accounts.committed().initializer_deposit_token_account.amount
            == accounts.initializer_deposit_token_account.amount + record.initializer_amount,
        accounts.committed().vault_account is None,
        accounts.committed().escrow_account is None,
        accounts.committed().check(authority) == Err::<(), EscrowError>(EscrowError::NotFound),
{
}

/// A successful Exchange gives the taker the recorded deposit and the
/// initializer the recorded price, takes the price from the taker's deposit
/// account, leaves neither vault nor record, and a second Exchange on what it
/// left finds no record.
pub proof fn lemma_exchange_swaps(accounts: Exchange, record: EscrowAccount, authority: Address)
    requires
        accounts.escrow_account == Some(record),
        accounts.check(authority) is Ok,
        accounts.fits(),
    ensures
        accounts.committed().taker_receive_token_account.amount
            == accounts.taker_receive_token_account.amount + record.initializer_amount,
        accounts.committed().initializer_receive_token_account.amount
            == accounts.initializer_receive_token_account.amount + record.taker_amount,
        accounts.committed().taker_deposit_token_account.amount
            == accounts.taker_deposit_token_account.amount - record.taker_amount,
        accounts.committed().initializer_deposit_token_account
            == accounts.initializer_deposit_token_account,
        accounts.committed().vault_account is None,
        accounts.committed().escrow_account is None,
        accounts.committed().check(authority) == Err::<(), EscrowError>(EscrowError::NotFound),
{
}

/// Exchange with a taker who holds less than the recorded price is refused
/// as an insufficient deposit, whatever else is presented.
pub proof fn lemma_exchange_needs_the_price(
    accounts: Exchange,
    record: EscrowAccount,
    authority: Address,
)
    requires
        accounts.escrow_account == Some(record),
        accounts.taker_deposit_token_account.amount < record.taker_amount,
    ensures
        accounts.check(authority) == Err::<(), EscrowError>(EscrowError::InsufficientDeposit),
{
}

/// The accounts with which the initializer cancels what `opened` left: the
/// record, the vault and the deposit account as they stand, the same
/// identity, and the program's authority.
pub open spec fn cancel_of(opened: InitializeEscrow, authority: Address) -> CancelEscrow {
    CancelEscrow {
        escrow_account: opened.escrow_account,
        vault_account: opened.vault_account,
        vault_authority: authority,
        initializer: opened.initializer,
        initializer_deposit_token_account: opened.initializer_deposit_token_account,
    }
}

/// Initialize and then Cancel by the same initializer: the Cancel succeeds,
/// and the deposit account holds again what it held before the escrow was
/// opened.
pub proof fn lemma_initialize_then_cancel(
    accounts: InitializeEscrow,
    initializer_amount: u64,
    taker_amount: u64,
    authority: Address,
)
    requires
        accounts.check(initializer_amount) is Ok,
    ensures
        ({
            let opened = accounts.committed(initializer_amount, taker_amount, authority);
            let cancel = cancel_of(opened, authority);
            &&& cancel.check(authority) is Ok
            &&& cancel.fits()
            &&& cancel.committed().initializer_deposit_token_account
                == accounts.initializer_deposit_token_account
            &&& cancel.committed().escrow_account is None
            &&& cancel.committed().vault_account is None
        }),
{
}

/// Initialize and then Exchange by a taker who presents the initializer's
/// accounts as recorded, holds the price, and receives the deposited asset:
/// the Exchange succeeds, and each side ends with what the terms say.
pub proof fn lemma_initialize_then_exchange(
    accounts: InitializeEscrow,
    initializer_amount: u64,
    taker_amount: u64,
    authority: Address,
    swap: Exchange,
)
    requires
        accounts.check(initializer_amount) is Ok,
        swap.escrow_account == accounts.committed(
            initializer_amount,
            taker_amount,
            authority,
        ).escrow_account,
        swap.vault_account == accounts.committed(
            initializer_amount,
            taker_amount,
            authority,
        ).vault_account,
        swap.vault_authority == authority,
        swap.initializer_deposit_token_account.key
            == accounts.initializer_deposit_token_account.key,
        swap.initializer_receive_token_account.key
            == accounts.initializer_receive_token_account.key,
        swap.initializer_main_account == accounts.initializer.key,
        swap.taker_deposit_token_account.spec_authorizes(swap.taker),
        swap.taker_deposit_token_account.mint == swap.initializer_receive_token_account.mint,
        swap.taker_receive_token_account.mint == accounts.mint,
        swap.taker_deposit_token_account.amount >= taker_amount,
        swap.fits(),
    ensures
        swap.check(authority) is Ok,
        swap.committed().initializer_receive_token_account.amount
            == swap.initializer_receive_token_account.amount + taker_amount,
        swap.committed().taker_receive_token_account.amount
            == swap.taker_receive_token_account.amount + initializer_amount,
        swap.committed().taker_deposit_token_account.amount
            == swap.taker_deposit_token_account.amount - taker_amount,
        swap.committed().escrow_account is None,
        swap.committed().vault_account is None,
{
}

/// The signatures behind an operation that `signer` has signed and that the
/// program carries out under `authority`.
pub open spec fn signed(signer: Address, authority: VaultAuthority) -> Signatures {
    Signatures {
        signers: set![signer],
        program_authority: authority.spec_address(),
        program_bump: authority.spec_bump(),
    }
}

/// What a successful Initialize asks of the ledger brings about what it
/// leaves in the accounts: on a ledger that holds the deposit account and
/// nothing yet under the vault's handle, the requests are all accepted, and
/// afterwards the ledger holds the vault and the debited deposit account as
/// the operation left them, and everything else as before.
pub proof fn lemma_initialize_requests_realize(
    accounts: InitializeEscrow,
    initializer_amount: u64,
    taker_amount: u64,
    authority: VaultAuthority,
    book: Map<Address, TokenAccount>,
)
    requires
        accounts.check(initializer_amount) is Ok,
        book.dom().contains(accounts.initializer_deposit_token_account.key),
        book[accounts.initializer_deposit_token_account.key]
            == accounts.initializer_deposit_token_account,
        !book.dom().contains(accounts.vault_key),
    ensures
        ({
            let after = accounts.committed(
                initializer_amount,
                taker_amount,
                authority.spec_address(),
            );
            apply_from(
                accounts.requests(initializer_amount, authority.spec_address()),
                0,
                book,
                signed(accounts.initializer.key, authority),
            ) == Some(
                book.insert(accounts.vault_key, after.vault_account.unwrap()).insert(
                    accounts.initializer_deposit_token_account.key,
                    after.initializer_deposit_token_account,
                ),
            )
        }),
{
    let ops = accounts.requests(initializer_amount, authority.spec_address());
    let by = signed(accounts.initializer.key, authority);
    let after = accounts.committed(initializer_amount, taker_amount, authority.spec_address());
    let deposit = accounts.initializer_deposit_token_account;
    reveal_with_fuel(apply_from, 5);
    let b1 = ops[0].apply(book, by).unwrap();
    let b2 = ops[1].apply(b1, by).unwrap();
    let b3 = ops[2].apply(b2, by).unwrap();
    assert(b3 =~= book.insert(accounts.vault_key, after.vault_account.unwrap()).insert(
        deposit.key,
        after.initializer_deposit_token_account,
    ));
}

/// What a successful Cancel asks of the ledger brings about what it leaves
/// in the accounts: on a ledger that holds the vault and the deposit account
/// as presented, the requests are all accepted, and afterwards the vault is
/// gone and the deposit account holds what the operation left in it.
pub proof fn lemma_cancel_requests_realize(
    accounts: CancelEscrow,
    authority: VaultAuthority,
    book: Map<Address, TokenAccount>,
)
    requires
        accounts.check(authority.spec_address()) is Ok,
        accounts.fits(),
        accounts.vault_account matches Some(vault) && book.dom().contains(vault.key) && book[vault.key]
            == vault && vault.key != accounts.initializer_deposit_token_account.key,
        book.dom().contains(accounts.initializer_deposit_token_account.key),
        book[accounts.initializer_deposit_token_account.key]
            == accounts.initializer_deposit_token_account,
    ensures
        apply_from(
            accounts.requests(authority),
            0,
            book,
            signed(accounts.initializer.key, authority),
        ) == Some(
            book.remove(accounts.vault_account.unwrap().key).insert(
                accounts.initializer_deposit_token_account.key,
                accounts.committed().initializer_deposit_token_account,
            ),
        ),
{
    let ops = accounts.requests(authority);
    let by = signed(accounts.initializer.key, authority);
    reveal_with_fuel(apply_from, 5);
    let b1 = ops[0].apply(book, by).unwrap();
    let b2 = ops[1].apply(b1, by).unwrap();
    let b3 = ops[2].apply(b2, by).unwrap();
    assert(b3 =~= book.remove(accounts.vault_account.unwrap().key).insert(
        accounts.initializer_deposit_token_account.key,
        accounts.committed().initializer_deposit_token_account,
    ));
}

/// What a successful Exchange asks of the ledger brings about what it leaves
/// in the accounts: on a ledger that holds the four balance records as
/// presented, under four different handles, the requests are all accepted,
/// and afterwards the vault is gone and the other three hold what the
/// operation left in them.
pub proof fn lemma_exchange_requests_realize(
    accounts: Exchange,
    authority: VaultAuthority,
    book: Map<Address, TokenAccount>,
)
    requires
        accounts.check(authority.spec_address()) is Ok,
        accounts.fits(),
        accounts.vault_account matches Some(vault) && book.dom().contains(vault.key) && book[vault.key]
            == vault && vault.key != accounts.taker_deposit_token_account.key && vault.key
            != accounts.taker_receive_token_account.key && vault.key
            != accounts.initializer_receive_token_account.key,
        book.dom().contains(accounts.taker_deposit_token_account.key),
        book[accounts.taker_deposit_token_account.key] == accounts.taker_deposit_token_account,
        book.dom().contains(accounts.taker_receive_token_account.key),
        book[accounts.taker_receive_token_account.key] == accounts.taker_receive_token_account,
        book.dom().contains(accounts.initializer_receive_token_account.key),
        book[accounts.initializer_receive_token_account.key]
            == accounts.initializer_receive_token_account,
        accounts.taker_deposit_token_account.key != accounts.initializer_receive_token_account.key,
        accounts.taker_deposit_token_account.key != accounts.taker_receive_token_account.key,
        accounts.taker_receive_token_account.key != accounts.initializer_receive_token_account.key,
    ensures
        apply_from(accounts.requests(authority), 0, book, signed(accounts.taker.key, authority))
            == Some(
            book.remove(accounts.vault_account.unwrap().key).insert(
                accounts.taker_deposit_token_account.key,
                accounts.committed().taker_deposit_token_account,
            ).insert(
                accounts.initializer_receive_token_account.key,
                accounts.committed().initializer_receive_token_account,
            ).insert(
                accounts.taker_receive_token_account.key,
                accounts.committed().taker_receive_token_account,
            ),
        ),
{
    let ops = accounts.requests(authority);
    let by = signed(accounts.taker.key, authority);
    reveal_with_fuel(apply_from, 6);
    let b1 = ops[0].apply(book, by).unwrap();
    let b2 = ops[1].apply(b1, by).unwrap();
    let b3 = ops[2].apply(b2, by).unwrap();
    let b4 = ops[3].apply(b3, by).unwrap();
    assert(b4 =~= book.remove(accounts.vault_account.unwrap().key).insert(
        accounts.taker_deposit_token_account.key,
        accounts.committed().taker_deposit_token_account,
    ).insert(
        accounts.initializer_receive_token_account.key,
        accounts.committed().initializer_receive_token_account,
    ).insert(
        accounts.taker_receive_token_account.key,
        accounts.committed().taker_receive_token_account,
    ));
}

} // verus!
