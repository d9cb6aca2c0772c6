//! Initialize: open an escrow, and move the deposit into a vault that only
//! the program can move.

use crate::address::Address;
use crate::authority::{escrow_pda_seed, program_address, VaultAuthority};
use crate::ledger::{Identity, LedgerOp, TokenAccount};
use crate::record::{EscrowAccount, EscrowError};
use vstd::prelude::*;

verus! {

/// The accounts that Initialize works on.
#[derive(Clone, Copy, Debug, PartialEq, Eq)]
pub struct InitializeEscrow {
    /// The slot of the new record: `None` while nothing is stored in it.
    pub escrow_account: Option<EscrowAccount>,
    /// The slot of the new vault: `None` while no balance record is there.
    pub vault_account: Option<TokenAccount>,
    /// The handle under which the vault is created.
    pub vault_key: Address,
    /// The asset that is deposited.
    pub mint: Address,
    /// Who opens the escrow; must have signed.
    pub initializer: Identity,
    /// Where the deposit comes from.
    pub initializer_deposit_token_account: TokenAccount,
    /// Where the initializer wants the taker's payment.
    pub initializer_receive_token_account: TokenAccount,
}

impl InitializeEscrow {
    /// The presented accounts fit together: both slots are empty, and the
    /// initializer has signed, owns the deposit account, and deposits the
    /// asset named.
    pub open spec fn linked(self) -> bool {
        &&& self.escrow_account is None
        &&& self.vault_account is None
        &&& self.initializer_deposit_token_account.spec_authorizes(self.initializer)
        &&& self.initializer_deposit_token_account.mint == self.mint
    }

    /// The verdict on a call: the balance is looked at first, the linkage
    /// after it.
    pub open spec fn check(self, initializer_amount: u64) -> Result<(), EscrowError> {
        if self.initializer_deposit_token_account.amount < initializer_amount {
            Err(EscrowError::InsufficientDeposit)
        } else if !self.linked() {
            Err(EscrowError::ConstraintViolation)
        } else {
            Ok(())
        }
    }

    /// The record that a successful call stores.
    pub open spec fn record(self, initializer_amount: u64, taker_amount: u64) -> EscrowAccount {
        EscrowAccount {
            initializer_key: self.initializer.key,
            initializer_deposit_token_account: self.initializer_deposit_token_account.key,
            initializer_receive_token_account: self.initializer_receive_token_account.key,
            initializer_amount,
            taker_amount,
        }
    }

    /// The vault that a successful call leaves: it holds the deposit, and the
    /// program's authority owns it.
    pub open spec fn vault(self, initializer_amount: u64, authority: Address) -> TokenAccount {
        TokenAccount {
            key: self.vault_key,
            mint: self.mint,
            owner: authority,
            amount: initializer_amount,
        }
    }

    /// The accounts after a successful call.
    pub open spec fn committed(
        self,
        initializer_amount: u64,
        taker_amount: u64,
        authority: Address,
    ) -> InitializeEscrow
        recommends
            self.check(initializer_amount) is Ok,
    {
        InitializeEscrow {
            escrow_account: Some(self.record(initializer_amount, taker_amount)),
            vault_account: Some(self.vault(initializer_amount, authority)),
            initializer_deposit_token_account: TokenAccount {
                amount: (self.initializer_deposit_token_account.amount - initializer_amount) as u64,
                ..self.initializer_deposit_token_account
            },
            ..self
        }
    }

    /// What a successful call asks of the ledger, in order: create the vault
    /// in the initializer's name, hand it to the program's authority, and
    /// move the deposit into it.
    pub open spec fn requests(self, initializer_amount: u64, authority: Address) -> Seq<LedgerOp> {
        seq![
            LedgerOp::CreateAccount {
                account: self.vault_key,
                mint: self.mint,
                owner: self.initializer.key,
            },
            LedgerOp::SetAuthority {
                account: self.vault_key,
                current_authority: self.initializer.key,
                new_authority: authority,
            },
            LedgerOp::Transfer {
                from: self.initializer_deposit_token_account.key,
                to: self.vault_key,
                authority: self.initializer.key,
                amount: initializer_amount,
                program_bump: None,
            },
        ]
    }

    /// Checks a call before anything is changed.
    pub fn validate(&self, initializer_amount: u64) -> (r: Result<(), EscrowError>)
        ensures
            r == self.check(initializer_amount),
    {
        if self.initializer_deposit_token_account.amount < initializer_amount {
            return Err(EscrowError::InsufficientDeposit);
        }
        let linked = self.escrow_account.is_none() && self.vault_account.is_none()
            && self.initializer_deposit_token_account.authorizes(&self.initializer)
            && self.initializer_deposit_token_account.mint == self.mint;
        if !linked {
            return Err(EscrowError::ConstraintViolation);
        }
        Ok(())
    }

    /// The request that creates the vault, owned at first by the initializer.
    pub fn into_create_vault_context(&self) -> (r: LedgerOp)
        ensures
            r == (LedgerOp::CreateAccount {
                account: self.vault_key,
                mint: self.mint,
                owner: self.initializer.key,
            }),
    {
        LedgerOp::CreateAccount {
            account: self.vault_key,
            mint: self.mint,
            owner: self.initializer.key,
        }
    }

    /// The request that hands the vault from the initializer to the
    /// program's authority.
    pub fn into_set_authority_context(&self, authority: &VaultAuthority) -> (r: LedgerOp)
        ensures
            r == (LedgerOp::SetAuthority {
                account: self.vault_key,
                current_authority: self.initializer.key,
                new_authority: authority.spec_address(),
            }),
    {
        LedgerOp::SetAuthority {
            account: self.vault_key,
            current_authority: self.initializer.key,
            new_authority: authority.address(),
        }
    }

    /// The request that moves `amount` from the deposit account into the
    /// vault, signed by the initializer.
    pub fn into_transfer_to_vault_context(&self, amount: u64) -> (r: LedgerOp)
        ensures
            r == (LedgerOp::Transfer {
                from: self.initializer_deposit_token_account.key,
                to: self.vault_key,
                authority: self.initializer.key,
                amount,
                program_bump: None,
            }),
    {
        LedgerOp::Transfer {
            from: self.initializer_deposit_token_account.key,
            to: self.vault_key,
            authority: self.initializer.key,
            amount,
            program_bump: None,
        }
    }
}

/// Opens an escrow of `initializer_amount` for `taker_amount`.
///
/// The call succeeds exactly where `check` says so. It then stores the
/// record, leaves the vault holding the deposit under the program's
/// authority, debits the deposit account, and returns what the ledger is to
/// be asked. The vault's owner is the address derived for the program that
/// `authority` belongs to. A refused call changes nothing.
pub fn initialize_escrow(
    accounts: &mut InitializeEscrow,
    authority: &VaultAuthority,
    initializer_amount: u64,
    taker_amount: u64,
) -> (r: Result<Vec<LedgerOp>, EscrowError>)
    ensures
        r is Ok <==> old(accounts).check(initializer_amount) is Ok,
        r matches Ok(ops) ==> *final(accounts) == old(accounts).committed(
            initializer_amount,
            taker_amount,
            authority.spec_address(),
        ) && ops@ == old(accounts).requests(initializer_amount, authority.spec_address()),
        r matches Err(e) ==> old(accounts).check(initializer_amount) == Err::<(), EscrowError>(e)
            && *final(accounts) == *old(accounts),
        r is Ok ==> (final(accounts).vault_account matches Some(vault) && program_address(
            escrow_pda_seed(),
            authority.spec_program_id()@,
        ) == Some((vault.owner@, authority.spec_bump()))),
{
    match accounts.validate(initializer_amount) {
        Err(e) => {
            return Err(e);
        },
        Ok(()) => {},
    }
    let mut ops: Vec<LedgerOp> = Vec::new();
    ops.push(accounts.into_create_vault_context());
    ops.push(accounts.into_set_authority_context(authority));
    ops.push(accounts.into_transfer_to_vault_context(initializer_amount));
    proof {
        assert(ops@ =~= old(accounts).requests(initializer_amount, authority.spec_address()));
    }
    let record = EscrowAccount {
        initializer_key: accounts.initializer.key,
        initializer_deposit_token_account: accounts.initializer_deposit_token_account.key,
        initializer_receive_token_account: accounts.initializer_receive_token_account.key,
        initializer_amount,
        taker_amount,
    };
    let vault = TokenAccount {
        key: accounts.vault_key,
        mint: accounts.mint,
        owner: authority.address(),
        amount: initializer_amount,
    };
    accounts.initializer_deposit_token_account.amount =
        accounts.initializer_deposit_token_account.amount - initializer_amount;
    accounts.vault_account = Some(vault);
    accounts.escrow_account = Some(record);
    Ok(ops)
}

} // verus!
