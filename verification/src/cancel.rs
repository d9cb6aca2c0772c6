//! Cancel: the initializer takes the deposit back and the escrow ends.

use crate::address::Address;
use crate::authority::VaultAuthority;
use crate::ledger::{Identity, LedgerOp, TokenAccount};
use crate::record::{EscrowAccount, EscrowError};
use vstd::prelude::*;

verus! {

/// The accounts that Cancel works on.
#[derive(Clone, Copy, Debug, PartialEq, Eq)]
pub struct CancelEscrow {
    /// The record: `None` where none exists.
    pub escrow_account: Option<EscrowAccount>,
    /// The vault: `None` where none exists.
    pub vault_account: Option<TokenAccount>,
    /// The address presented as the program's authority.
    pub vault_authority: Address,
    /// Who asks for the cancellation; must have signed.
    pub initializer: Identity,
    /// Where the deposit goes back to.
    pub initializer_deposit_token_account: TokenAccount,
}

impl CancelEscrow {
    /// The presented accounts are those of `record`: the caller is its
    /// initializer and has signed, the deposit account is the recorded one,
    /// and the vault holds the recorded amount of the deposit account's asset
    /// under the program's authority.
    pub open spec fn linked(self, record: EscrowAccount, authority: Address) -> bool {
        &&& self.initializer.is_signer
        &&& record.initializer_key == self.initializer.key
        &&& record.initializer_deposit_token_account == self.initializer_deposit_token_account.key
        &&& self.vault_authority == authority
        &&& self.vault_account matches Some(vault) && vault.owner == authority && vault.mint
            == self.initializer_deposit_token_account.mint && vault.amount
            == record.initializer_amount
    }

    /// The verdict on a call.
    pub open spec fn check(self, authority: Address) -> Result<(), EscrowError> {
        match self.escrow_account {
            None => Err(EscrowError::NotFound),
            Some(record) => if self.linked(record, authority) {
                Ok(())
            } else {
                Err(EscrowError::ConstraintViolation)
            },
        }
    }

    /// The balance of the deposit account, once the vault's balance is back
    /// in it, fits the ledger's amounts.
    pub open spec fn fits(self) -> bool {
        self.vault_account matches Some(vault) ==> self.initializer_deposit_token_account.amount
            + vault.amount <= u64::MAX
    }

    /// The accounts after a successful call: the vault's balance is back in
    /// the deposit account, and record and vault are gone.
    pub open spec fn committed(self) -> CancelEscrow
        recommends
            self.vault_account is Some,
    {
        CancelEscrow {
            escrow_account: None,
            vault_account: None,
            initializer_deposit_token_account: TokenAccount {
                amount: (self.initializer_deposit_token_account.amount
                    + self.vault_account.unwrap().amount) as u64,
                ..self.initializer_deposit_token_account
            },
            ..self
        }
    }

    /// What a successful call asks of the ledger, in order: return the
    /// vault's balance, close the vault, and close the record with its
    /// storage deposit going to the initializer.
    pub open spec fn requests(self, authority: VaultAuthority) -> Seq<LedgerOp>
        recommends
            self.vault_account is Some,
    {
        let vault = self.vault_account.unwrap();
        seq![
            LedgerOp::Transfer {
                from: vault.key,
                to: self.initializer_deposit_token_account.key,
                authority: authority.spec_address(),
                amount: vault.amount,
                program_bump: Some(authority.spec_bump()),
            },
            LedgerOp::CloseAccount {
                account: vault.key,
                destination: self.initializer.key,
                authority: authority.spec_address(),
                program_bump: Some(authority.spec_bump()),
            },
            LedgerOp::CloseRecord { refund_to: self.initializer.key },
        ]
    }

    /// Whether the returned balance fits: see `fits`.
    pub fn check_fits(&self) -> (r: bool)
        ensures
            r == self.fits(),
    {
        match self.vault_account {
            None => true,
            Some(vault) => vault.amount <= u64::MAX - self.initializer_deposit_token_account.amount,
        }
    }

    /// Checks a call before anything is changed.
    pub fn validate(&self, authority: &VaultAuthority) -> (r: Result<(), EscrowError>)
        ensures
            r == self.check(authority.spec_address()),
    {
        let record = match self.escrow_account {
            None => {
                return Err(EscrowError::NotFound);
            },
            Some(record) => record,
        };
        let pda = authority.address();
        let vault_linked = match self.vault_account {
            None => false,
            Some(vault) => vault.owner == pda && vault.mint
                == self.initializer_deposit_token_account.mint && vault.amount
                == record.initializer_amount,
        };
        let linked = self.initializer.is_signer && record.initializer_key == self.initializer.key
            && record.initializer_deposit_token_account
            == self.initializer_deposit_token_account.key && self.vault_authority == pda
            && vault_linked;
        if linked {
            Ok(())
        } else {
            Err(EscrowError::ConstraintViolation)
        }
    }

    /// The request that moves the vault's balance back to the deposit
    /// account, signed by the program.
    pub fn into_transfer_to_initializer_context(&self, authority: &VaultAuthority) -> (r: LedgerOp)
        requires
            self.vault_account is Some,
        ensures
            r == self.requests(*authority)[0],
    {
        let vault = self.vault_account.unwrap();
        LedgerOp::Transfer {
            from: vault.key,
            to: self.initializer_deposit_token_account.key,
            authority: authority.address(),
            amount: vault.amount,
            program_bump: Some(authority.bump()),
        }
    }

    /// The request that closes the emptied vault, signed by the program.
    pub fn into_close_vault_context(&self, authority: &VaultAuthority) -> (r: LedgerOp)
        requires
            self.vault_account is Some,
        ensures
            r == self.requests(*authority)[1],
    {
        let vault = self.vault_account.unwrap();
        LedgerOp::CloseAccount {
            account: vault.key,
            destination: self.initializer.key,
            authority: authority.address(),
            program_bump: Some(authority.bump()),
        }
    }

    /// The request that closes the record in the initializer's favour.
    pub fn into_close_record_context(&self) -> (r: LedgerOp)
        ensures
            r == (LedgerOp::CloseRecord { refund_to: self.initializer.key }),
    {
        LedgerOp::CloseRecord { refund_to: self.initializer.key }
    }
}

/// Ends an escrow in the initializer's favour.
///
/// The call succeeds exactly where `check` says so. It then returns the
/// vault's whole balance to the deposit account, removes vault and record,
/// and returns what the ledger is to be asked. A refused call changes
/// nothing.
pub fn cancel_escrow(accounts: &mut CancelEscrow, authority: &VaultAuthority) -> (r: Result<
    Vec<LedgerOp>,
    EscrowError,
>)
    requires
        old(accounts).check(authority.spec_address()) is Ok ==> old(accounts).fits(),
    ensures
        r is Ok <==> old(accounts).check(authority.spec_address()) is Ok,
        r matches Ok(ops) ==> *final(accounts) == old(accounts).committed() && ops@ == old(
            accounts,
        ).requests(*authority),
        r matches Err(e) ==> old(accounts).check(authority.spec_address()) == Err::<
            (),
            EscrowError,
        >(e) && *final(accounts) == *old(accounts),
{
    match accounts.validate(authority) {
        Err(e) => {
            return Err(e);
        },
        Ok(()) => {},
    }
    let vault = accounts.vault_account.unwrap();
    let mut ops: Vec<LedgerOp> = Vec::new();
    ops.push(accounts.into_transfer_to_initializer_context(authority));
    ops.push(accounts.into_close_vault_context(authority));
    ops.push(accounts.into_close_record_context());
    proof {
        assert(ops@ =~= old(accounts).requests(*authority));
    }
    accounts.initializer_deposit_token_account.amount =
        accounts.initializer_deposit_token_account.amount + vault.amount;
    accounts.vault_account = None;
    accounts.escrow_account = None;
    Ok(ops)
}

} // verus!
