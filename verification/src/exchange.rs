//! Exchange: a taker pays what the initializer asked and receives the
//! deposit; the escrow ends.

use crate::address::Address;
use crate::authority::VaultAuthority;
use crate::ledger::{Identity, LedgerOp, TokenAccount};
use crate::record::{EscrowAccount, EscrowError};
use vstd::prelude::*;

verus! {

/// The accounts that Exchange works on.
#[derive(Clone, Copy, Debug, PartialEq, Eq)]
pub struct Exchange {
    /// The record: `None` where none exists.
    pub escrow_account: Option<EscrowAccount>,
    /// The vault: `None` where none exists.
    pub vault_account: Option<TokenAccount>,
    /// The address presented as the program's authority.
    pub vault_authority: Address,
    /// Where the taker pays from.
    pub taker_deposit_token_account: TokenAccount,
    /// Where the taker receives the deposit.
    pub taker_receive_token_account: TokenAccount,
    /// The account that the initializer's deposit came from.
    pub initializer_deposit_token_account: TokenAccount,
    /// Where the initializer receives the taker's payment.
    pub initializer_receive_token_account: TokenAccount,
    /// The identity that the record's storage deposit is refunded to.
    pub initializer_main_account: Address,
    /// Who completes the swap; must have signed.
    pub taker: Identity,
}

impl Exchange {
    /// The presented accounts are those of `record`: the initializer's
    /// accounts and identity are the recorded ones; the taker has signed and
    /// owns the account it pays from, which holds the asset of the account it
    /// pays into; and the vault holds the recorded amount of the asset of the
    /// taker's receiving account under the program's authority.
    pub open spec fn linked(self, record: EscrowAccount, authority: Address) -> bool {
        &&& record.initializer_deposit_token_account == self.initializer_deposit_token_account.key
        &&& record.initializer_receive_token_account == self.initializer_receive_token_account.key
        &&& record.initializer_key == self.initializer_main_account
        &&& self.taker_deposit_token_account.spec_authorizes(self.taker)
        &&& self.taker_deposit_token_account.mint == self.initializer_receive_token_account.mint
        &&& self.vault_authority == authority
        &&& self.vault_account matches Some(vault) && vault.owner == authority && vault.mint
            == self.taker_receive_token_account.mint && vault.amount == record.initializer_amount
    }

    /// The verdict on a call: first whether the record exists, then the
    /// taker's balance, then the linkage.
    pub open spec fn check(self, authority: Address) -> Result<(), EscrowError> {
        match self.escrow_account {
            None => Err(EscrowError::NotFound),
            Some(record) => if self.taker_deposit_token_account.amount < record.taker_amount {
                Err(EscrowError::InsufficientDeposit)
            } else if self.linked(record, authority) {
                Ok(())
            } else {
                Err(EscrowError::ConstraintViolation)
            },
        }
    }

    /// Both balances that grow fit the ledger's amounts.
    pub open spec fn fits(self) -> bool {
        &&& self.escrow_account matches Some(record)
            ==> self.initializer_receive_token_account.amount + record.taker_amount <= u64::MAX
        &&& self.vault_account matches Some(vault) ==> self.taker_receive_token_account.amount
            + vault.amount <= u64::MAX
    }

    /// The accounts after a successful call: the taker's payment has moved
    /// to the initializer, the vault's balance to the taker, and record and
    /// vault are gone.
    pub open spec fn committed(self) -> Exchange
        recommends
            self.escrow_account is Some,
            self.vault_account is Some,
    {
        let record = self.escrow_account.unwrap();
        let vault = self.vault_account.unwrap();
        Exchange {
            escrow_account: None,
            vault_account: None,
            taker_deposit_token_account: TokenAccount {
                amount: (self.taker_deposit_token_account.amount - record.taker_amount) as u64,
                ..self.taker_deposit_token_account
            },
            initializer_receive_token_account: TokenAccount {
                amount: (self.initializer_receive_token_account.amount + record.taker_amount) as u64,
                ..self.initializer_receive_token_account
            },
            taker_receive_token_account: TokenAccount {
                amount: (self.taker_receive_token_account.amount + vault.amount) as u64,
                ..self.taker_receive_token_account
            },
            ..self
        }
    }

    /// What a successful call asks of the ledger, in order: the taker's
    /// payment, signed by the taker; the release of the vault's balance to
    /// the taker, signed by the program; the closing of the vault; and the
    /// closing of the record with its storage deposit going to the
    /// initializer.
    pub open spec fn requests(self, authority: VaultAuthority) -> Seq<LedgerOp>
        recommends
            self.escrow_account is Some,
            self.vault_account is Some,
    {
        let record = self.escrow_account.unwrap();
        let vault = self.vault_account.unwrap();
        seq![
            LedgerOp::Transfer {
                from: self.taker_deposit_token_account.key,
                to: self.initializer_receive_token_account.key,
                authority: self.taker.key,
                amount: record.taker_amount,
                program_bump: None,
            },
            LedgerOp::Transfer {
                from: vault.key,
                to: self.taker_receive_token_account.key,
                authority: authority.spec_address(),
                amount: vault.amount,
                program_bump: Some(authority.spec_bump()),
            },
            LedgerOp::CloseAccount {
                account: vault.key,
                destination: self.initializer_main_account,
                authority: authority.spec_address(),
                program_bump: Some(authority.spec_bump()),
            },
            LedgerOp::CloseRecord { refund_to: self.initializer_main_account },
        ]
    }

    /// Whether both growing balances fit: see `fits`.
    pub fn check_fits(&self) -> (r: bool)
        ensures
            r == self.fits(),
    {
        let price_fits = match self.escrow_account {
            None => true,
            Some(record) => record.taker_amount <= u64::MAX
                - self.initializer_receive_token_account.amount,
        };
        let deposit_fits = match self.vault_account {
            None => true,
            Some(vault) => vault.amount <= u64::MAX - self.taker_receive_token_account.amount,
        };
        price_fits && deposit_fits
    }

    /// Checks a call before anything is changed.
    pub fn validate(&self, authority: &VaultAuthority) -> (r: Result<(), EscrowError>)
        ensures
            r == self.check(authority.spec_address()),
    {
        let record = match self.escrow_account {
            None => {
                return Err(EscrowError::NotFound);
            },
            Some(record) => record,
        };
        if self.taker_deposit_token_account.amount < record.taker_amount {
            return Err(EscrowError::InsufficientDeposit);
        }
        let pda = authority.address();
        let vault_linked = match self.vault_account {
            None => false,
            Some(vault) => vault.owner == pda && vault.mint
                == self.taker_receive_token_account.mint && vault.amount
                == record.initializer_amount,
        };
        let linked = record.initializer_deposit_token_account
            == self.initializer_deposit_token_account.key
            && record.initializer_receive_token_account
            == self.initializer_receive_token_account.key && record.initializer_key
            == self.initializer_main_account && self.taker_deposit_token_account.authorizes(
            &self.taker,
        ) && self.taker_deposit_token_account.mint == self.initializer_receive_token_account.mint
            && self.vault_authority == pda && vault_linked;
        if linked {
            Ok(())
        } else {
            Err(EscrowError::ConstraintViolation)
        }
    }

    /// The request that pays the initializer, signed by the taker.
    pub fn into_transfer_to_initializer_context(&self) -> (r: LedgerOp)
        requires
            self.escrow_account is Some,
        ensures
            r == (LedgerOp::Transfer {
                from: self.taker_deposit_token_account.key,
                to: self.initializer_receive_token_account.key,
                authority: self.taker.key,
                amount: self.escrow_account.unwrap().taker_amount,
                program_bump: None,
            }),
    {
        let record = self.escrow_account.unwrap();
        LedgerOp::Transfer {
            from: self.taker_deposit_token_account.key,
            to: self.initializer_receive_token_account.key,
            authority: self.taker.key,
            amount: record.taker_amount,
            program_bump: None,
        }
    }

    /// The request that releases the vault's balance to the taker, signed by
    /// the program.
    pub fn into_transfer_to_taker_context(&self, authority: &VaultAuthority) -> (r: LedgerOp)
        requires
            self.vault_account is Some,
        ensures
            r == (LedgerOp::Transfer {
                from: self.vault_account.unwrap().key,
                to: self.taker_receive_token_account.key,
                authority: authority.spec_address(),
                amount: self.vault_account.unwrap().amount,
                program_bump: Some(authority.spec_bump()),
            }),
    {
        let vault = self.vault_account.unwrap();
        LedgerOp::Transfer {
            from: vault.key,
            to: self.taker_receive_token_account.key,
            authority: authority.address(),
            amount: vault.amount,
            program_bump: Some(authority.bump()),
        }
    }

    /// The request that closes the emptied vault, signed by the program.
    pub fn into_close_vault_context(&self, authority: &VaultAuthority) -> (r: LedgerOp)
        requires
            self.vault_account is Some,
        ensures
            r == (LedgerOp::CloseAccount {
                account: self.vault_account.unwrap().key,
                destination: self.initializer_main_account,
                authority: authority.spec_address(),
                program_bump: Some(authority.spec_bump()),
            }),
    {
        let vault = self.vault_account.unwrap();
        LedgerOp::CloseAccount {
            account: vault.key,
            destination: self.initializer_main_account,
            authority: authority.address(),
            program_bump: Some(authority.bump()),
        }
    }

    /// The request that closes the record in the initializer's favour.
    pub fn into_close_record_context(&self) -> (r: LedgerOp)
        ensures
            r == (LedgerOp::CloseRecord { refund_to: self.initializer_main_account }),
    {
        LedgerOp::CloseRecord { refund_to: self.initializer_main_account }
    }
}

/// Completes the swap.
///
/// The call succeeds exactly where `check` says so. It then moves the
/// taker's payment to the initializer and the vault's whole balance to the
/// taker, removes vault and record, and returns what the ledger is to be
/// asked, the taker's payment first. A refused call changes nothing.
pub fn exchange(accounts: &mut Exchange, authority: &VaultAuthority) -> (r: Result<
    Vec<LedgerOp>,
    EscrowError,
>)
    requires
        old(accounts).check(authority.spec_address()) is Ok ==> old(accounts).fits(),
    ensures
        r is Ok <==> old(accounts).check(authority.spec_address()) is Ok,
        r matches Ok(ops) ==> *final(accounts) == old(accounts).committed() && ops@ == old(
            accounts,
        ).requests(*authority),
        r matches Err(e) ==> old(accounts).check(authority.spec_address()) == Err::<
            (),
            EscrowError,
        >(e) && *final(accounts) == *old(accounts),
{
    match accounts.validate(authority) {
        Err(e) => {
            return Err(e);
        },
        Ok(()) => {},
    }
    let record = accounts.escrow_account.unwrap();
    let vault = accounts.vault_account.unwrap();
    let mut ops: Vec<LedgerOp> = Vec::new();
    ops.push(accounts.into_transfer_to_initializer_context());
    ops.push(accounts.into_transfer_to_taker_context(authority));
    ops.push(accounts.into_close_vault_context(authority));
    ops.push(accounts.into_close_record_context());
    proof {
        assert(ops@ =~= old(accounts).requests(*authority));
    }
    accounts.taker_deposit_token_account.amount = accounts.taker_deposit_token_account.amount
        - record.taker_amount;
    accounts.initializer_receive_token_account.amount =
        accounts.initializer_receive_token_account.amount + record.taker_amount;
    accounts.taker_receive_token_account.amount = accounts.taker_receive_token_account.amount
        + vault.amount;
    accounts.vault_account = None;
    accounts.escrow_account = None;
    Ok(ops)
}

} // verus!
