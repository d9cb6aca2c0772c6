//! The life of one escrow: absent, then active from a successful Initialize
//! until the first successful Cancel or Exchange, then absent again. The laws
//! here speak of whole sequences of calls.

use crate::address::Address;
use crate::cancel::CancelEscrow;
use crate::exchange::Exchange;
use crate::initialize::InitializeEscrow;
use crate::ledger::TokenAccount;
use crate::record::{EscrowAccount, EscrowError};
use vstd::prelude::*;

verus! {

/// The two slots that every operation on one escrow shares: its record and
/// its vault.
pub struct Slots {
    pub escrow_account: Option<EscrowAccount>,
    pub vault_account: Option<TokenAccount>,
}

impl Slots {
    /// Record and vault exist together, and while they do the vault holds
    /// exactly the recorded deposit under the program's authority.
    pub open spec fn in_custody(self, authority: Address) -> bool {
        match (self.escrow_account, self.vault_account) {
            (None, None) => true,
            (Some(record), Some(vault)) => vault.amount == record.initializer_amount && vault.owner
                == authority,
            _ => false,
        }
    }

    /// 1 while a record exists, 0 while none does.
    pub open spec fn active(self) -> nat {
        if self.escrow_account is Some {
            1
        } else {
            0
        }
    }
}

/// One call of an operation, with the accounts that the caller presents
/// beside the escrow's own two slots.
pub enum Call {
    Initialize { accounts: InitializeEscrow, initializer_amount: u64, taker_amount: u64 },
    Cancel { accounts: CancelEscrow },
    Exchange { accounts: Exchange },
}

impl Call {
    /// Whether the call is one of the two that end an escrow.
    pub open spec fn is_terminal(self) -> bool {
        !(self is Initialize)
    }

    /// The verdict on the call where the escrow's slots stand as `slots`.
    pub open spec fn check(self, slots: Slots, authority: Address) -> Result<(), EscrowError> {
        match self {
            Call::Initialize { accounts, initializer_amount, taker_amount } => (InitializeEscrow {
                escrow_account: slots.escrow_account,
                vault_account: slots.vault_account,
                ..accounts
            }).check(initializer_amount),
            Call::Cancel { accounts } => (CancelEscrow {
                escrow_account: slots.escrow_account,
                vault_account: slots.vault_account,
                ..accounts
            }).check(authority),
            Call::Exchange { accounts } => (Exchange {
                escrow_account: slots.escrow_account,
                vault_account: slots.vault_account,
                ..accounts
            }).check(authority),
        }
    }

    /// The slots after the call: as the operation leaves them where it
    /// succeeds, as they were where it is refused.
    pub open spec fn after(self, slots: Slots, authority: Address) -> Slots {
        if self.check(slots, authority) is Err {
            slots
        } else {
            match self {
                Call::Initialize { accounts, initializer_amount, taker_amount } => {
                    let left = (InitializeEscrow {
                        escrow_account: slots.escrow_account,
                        vault_account: slots.vault_account,
                        ..accounts
                    }).committed(initializer_amount, taker_amount, authority);
                    Slots { escrow_account: left.escrow_account, vault_account: left.vault_account }
                },
                Call::Cancel { accounts } => {
                    let left = (CancelEscrow {
                        escrow_account: slots.escrow_account,
                        vault_account: slots.vault_account,
                        ..accounts
                    }).committed();
                    Slots { escrow_account: left.escrow_account, vault_account: left.vault_account }
                },
                Call::Exchange { accounts } => {
                    let left = (Exchange {
                        escrow_account: slots.escrow_account,
                        vault_account: slots.vault_account,
                        ..accounts
                    }).committed();
                    Slots { escrow_account: left.escrow_account, vault_account: left.vault_account }
                },
            }
        }
    }
}

/// The slots after `calls`, made one after the other.
pub open spec fn run(slots: Slots, calls: Seq<Call>, authority: Address) -> Slots
    decreases calls.len(),
{
    if calls.len() == 0 {
        slots
    } else {
        run(calls[0].after(slots, authority), calls.subrange(1, calls.len() as int), authority)
    }
}

/// How many Initialize calls among `calls`, made one after the other,
/// succeed.
pub open spec fn opened(slots: Slots, calls: Seq<Call>, authority: Address) -> nat
    decreases calls.len(),
{
    if calls.len() == 0 {
        0
    } else {
        let first: nat = if !calls[0].is_terminal() && calls[0].check(slots, authority) is Ok {
            1
        } else {
            0
        };
        first + opened(
            calls[0].after(slots, authority),
            calls.subrange(1, calls.len() as int),
            authority,
        )
    }
}

/// How many Cancel and Exchange calls among `calls`, made one after the
/// other, succeed.
pub open spec fn ended(slots: Slots, calls: Seq<Call>, authority: Address) -> nat
    decreases calls.len(),
{
    if calls.len() == 0 {
        0
    } else {
        let first: nat = if calls[0].is_terminal() && calls[0].check(slots, authority) is Ok {
            1
        } else {
            0
        };
        first + ended(
            calls[0].after(slots, authority),
            calls.subrange(1, calls.len() as int),
            authority,
        )
    }
}

/// Every call keeps custody: a refused call changes neither slot, a
/// successful Initialize fills both, a successful Cancel or Exchange empties
/// both.
pub proof fn lemma_call_keeps_custody(slots: Slots, call: Call, authority: Address)
    requires
        slots.in_custody(authority),
    ensures
        call.after(slots, authority).in_custody(authority),
        call.check(slots, authority) is Err ==> call.after(slots, authority) == slots,
        call.check(slots, authority) is Ok && call.is_terminal() ==> slots.active() == 1
            && call.after(slots, authority).active() == 0,
        call.check(slots, authority) is Ok && !call.is_terminal() ==> slots.active() == 0
            && call.after(slots, authority).active() == 1,
{
}

/// Custody holds at every state that a sequence of calls reaches from a
/// state in custody.
pub proof fn lemma_custody_always(slots: Slots, calls: Seq<Call>, authority: Address)
    requires
        slots.in_custody(authority),
    ensures
        run(slots, calls, authority).in_custody(authority),
    decreases calls.len(),
{
    if calls.len() > 0 {
        lemma_call_keeps_custody(slots, calls[0], authority);
        lemma_custody_always(
            calls[0].after(slots, authority),
            calls.subrange(1, calls.len() as int),
            authority,
        );
    }
}

/// While an escrow is in custody its initializer can cancel it: a Cancel
/// that the recorded identity has signed, with the recorded deposit account
/// of the vault's asset and the program's authority, is accepted.
pub proof fn lemma_initializer_can_cancel(
    slots: Slots,
    accounts: CancelEscrow,
    record: EscrowAccount,
    vault: TokenAccount,
    authority: Address,
)
    requires
        slots.in_custody(authority),
        slots.escrow_account == Some(record),
        slots.vault_account == Some(vault),
        accounts.initializer.is_signer,
        accounts.initializer.key == record.initializer_key,
        accounts.initializer_deposit_token_account.key == record.initializer_deposit_token_account,
        accounts.initializer_deposit_token_account.mint == vault.mint,
        accounts.vault_authority == authority,
    ensures
        (Call::Cancel { accounts }).check(slots, authority) is Ok,
{
}

/// In any sequence of calls, each escrow is ended at most once, and only an
/// escrow that was opened is ended: the successful Cancel and Exchange calls,
/// plus one where an escrow is active at the end, are as many as the
/// successful Initialize calls, plus one where an escrow was active at the
/// start.
pub proof fn lemma_each_escrow_ends_once(slots: Slots, calls: Seq<Call>, authority: Address)
    ensures
        ended(slots, calls, authority) + run(slots, calls, authority).active() == opened(
            slots,
            calls,
            authority,
        ) + slots.active(),
    decreases calls.len(),
{
    if calls.len() > 0 {
        lemma_each_escrow_ends_once(
            calls[0].after(slots, authority),
            calls.subrange(1, calls.len() as int),
            authority,
        );
    }
}

/// Once the record is gone, every Cancel and every Exchange is refused
/// because nothing is found, until an Initialize succeeds.
pub proof fn lemma_nothing_after_the_end(slots: Slots, calls: Seq<Call>, authority: Address)
    requires
        slots.escrow_account is None,
        forall|i: int| 0 <= i < calls.len() ==> (#[trigger] calls[i]).is_terminal(),
    ensures
        ended(slots, calls, authority) == 0,
        run(slots, calls, authority) == slots,
        forall|i: int|
            0 <= i < calls.len() ==> (#[trigger] calls[i]).check(slots, authority) == Err::<
                (),
                EscrowError,
            >(EscrowError::NotFound),
    decreases calls.len(),
{
    if calls.len() > 0 {
        let rest = calls.subrange(1, calls.len() as int);
        assert(calls[0].is_terminal());
        assert forall|i: int| 0 <= i < rest.len() implies (#[trigger] rest[i]).is_terminal() by {
            assert(rest[i] == calls[i + 1]);
        }
        lemma_nothing_after_the_end(calls[0].after(slots, authority), rest, authority);
    }
}

/// Of any sequence of Cancel and Exchange calls on one escrow at most one
/// succeeds: never a Cancel and an Exchange both, nor one of them twice.
pub proof fn lemma_at_most_one_terminal(slots: Slots, calls: Seq<Call>, authority: Address)
    requires
        forall|i: int| 0 <= i < calls.len() ==> (#[trigger] calls[i]).is_terminal(),
    ensures
        ended(slots, calls, authority) <= 1,
    decreases calls.len(),
{
    if calls.len() > 0 {
        let rest = calls.subrange(1, calls.len() as int);
        assert(calls[0].is_terminal());
        assert forall|i: int| 0 <= i < rest.len() implies (#[trigger] rest[i]).is_terminal() by {
            assert(rest[i] == calls[i + 1]);
        }
        if calls[0].check(slots, authority) is Ok {
            lemma_nothing_after_the_end(calls[0].after(slots, authority), rest, authority);
        } else {
            lemma_at_most_one_terminal(calls[0].after(slots, authority), rest, authority);
        }
    }
}

/// Where one call of a sequence of Cancel and Exchange calls meets its
/// preconditions on the escrow as it stands at the start, exactly one call of
/// the sequence succeeds.
pub proof fn lemma_exactly_one_terminal(
    slots: Slots,
    calls: Seq<Call>,
    authority: Address,
    valid: int,
)
    requires
        forall|i: int| 0 <= i < calls.len() ==> (#[trigger] calls[i]).is_terminal(),
        0 <= valid < calls.len(),
        calls[valid].check(slots, authority) is Ok,
    ensures
        ended(slots, calls, authority) == 1,
    decreases calls.len(),
{
    let rest = calls.subrange(1, calls.len() as int);
    assert(calls[0].is_terminal());
    assert forall|i: int| 0 <= i < rest.len() implies (#[trigger] rest[i]).is_terminal() by {
        assert(rest[i] == calls[i + 1]);
    }
    if calls[0].check(slots, authority) is Ok {
        lemma_nothing_after_the_end(calls[0].after(slots, authority), rest, authority);
    } else {
        assert(valid > 0);
        assert(rest[valid - 1] == calls[valid]);
        lemma_exactly_one_terminal(calls[0].after(slots, authority), rest, authority, valid - 1);
    }
}

} // verus!
