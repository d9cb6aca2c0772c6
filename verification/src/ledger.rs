//! What the escrow sees of the ledger: identities, balance records, and the
//! operations that it asks the ledger to perform.

use crate::address::Address;
use vstd::prelude::*;

verus! {

/// An identity that takes part in an operation, together with the ledger's
/// verdict on whether it signed that operation.
#[derive(Clone, Copy, Debug, PartialEq, Eq)]
pub struct Identity {
    pub key: Address,
    pub is_signer: bool,
}

/// A balance record of the token ledger.
#[derive(Clone, Copy, Debug, PartialEq, Eq)]
pub struct TokenAccount {
    /// The handle of the record itself.
    pub key: Address,
    /// The asset that the balance is counted in.
    pub mint: Address,
    /// The authority that may move the balance.
    pub owner: Address,
    /// The balance.
    pub amount: u64,
}

/// One request to the ledger. Where `program_bump` is `Some`, the program
/// signs for `authority` with its seed and that bump; where it is `None`, the
/// authority has signed the operation itself.
#[derive(Clone, Copy, Debug, PartialEq, Eq)]
pub enum LedgerOp {
    /// Create the balance record `account` for the asset `mint`, owned by
    /// `owner`.
    CreateAccount { account: Address, mint: Address, owner: Address },
    /// Hand the ownership of `account` from `current_authority` to
    /// `new_authority`.
    SetAuthority { account: Address, current_authority: Address, new_authority: Address },
    /// Move `amount` from the balance of `from` to the balance of `to`.
    Transfer { from: Address, to: Address, authority: Address, amount: u64, program_bump: Option<u8> },
    /// Remove the emptied balance record `account`; what it held in storage
    /// fees goes to `destination`.
    CloseAccount { account: Address, destination: Address, authority: Address, program_bump: Option<u8> },
    /// Remove the escrow record; its storage deposit goes to `refund_to`.
    CloseRecord { refund_to: Address },
}

/// Who stands behind the requests of one operation: the identities that
/// signed it, and the address and bump with which the program signs.
pub struct Signatures {
    pub signers: Set<Address>,
    pub program_authority: Address,
    pub program_bump: u8,
}

impl Signatures {
    /// Whether `authority` stands behind a request: as the program's
    /// authority with the right bump where a bump is given, as a signer of
    /// the operation where none is.
    pub open spec fn cover(self, authority: Address, program_bump: Option<u8>) -> bool {
        match program_bump {
            Some(bump) => authority == self.program_authority && bump == self.program_bump,
            None => self.signers.contains(authority),
        }
    }
}

impl LedgerOp {
    /// The balance records after the ledger has carried the request out, or
    /// `None` where the ledger refuses it. This is the behaviour that the
    /// escrow relies on; the ledger itself is not part of this library.
    pub open spec fn apply(self, book: Map<Address, TokenAccount>, by: Signatures) -> Option<
        Map<Address, TokenAccount>,
    > {
        match self {
            LedgerOp::CreateAccount { account, mint, owner } => if book.dom().contains(account) {
                None
            } else {
                Some(book.insert(account, TokenAccount { key: account, mint, owner, amount: 0 }))
            },
            LedgerOp::SetAuthority { account, current_authority, new_authority } => if book.dom().contains(
                account,
            ) && book[account].owner == current_authority && by.cover(current_authority, None) {
                Some(book.insert(account, TokenAccount { owner: new_authority, ..book[account] }))
            } else {
                None
            },
            LedgerOp::Transfer { from, to, authority, amount, program_bump } => if book.dom().contains(
                from,
            ) && book.dom().contains(to) && book[from].mint == book[to].mint && book[from].owner
                == authority && by.cover(authority, program_bump) && book[from].amount >= amount {
                if from == to {
                    Some(book)
                } else if book[to].amount + amount > u64::MAX {
                    None
                } else {
                    Some(
                        book.insert(
                            from,
                            TokenAccount {
                                amount: (book[from].amount - amount) as u64,
                                ..book[from]
                            },
                        ).insert(
                            to,
                            TokenAccount { amount: (book[to].amount + amount) as u64, ..book[to] },
                        ),
                    )
                }
            } else {
                None
            },
            LedgerOp::CloseAccount { account, destination, authority, program_bump } => if book.dom().contains(
                account,
            ) && book[account].owner == authority && by.cover(authority, program_bump)
                && book[account].amount == 0 {
                Some(book.remove(account))
            } else {
                None
            },
            LedgerOp::CloseRecord { refund_to } => Some(book),
        }
    }
}

/// The balance records after the ledger has carried out `ops` from the one at
/// `next` on, in order, or `None` where it refuses one of them.
pub open spec fn apply_from(
    ops: Seq<LedgerOp>,
    next: int,
    book: Map<Address, TokenAccount>,
    by: Signatures,
) -> Option<Map<Address, TokenAccount>>
    decreases ops.len() - next,
{
    if next < 0 || next >= ops.len() {
        Some(book)
    } else {
        match ops[next].apply(book, by) {
            None => None,
            Some(then) => apply_from(ops, next + 1, then, by),
        }
    }
}

impl TokenAccount {
    /// Whether `identity` may move this balance: it owns the record and has
    /// signed.
    pub open spec fn spec_authorizes(self, identity: Identity) -> bool {
        identity.is_signer && self.owner == identity.key
    }

    /// Whether `identity` may move this balance.
    pub fn authorizes(&self, identity: &Identity) -> (r: bool)
        ensures
            r == self.spec_authorizes(*identity),
    {
        identity.is_signer && self.owner == identity.key
    }
}

} // verus!
