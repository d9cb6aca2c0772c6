//! The escrow record and the errors of the protocol.

use crate::address::Address;
use vstd::prelude::*;

verus! {

/// Why an operation was refused.
#[derive(Clone, Copy, Debug, PartialEq, Eq, Structural)]
pub enum EscrowError {
    /// A deposit account holds less than the amount that is to leave it.
    InsufficientDeposit,
    /// An account or identity presented by the caller does not match the
    /// record, or a required signature is missing.
    ConstraintViolation,
    /// The operation aims at a record that does not exist.
    NotFound,
}

/// The terms of one pending swap. All five fields are written once, when the
/// escrow is initialized.
#[derive(Clone, Copy, Debug, PartialEq, Eq)]
pub struct EscrowAccount {
    /// Who created the escrow, may cancel it, and receives the taker's asset.
    pub initializer_key: Address,
    /// The balance record that the deposit came from.
    pub initializer_deposit_token_account: Address,
    /// The balance record that receives the taker's payment.
    pub initializer_receive_token_account: Address,
    /// How much of the deposited asset is in custody.
    pub initializer_amount: u64,
    /// How much of the other asset the initializer asks for.
    pub taker_amount: u64,
}

impl EscrowAccount {
    /// The size of a stored record in bytes: three handles and two amounts.
    pub const LEN: usize = 32 + 32 + 32 + 8 + 8;
}

} // verus!
