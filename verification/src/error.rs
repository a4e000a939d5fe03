//! Why an instruction was refused. A refused instruction changes nothing.

use vstd::prelude::*;

verus! {

/// The reasons for which an instruction is refused.
#[derive(Clone, Copy, Debug, PartialEq, Eq)]
pub enum EscrowError {
    /// An amount is zero, or cannot be issued.
    InvalidAmount,
    /// A record or a holding already stands at the address.
    AlreadyExists,
    /// The payer holds less than is asked.
    InsufficientFunds,
    /// An account is not the one the instruction expects: its address is not
    /// the derived one, or its owner or token type is another.
    InvalidAccount,
    /// The caller is not the maker of the record.
    Unauthorized,
    /// There is no record, or no vault, at the address.
    AccountNotFound,
}

} // verus!
