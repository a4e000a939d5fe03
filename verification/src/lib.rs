//! A two-party token escrow: a maker locks an amount of one token in a vault
//! that only the program controls and names the amount of another token wanted
//! in return; a taker settles the offer, or the maker withdraws it.
//!
//! - [`derivation`] gives every record and every vault its address: a function
//!   of the maker, the seed and the program, computed by the program-address
//!   derivation of `anchor_lang`.
//! - [`instructions`] holds the three instructions. Each has a decision on
//!   plain values (`check_make`, `check_take`, `check_refund`), which says
//!   whether the instruction goes through and what it moves, and the
//!   instruction itself on a [`Ledger`], which applies what was decided or
//!   leaves the ledger untouched.
//! - [`ledger`] is the state: token holdings and open records, with the moves
//!   the instructions are built from.
//! - [`laws`] proves what holds of the instructions on every ledger.

pub mod address;
pub mod derivation;
pub mod error;
pub mod instructions;
pub mod laws;
pub mod ledger;
pub mod state;
pub mod table;

pub use address::Address;
pub use error::EscrowError;
pub use instructions::make::{check_make, make, make_with, MakeAccounts, MakeFacts};
pub use instructions::refund::{
    check_refund, refund, refund_with, RefundAccounts, RefundFacts, Withdrawal,
};
pub use instructions::take::{check_take, take, take_with, Settlement, TakeAccounts, TakeFacts};
pub use ledger::Ledger;
pub use state::{Escrow, TokenAccount};
