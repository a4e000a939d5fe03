//! The three instructions: make opens an offer, take settles it, refund
//! withdraws it. Each one checks everything before it moves anything, so an
//! instruction that is refused leaves the ledger as it was.

pub mod make;
pub mod refund;
pub mod take;
