//! What the ledger keeps: token holdings and escrow records.

use vstd::prelude::*;
use crate::address::Address;

verus! {

/// An open offer: what the maker put up is in the vault, this is what is
/// asked for it. Nothing in a record changes between its creation and its
/// closure.
#[derive(Clone, Copy, Debug, PartialEq, Eq)]
pub struct Escrow {
    /// Chosen by the maker, to tell this offer from the maker's others.
    pub seed: u64,
    /// Who opened the offer, and the only one who may withdraw it.
    pub maker: Address,
    /// The token type that the vault holds.
    pub mint_a: Address,
    /// The token type that the maker wants.
    pub mint_b: Address,
    /// How much of `mint_b` the maker wants.
    pub receive: u64,
    /// The bump with which the address of the record was derived.
    pub bump: u8,
}

/// A holding of one token type.
#[derive(Clone, Copy, Debug, PartialEq, Eq)]
pub struct TokenAccount {
    /// Who may move tokens out of the holding.
    pub owner: Address,
    /// The token type.
    pub mint: Address,
    /// How many tokens it holds.
    pub amount: u64,
}

/// Whether `account` is a holding that belongs to `owner` and holds tokens of
/// type `mint`.
pub open spec fn holding_of(account: Option<TokenAccount>, owner: Address, mint: Address) -> bool {
    account matches Some(held) && held.owner == owner && held.mint == mint
}

/// Whether `account` is a holding that belongs to `owner` and holds tokens of
/// type `mint`.
pub fn is_holding_of(account: &Option<TokenAccount>, owner: &Address, mint: &Address) -> (fits: bool)
    ensures
        fits == holding_of(*account, *owner, *mint),
{
    match account {
        Some(held) => held.owner.same(owner) && held.mint.same(mint),
        None => false,
    }
}

} // verus!
