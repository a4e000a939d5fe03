//! Make: the maker opens an offer and puts the deposit into its vault.

use vstd::prelude::*;
use crate::address::{is_address, Address};
use crate::derivation::{escrow_address, escrow_address_of, vault_address, vault_address_of};
use crate::error::EscrowError;
use crate::ledger::{after, holding_at, status, transfer, Ledger, LedgerView};
use crate::state::{holding_of, is_holding_of, Escrow, TokenAccount};

verus! {

/// The accounts that make is handed.
#[derive(Clone, Copy, Debug, PartialEq, Eq)]
pub struct MakeAccounts {
    /// The caller, who opens the offer.
    pub maker: Address,
    /// The token type that the maker puts up.
    pub mint_a: Address,
    /// The token type that the maker wants.
    pub mint_b: Address,
    /// The maker's holding of `mint_a`, which pays the deposit.
    pub maker_ata_a: Address,
    /// Where the record is to stand.
    pub escrow: Address,
    /// Where the vault is to stand.
    pub vault: Address,
}

/// What make reads before it decides.
#[derive(Clone, Copy, Debug, PartialEq, Eq)]
pub struct MakeFacts {
    /// The address derived for the record, with its bump.
    pub escrow: Option<(Address, u8)>,
    /// The address derived for the vault.
    pub vault: Option<Address>,
    /// Whether a record stands at the derived address.
    pub record_stands: bool,
    /// Whether a holding stands at `accounts.vault`.
    pub vault_stands: bool,
    /// The holding at `accounts.maker_ata_a`.
    pub paying: Option<TokenAccount>,
}

/// Whether make goes through, and the record it then writes. The first of
/// these that holds decides:
/// no address could be derived: `InvalidAccount`;
/// a record stands at the derived address: `AlreadyExists`;
/// the record or the vault is not at its derived address: `InvalidAccount`;
/// a holding stands at the vault's address: `AlreadyExists`;
/// the paying holding is missing, or not the maker's, or of another token
/// type: `InvalidAccount`;
/// an amount is zero: `InvalidAmount`;
/// the paying holding holds less than the deposit: `InsufficientFunds`.
pub open spec fn make_check(
    accounts: MakeAccounts,
    seed: u64,
    deposit: u64,
    receive: u64,
    facts: MakeFacts,
) -> Result<Escrow, EscrowError> {
    match facts.escrow {
        None => Err(EscrowError::InvalidAccount),
        Some((address, bump)) => {
            if facts.record_stands {
                Err(EscrowError::AlreadyExists)
            } else if accounts.escrow != address || facts.vault != Some(accounts.vault) {
                Err(EscrowError::InvalidAccount)
            } else if facts.vault_stands {
                Err(EscrowError::AlreadyExists)
            } else if !holding_of(facts.paying, accounts.maker, accounts.mint_a) {
                Err(EscrowError::InvalidAccount)
            } else if deposit == 0 || receive == 0 {
                Err(EscrowError::InvalidAmount)
            } else if facts.paying->Some_0.amount < deposit {
                Err(EscrowError::InsufficientFunds)
            } else {
                Ok(
                    Escrow {
                        seed,
                        maker: accounts.maker,
                        mint_a: accounts.mint_a,
                        mint_b: accounts.mint_b,
                        receive,
                        bump,
                    },
                )
            }
        },
    }
}

/// Decides whether make goes through, from what it was handed and what it
/// read, and gives the record to write.
pub fn check_make(accounts: &MakeAccounts, seed: u64, deposit: u64, receive: u64, facts: &MakeFacts) -> (decision:
    Result<Escrow, EscrowError>)
    ensures
        decision == make_check(*accounts, seed, deposit, receive, *facts),
{
    let (address, bump) = match facts.escrow {
        Some(derived) => derived,
        None => {
            return Err(EscrowError::InvalidAccount);
        },
    };
    if facts.record_stands {
        return Err(EscrowError::AlreadyExists);
    }
    if !accounts.escrow.same(&address) || !is_address(&facts.vault, &accounts.vault) {
        return Err(EscrowError::InvalidAccount);
    }
    if facts.vault_stands {
        return Err(EscrowError::AlreadyExists);
    }
    if !is_holding_of(&facts.paying, &accounts.maker, &accounts.mint_a) {
        return Err(EscrowError::InvalidAccount);
    }
    if deposit == 0 || receive == 0 {
        return Err(EscrowError::InvalidAmount);
    }
    let held: u64 = match facts.paying {
        Some(account) => account.amount,
        None => 0,
    };
    if held < deposit {
        return Err(EscrowError::InsufficientFunds);
    }
    Ok(
        Escrow {
            seed,
            maker: accounts.maker,
            mint_a: accounts.mint_a,
            mint_b: accounts.mint_b,
            receive,
            bump,
        },
    )
}

/// What make reads of a ledger, given the derived addresses.
pub open spec fn make_facts(
    pre: LedgerView,
    accounts: MakeAccounts,
    escrow: Option<(Address, u8)>,
    vault: Option<Address>,
) -> MakeFacts {
    MakeFacts {
        escrow,
        vault,
        record_stands: escrow matches Some((address, _)) && pre.escrows.contains_key(address),
        vault_stands: pre.holdings.contains_key(accounts.vault),
        paying: holding_at(pre.holdings, accounts.maker_ata_a),
    }
}

/// The ledger after a make that went through: the vault stands, owned by the
/// record's address, and holds the deposit, which has left the maker's
/// holding; the record stands.
pub open spec fn made(pre: LedgerView, accounts: MakeAccounts, deposit: u64, record: Escrow) -> LedgerView {
    LedgerView {
        program: pre.program,
        holdings: transfer(
            pre.holdings.insert(
                accounts.vault,
                TokenAccount { owner: accounts.escrow, mint: accounts.mint_a, amount: 0 },
            ),
            accounts.maker_ata_a,
            accounts.vault,
            deposit,
        ),
        escrows: pre.escrows.insert(accounts.escrow, record),
    }
}

/// What make comes to on a ledger, given the record's derived address and
/// bump and the vault's derived address: refused as `make_check` says, or the
/// ledger that `made` describes.
pub open spec fn make_outcome(
    pre: LedgerView,
    accounts: MakeAccounts,
    seed: u64,
    deposit: u64,
    receive: u64,
    escrow: Option<(Address, u8)>,
    vault: Option<Address>,
) -> Result<LedgerView, EscrowError> {
    match make_check(accounts, seed, deposit, receive, make_facts(pre, accounts, escrow, vault)) {
        Ok(record) => Ok(made(pre, accounts, deposit, record)),
        Err(error) => Err(error),
    }
}

/// The derived address of the vault of the record that `maker` opens under
/// `seed`.
pub open spec fn make_vault_of(program: Address, maker: Address, seed: u64) -> Option<Address> {
    match escrow_address_of(program, maker, seed) {
        Some((address, _)) => vault_address_of(program, address),
        None => None,
    }
}

/// What make comes to: `make_outcome` at the addresses derived from the
/// maker, the seed and the program.
pub open spec fn make_result(
    pre: LedgerView,
    accounts: MakeAccounts,
    seed: u64,
    deposit: u64,
    receive: u64,
) -> Result<LedgerView, EscrowError> {
    make_outcome(
        pre,
        accounts,
        seed,
        deposit,
        receive,
        escrow_address_of(pre.program, accounts.maker, seed),
        make_vault_of(pre.program, accounts.maker, seed),
    )
}

/// Make, at addresses that were derived beforehand: `escrow` is the derived
/// address of the record with its bump, `vault` the derived address of the
/// vault.
pub fn make_with(
    ledger: &mut Ledger,
    accounts: &MakeAccounts,
    seed: u64,
    deposit: u64,
    receive: u64,
    escrow: Option<(Address, u8)>,
    vault: Option<Address>,
) -> (result: Result<(), EscrowError>)
    requires
        old(ledger).wf(),
    ensures
        final(ledger).wf(),
        result == status(
            make_outcome(old(ledger)@, *accounts, seed, deposit, receive, escrow, vault),
        ),
        final(ledger)@ == after(
            old(ledger)@,
            make_outcome(old(ledger)@, *accounts, seed, deposit, receive, escrow, vault),
        ),
{
    let record_stands = match escrow {
        Some((address, _)) => ledger.escrow(&address).is_some(),
        None => false,
    };
    let facts = MakeFacts {
        escrow,
        vault,
        record_stands,
        vault_stands: ledger.holding(&accounts.vault).is_some(),
        paying: ledger.holding(&accounts.maker_ata_a),
    };
    assert(facts == make_facts(ledger@, *accounts, escrow, vault));
    let record = match check_make(accounts, seed, deposit, receive, &facts) {
        Ok(record) => record,
        Err(error) => {
            return Err(error);
        },
    };
    ledger.open_empty(accounts.vault, accounts.escrow, accounts.mint_a);
    ledger.transfer(&accounts.maker_ata_a, &accounts.vault, deposit);
    ledger.open_escrow(accounts.escrow, record);
    Ok(())
}

/// Make: opens the offer of `accounts.maker` under `seed`. The deposit moves
/// from the maker's holding into the new vault, and the record says what the
/// maker wants for it.
pub fn make(ledger: &mut Ledger, accounts: &MakeAccounts, seed: u64, deposit: u64, receive: u64) -> (result:
    Result<(), EscrowError>)
    requires
        old(ledger).wf(),
    ensures
        final(ledger).wf(),
        result == status(make_result(old(ledger)@, *accounts, seed, deposit, receive)),
        final(ledger)@ == after(
            old(ledger)@,
            make_result(old(ledger)@, *accounts, seed, deposit, receive),
        ),
{
    let program = ledger.program();
    let escrow = escrow_address(&program, &accounts.maker, seed);
    let vault = match escrow {
        Some((address, _)) => vault_address(&program, &address),
        None => None,
    };
    make_with(ledger, accounts, seed, deposit, receive, escrow, vault)
}

} // verus!
