//! Take: the taker pays the maker what the record asks, receives what the
//! vault holds, and the offer is closed.

use vstd::prelude::*;
use crate::address::{is_address, Address};
use crate::derivation::{proves_authority, reproduces, vault_address, vault_address_of};
use crate::error::EscrowError;
use crate::ledger::{after, holding_at, record_at, transfer, Ledger, LedgerView};
use crate::state::{holding_of, is_holding_of, Escrow, TokenAccount};

verus! {

/// The accounts that take is handed.
#[derive(Clone, Copy, Debug, PartialEq, Eq)]
pub struct TakeAccounts {
    /// The caller, who settles the offer.
    pub taker: Address,
    /// The maker of the offer.
    pub maker: Address,
    /// The taker's holding of `mint_a`, which receives the deposit.
    pub taker_ata_a: Address,
    /// The taker's holding of `mint_b`, which pays.
    pub taker_ata_b: Address,
    /// The maker's holding of `mint_b`, which is paid.
    pub maker_ata_b: Address,
    /// Where the record stands.
    pub escrow: Address,
    /// Where the vault stands.
    pub vault: Address,
}

/// What take reads before it decides.
#[derive(Clone, Copy, Debug, PartialEq, Eq)]
pub struct TakeFacts {
    /// The record at `accounts.escrow`.
    pub record: Option<Escrow>,
    /// Whether the record's bump reproduces the address it stands at.
    pub proven: bool,
    /// The address derived for the vault.
    pub derived_vault: Option<Address>,
    /// The holding at `accounts.vault`.
    pub vault: Option<TokenAccount>,
    /// The holding at `accounts.taker_ata_a`.
    pub taker_ata_a: Option<TokenAccount>,
    /// The holding at `accounts.taker_ata_b`.
    pub taker_ata_b: Option<TokenAccount>,
    /// The holding at `accounts.maker_ata_b`.
    pub maker_ata_b: Option<TokenAccount>,
}

/// What a take moves.
#[derive(Clone, Copy, Debug, PartialEq, Eq)]
pub struct Settlement {
    /// What the taker pays the maker, in `mint_b`.
    pub payment: u64,
    /// What the vault releases to the taker, in `mint_a`: all it holds.
    pub release: u64,
    /// Who has back what the storage of the vault and of the record cost:
    /// the maker.
    pub rent_to: Address,
}

/// Whether the holdings that take is handed fit the record: the vault is
/// owned by the record's address and holds `mint_a`; the receiving holding is
/// the taker's and of `mint_a`; the paying holding is the taker's, the paid
/// one the maker's, both of `mint_b`; and the vault is none of the other
/// three.
pub open spec fn take_accounts_fit(accounts: TakeAccounts, facts: TakeFacts, record: Escrow) -> bool {
    &&& holding_of(facts.vault, accounts.escrow, record.mint_a)
    &&& holding_of(facts.taker_ata_a, accounts.taker, record.mint_a)
    &&& holding_of(facts.taker_ata_b, accounts.taker, record.mint_b)
    &&& holding_of(facts.maker_ata_b, record.maker, record.mint_b)
    &&& accounts.vault != accounts.taker_ata_a
    &&& accounts.vault != accounts.taker_ata_b
    &&& accounts.vault != accounts.maker_ata_b
}

/// Whether take goes through, and what it then moves. The first of these
/// that holds decides:
/// no record stands at the address: `AccountNotFound`;
/// the maker is not the record's, the bump does not reproduce the address,
/// or the vault is not at its derived address: `InvalidAccount`;
/// no holding stands at the vault's address: `AccountNotFound`;
/// the holdings do not fit the record: `InvalidAccount`;
/// the taker holds less than the record asks: `InsufficientFunds`.
pub open spec fn take_check(accounts: TakeAccounts, facts: TakeFacts) -> Result<
    Settlement,
    EscrowError,
> {
    match facts.record {
        None => Err(EscrowError::AccountNotFound),
        Some(record) => {
            if accounts.maker != record.maker || !facts.proven || facts.derived_vault != Some(
                accounts.vault,
            ) {
                Err(EscrowError::InvalidAccount)
            } else if facts.vault is None {
                Err(EscrowError::AccountNotFound)
            } else if !take_accounts_fit(accounts, facts, record) {
                Err(EscrowError::InvalidAccount)
            } else if facts.taker_ata_b->Some_0.amount < record.receive {
                Err(EscrowError::InsufficientFunds)
            } else {
                Ok(
                    Settlement {
                        payment: record.receive,
                        release: facts.vault->Some_0.amount,
                        rent_to: record.maker,
                    },
                )
            }
        },
    }
}

/// Decides whether take goes through, from what it was handed and what it
/// read, and says what to move.
pub fn check_take(accounts: &TakeAccounts, facts: &TakeFacts) -> (decision: Result<
    Settlement,
    EscrowError,
>)
    ensures
        decision == take_check(*accounts, *facts),
{
    let record = match facts.record {
        Some(record) => record,
        None => {
            return Err(EscrowError::AccountNotFound);
        },
    };
    if !accounts.maker.same(&record.maker) || !facts.proven || !is_address(
        &facts.derived_vault,
        &accounts.vault,
    ) {
        return Err(EscrowError::InvalidAccount);
    }
    let custody = match facts.vault {
        Some(account) => account,
        None => {
            return Err(EscrowError::AccountNotFound);
        },
    };
    if !is_holding_of(&facts.vault, &accounts.escrow, &record.mint_a) || !is_holding_of(
        &facts.taker_ata_a,
        &accounts.taker,
        &record.mint_a,
    ) || !is_holding_of(&facts.taker_ata_b, &accounts.taker, &record.mint_b) || !is_holding_of(
        &facts.maker_ata_b,
        &record.maker,
        &record.mint_b,
    ) || accounts.vault.same(&accounts.taker_ata_a) || accounts.vault.same(&accounts.taker_ata_b)
        || accounts.vault.same(&accounts.maker_ata_b) {
        return Err(EscrowError::InvalidAccount);
    }
    let held: u64 = match facts.taker_ata_b {
        Some(account) => account.amount,
        None => 0,
    };
    if held < record.receive {
        return Err(EscrowError::InsufficientFunds);
    }
    Ok(Settlement { payment: record.receive, release: custody.amount, rent_to: record.maker })
}

/// What take reads of a ledger, given whether the record's bump reproduces
/// its address, and the vault's derived address.
pub open spec fn take_facts(
    pre: LedgerView,
    accounts: TakeAccounts,
    proven: bool,
    vault: Option<Address>,
) -> TakeFacts {
    TakeFacts {
        record: record_at(pre.escrows, accounts.escrow),
        proven,
        derived_vault: vault,
        vault: holding_at(pre.holdings, accounts.vault),
        taker_ata_a: holding_at(pre.holdings, accounts.taker_ata_a),
        taker_ata_b: holding_at(pre.holdings, accounts.taker_ata_b),
        maker_ata_b: holding_at(pre.holdings, accounts.maker_ata_b),
    }
}

/// The ledger after a take that went through: the taker has paid the maker,
/// what the vault released is with the taker, and neither the vault nor the
/// record stands any more.
pub open spec fn taken(pre: LedgerView, accounts: TakeAccounts, moved: Settlement) -> LedgerView {
    let paid = transfer(pre.holdings, accounts.taker_ata_b, accounts.maker_ata_b, moved.payment);
    let released = transfer(paid, accounts.vault, accounts.taker_ata_a, moved.release);
    LedgerView {
        program: pre.program,
        holdings: released.remove(accounts.vault),
        escrows: pre.escrows.remove(accounts.escrow),
    }
}

/// What take comes to on a ledger, given whether the record's bump
/// reproduces its address, and the vault's derived address: refused as
/// `take_check` says, or the ledger that `taken` describes.
pub open spec fn take_outcome(
    pre: LedgerView,
    accounts: TakeAccounts,
    proven: bool,
    vault: Option<Address>,
) -> Result<LedgerView, EscrowError> {
    match take_check(accounts, take_facts(pre, accounts, proven, vault)) {
        Ok(moved) => Ok(taken(pre, accounts, moved)),
        Err(error) => Err(error),
    }
}

/// Whether a record stands at `escrow` whose bump reproduces that address.
pub open spec fn authority_proven(pre: LedgerView, escrow: Address) -> bool {
    &&& pre.escrows.contains_key(escrow)
    &&& reproduces(
        pre.program,
        pre.escrows[escrow].maker,
        pre.escrows[escrow].seed,
        pre.escrows[escrow].bump,
        escrow,
    )
}

/// What take comes to: `take_outcome` with the record's bump checked against
/// its address, and the vault's address derived from the record's.
pub open spec fn take_result(pre: LedgerView, accounts: TakeAccounts) -> Result<
    LedgerView,
    EscrowError,
> {
    take_outcome(
        pre,
        accounts,
        authority_proven(pre, accounts.escrow),
        vault_address_of(pre.program, accounts.escrow),
    )
}

/// Whether take goes through, and what it then moves: `take_check` on what
/// take reads of the ledger, with the record's bump checked against its
/// address, and the vault's address derived from the record's.
pub open spec fn take_moves(pre: LedgerView, accounts: TakeAccounts) -> Result<
    Settlement,
    EscrowError,
> {
    take_check(
        accounts,
        take_facts(
            pre,
            accounts,
            authority_proven(pre, accounts.escrow),
            vault_address_of(pre.program, accounts.escrow),
        ),
    )
}

/// Checks that the record at `escrow`, if there is one, is reproduced by its
/// own bump.
pub fn prove_authority(ledger: &Ledger, escrow: &Address) -> (proven: bool)
    requires
        ledger.wf(),
    ensures
        proven == authority_proven(ledger@, *escrow),
{
    match ledger.escrow(escrow) {
        Some(record) => {
            let program = ledger.program();
            proves_authority(&program, &record.maker, record.seed, record.bump, escrow)
        },
        None => false,
    }
}

/// Take, with the derivations done beforehand: `proven` says whether the
/// record's bump reproduces its address, `vault` is the derived address of
/// the vault.
pub fn take_with(ledger: &mut Ledger, accounts: &TakeAccounts, proven: bool, vault: Option<Address>) -> (result:
    Result<Settlement, EscrowError>)
    requires
        old(ledger).wf(),
    ensures
        final(ledger).wf(),
        result == take_check(*accounts, take_facts(old(ledger)@, *accounts, proven, vault)),
        final(ledger)@ == after(old(ledger)@, take_outcome(old(ledger)@, *accounts, proven, vault)),
{
    let facts = TakeFacts {
        record: ledger.escrow(&accounts.escrow),
        proven,
        derived_vault: vault,
        vault: ledger.holding(&accounts.vault),
        taker_ata_a: ledger.holding(&accounts.taker_ata_a),
        taker_ata_b: ledger.holding(&accounts.taker_ata_b),
        maker_ata_b: ledger.holding(&accounts.maker_ata_b),
    };
    assert(facts == take_facts(ledger@, *accounts, proven, vault));
    let moved = match check_take(accounts, &facts) {
        Ok(moved) => moved,
        Err(error) => {
            return Err(error);
        },
    };
    ledger.transfer(&accounts.taker_ata_b, &accounts.maker_ata_b, moved.payment);
    ledger.transfer(&accounts.vault, &accounts.taker_ata_a, moved.release);
    ledger.close_empty(&accounts.vault);
    ledger.close_escrow(&accounts.escrow);
    Ok(moved)
}

/// Take: settles the offer at `accounts.escrow`. The taker pays the maker,
/// receives all that the vault holds, and the vault and the record are
/// closed; or nothing happens at all. Returns what was moved.
pub fn take(ledger: &mut Ledger, accounts: &TakeAccounts) -> (result: Result<Settlement, EscrowError>)
    requires
        old(ledger).wf(),
    ensures
        final(ledger).wf(),
        result == take_moves(old(ledger)@, *accounts),
        final(ledger)@ == after(old(ledger)@, take_result(old(ledger)@, *accounts)),
{
    let proven = prove_authority(ledger, &accounts.escrow);
    let program = ledger.program();
    let vault = vault_address(&program, &accounts.escrow);
    take_with(ledger, accounts, proven, vault)
}

} // verus!
