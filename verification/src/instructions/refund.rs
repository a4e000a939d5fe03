//! Refund: the maker withdraws the offer and has the deposit back.

use vstd::prelude::*;
use crate::address::{is_address, Address};
use crate::derivation::{vault_address, vault_address_of};
use crate::error::EscrowError;
use crate::instructions::take::{authority_proven, prove_authority};
use crate::ledger::{after, holding_at, record_at, transfer, Ledger, LedgerView};
use crate::state::{holding_of, is_holding_of, Escrow, TokenAccount};

verus! {

/// The accounts that refund is handed.
#[derive(Clone, Copy, Debug, PartialEq, Eq)]
pub struct RefundAccounts {
    /// The caller, who must be the maker of the offer.
    pub maker: Address,
    /// The maker's holding of `mint_a`, which receives the deposit.
    pub maker_ata_a: Address,
    /// Where the record stands.
    pub escrow: Address,
    /// Where the vault stands.
    pub vault: Address,
}

/// What refund reads before it decides.
#[derive(Clone, Copy, Debug, PartialEq, Eq)]
pub struct RefundFacts {
    /// The record at `accounts.escrow`.
    pub record: Option<Escrow>,
    /// Whether the record's bump reproduces the address it stands at.
    pub proven: bool,
    /// The address derived for the vault.
    pub derived_vault: Option<Address>,
    /// The holding at `accounts.vault`.
    pub vault: Option<TokenAccount>,
    /// The holding at `accounts.maker_ata_a`.
    pub maker_ata_a: Option<TokenAccount>,
}

/// What a refund moves.
#[derive(Clone, Copy, Debug, PartialEq, Eq)]
pub struct Withdrawal {
    /// What the vault releases to the maker, in `mint_a`: all it holds.
    pub release: u64,
    /// Who has back what the storage of the vault and of the record cost:
    /// the maker.
    pub rent_to: Address,
}

/// Whether the holdings that refund is handed fit the record: the vault is
/// owned by the record's address, the receiving holding by the maker, both
/// hold `mint_a`, and they are two holdings.
pub open spec fn refund_accounts_fit(accounts: RefundAccounts, facts: RefundFacts, record: Escrow) -> bool {
    &&& holding_of(facts.vault, accounts.escrow, record.mint_a)
    &&& holding_of(facts.maker_ata_a, record.maker, record.mint_a)
    &&& accounts.vault != accounts.maker_ata_a
}

/// Whether refund goes through, and what it then moves. The first of these
/// that holds decides:
/// no record stands at the address: `AccountNotFound`;
/// the caller is not the record's maker: `Unauthorized`;
/// the bump does not reproduce the address, or the vault is not at its
/// derived address: `InvalidAccount`;
/// no holding stands at the vault's address: `AccountNotFound`;
/// the holdings do not fit the record: `InvalidAccount`.
pub open spec fn refund_check(accounts: RefundAccounts, facts: RefundFacts) -> Result<
    Withdrawal,
    EscrowError,
> {
    match facts.record {
        None => Err(EscrowError::AccountNotFound),
        Some(record) => {
            if accounts.maker != record.maker {
                Err(EscrowError::Unauthorized)
            } else if !facts.proven || facts.derived_vault != Some(accounts.vault) {
                Err(EscrowError::InvalidAccount)
            } else if facts.vault is None {
                Err(EscrowError::AccountNotFound)
            } else if !refund_accounts_fit(accounts, facts, record) {
                Err(EscrowError::InvalidAccount)
            } else {
                Ok(Withdrawal { release: facts.vault->Some_0.amount, rent_to: record.maker })
            }
        },
    }
}

/// Decides whether refund goes through, from what it was handed and what it
/// read, and says what to move.
pub fn check_refund(accounts: &RefundAccounts, facts: &RefundFacts) -> (decision: Result<
    Withdrawal,
    EscrowError,
>)
    ensures
        decision == refund_check(*accounts, *facts),
{
    let record = match facts.record {
        Some(record) => record,
        None => {
            return Err(EscrowError::AccountNotFound);
        },
    };
    if !accounts.maker.same(&record.maker) {
        return Err(EscrowError::Unauthorized);
    }
    if !facts.proven || !is_address(&facts.derived_vault, &accounts.vault) {
        return Err(EscrowError::InvalidAccount);
    }
    let custody = match facts.vault {
        Some(account) => account,
        None => {
            return Err(EscrowError::AccountNotFound);
        },
    };
    if !is_holding_of(&facts.vault, &accounts.escrow, &record.mint_a) || !is_holding_of(
        &facts.maker_ata_a,
        &record.maker,
        &record.mint_a,
    ) || accounts.vault.same(&accounts.maker_ata_a) {
        return Err(EscrowError::InvalidAccount);
    }
    Ok(Withdrawal { release: custody.amount, rent_to: record.maker })
}

/// What refund reads of a ledger, given whether the record's bump
/// reproduces its address, and the vault's derived address.
pub open spec fn refund_facts(
    pre: LedgerView,
    accounts: RefundAccounts,
    proven: bool,
    vault: Option<Address>,
) -> RefundFacts {
    RefundFacts {
        record: record_at(pre.escrows, accounts.escrow),
        proven,
        derived_vault: vault,
        vault: holding_at(pre.holdings, accounts.vault),
        maker_ata_a: holding_at(pre.holdings, accounts.maker_ata_a),
    }
}

/// The ledger after a refund that went through: what the vault released is
/// with the maker, and neither the vault nor the record stands any more.
pub open spec fn refunded(pre: LedgerView, accounts: RefundAccounts, moved: Withdrawal) -> LedgerView {
    LedgerView {
        program: pre.program,
        holdings: transfer(
            pre.holdings,
            accounts.vault,
            accounts.maker_ata_a,
            moved.release,
        ).remove(accounts.vault),
        escrows: pre.escrows.remove(accounts.escrow),
    }
}

/// What refund comes to on a ledger, given whether the record's bump
/// reproduces its address, and the vault's derived address: refused as
/// `refund_check` says, or the ledger that `refunded` describes.
pub open spec fn refund_outcome(
    pre: LedgerView,
    accounts: RefundAccounts,
    proven: bool,
    vault: Option<Address>,
) -> Result<LedgerView, EscrowError> {
    match refund_check(accounts, refund_facts(pre, accounts, proven, vault)) {
        Ok(moved) => Ok(refunded(pre, accounts, moved)),
        Err(error) => Err(error),
    }
}

/// What refund comes to: `refund_outcome` with the record's bump checked
/// against its address, and the vault's address derived from the record's.
pub open spec fn refund_result(pre: LedgerView, accounts: RefundAccounts) -> Result<
    LedgerView,
    EscrowError,
> {
    refund_outcome(
        pre,
        accounts,
        authority_proven(pre, accounts.escrow),
        vault_address_of(pre.program, accounts.escrow),
    )
}

/// Whether refund goes through, and what it then moves: `refund_check` on
/// what refund reads of the ledger, with the record's bump checked against
/// its address, and the vault's address derived from the record's.
pub open spec fn refund_moves(pre: LedgerView, accounts: RefundAccounts) -> Result<
    Withdrawal,
    EscrowError,
> {
    refund_check(
        accounts,
        refund_facts(
            pre,
            accounts,
            authority_proven(pre, accounts.escrow),
            vault_address_of(pre.program, accounts.escrow),
        ),
    )
}

/// Refund, with the derivations done beforehand: `proven` says whether the
/// record's bump reproduces its address, `vault` is the derived address of
/// the vault.
pub fn refund_with(
    ledger: &mut Ledger,
    accounts: &RefundAccounts,
    proven: bool,
    vault: Option<Address>,
) -> (result: Result<Withdrawal, EscrowError>)
    requires
        old(ledger).wf(),
    ensures
        final(ledger).wf(),
        result == refund_check(*accounts, refund_facts(old(ledger)@, *accounts, proven, vault)),
        final(ledger)@ == after(
            old(ledger)@,
            refund_outcome(old(ledger)@, *accounts, proven, vault),
        ),
{
    let facts = RefundFacts {
        record: ledger.escrow(&accounts.escrow),
        proven,
        derived_vault: vault,
        vault: ledger.holding(&accounts.vault),
        maker_ata_a: ledger.holding(&accounts.maker_ata_a),
    };
    assert(facts == refund_facts(ledger@, *accounts, proven, vault));
    let moved = match check_refund(accounts, &facts) {
        Ok(moved) => moved,
        Err(error) => {
            return Err(error);
        },
    };
    ledger.transfer(&accounts.vault, &accounts.maker_ata_a, moved.release);
    ledger.close_empty(&accounts.vault);
    ledger.close_escrow(&accounts.escrow);
    Ok(moved)
}

/// Refund: withdraws the offer at `accounts.escrow`. All that the vault holds
/// goes back to the maker, and the vault and the record are closed; or
/// nothing happens at all. Only the maker may do this. Returns what was
/// moved.
pub fn refund(ledger: &mut Ledger, accounts: &RefundAccounts) -> (result: Result<
    Withdrawal,
    EscrowError,
>)
    requires
        old(ledger).wf(),
    ensures
        final(ledger).wf(),
        result == refund_moves(old(ledger)@, *accounts),
        final(ledger)@ == after(old(ledger)@, refund_result(old(ledger)@, *accounts)),
{
    let proven = prove_authority(ledger, &accounts.escrow);
    let program = ledger.program();
    let vault = vault_address(&program, &accounts.escrow);
    refund_with(ledger, accounts, proven, vault)
}

} // verus!
