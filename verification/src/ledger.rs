//! The ledger: every token holding and every open escrow record, with the
//! moves that the instructions are built from. Tokens are never made or lost
//! by a move: the supply of every token type stays what was issued.

use vstd::prelude::*;
use crate::address::Address;
use crate::error::EscrowError;
use crate::state::{Escrow, TokenAccount};
use crate::table::Table;

verus! {

/// The ledger as a mathematical value.
pub struct LedgerView {
    /// The program that owns the records and speaks for the vaults.
    pub program: Address,
    /// The token holdings, by address.
    pub holdings: Map<Address, TokenAccount>,
    /// The open escrow records, by address.
    pub escrows: Map<Address, Escrow>,
}

/// What a holding adds to the supply of `mint`.
pub open spec fn share(account: TokenAccount, mint: Address) -> nat {
    if account.mint == mint {
        account.amount as nat
    } else {
        0
    }
}

/// The tokens of type `mint` in all holdings together.
pub open spec fn supply(holdings: Map<Address, TokenAccount>, mint: Address) -> nat
    decreases holdings.dom().len(),
    when holdings.dom().finite()
{
    if holdings.dom().len() == 0 {
        0
    } else {
        let first = holdings.dom().choose();
        share(holdings[first], mint) + supply(holdings.remove(first), mint)
    }
}

/// How many tokens the holding at `address` holds; none where there is no
/// such holding.
pub open spec fn held(holdings: Map<Address, TokenAccount>, address: Address) -> nat {
    if holdings.contains_key(address) {
        holdings[address].amount as nat
    } else {
        0
    }
}

/// The holding at `address`, if there is one.
pub open spec fn holding_at(holdings: Map<Address, TokenAccount>, address: Address) -> Option<
    TokenAccount,
> {
    if holdings.contains_key(address) {
        Some(holdings[address])
    } else {
        None
    }
}

/// The record at `address`, if one is open.
pub open spec fn record_at(escrows: Map<Address, Escrow>, address: Address) -> Option<Escrow> {
    if escrows.contains_key(address) {
        Some(escrows[address])
    } else {
        None
    }
}

/// The holding after `amount` has left it.
pub open spec fn debited(account: TokenAccount, amount: u64) -> TokenAccount {
    TokenAccount { owner: account.owner, mint: account.mint, amount: (account.amount - amount) as u64 }
}

/// The holding after `amount` has come in.
pub open spec fn credited(account: TokenAccount, amount: u64) -> TokenAccount {
    TokenAccount { owner: account.owner, mint: account.mint, amount: (account.amount + amount) as u64 }
}

/// The holdings after `amount` has moved from one holding to another. A move
/// from a holding to itself changes nothing.
pub open spec fn transfer(
    holdings: Map<Address, TokenAccount>,
    from: Address,
    to: Address,
    amount: u64,
) -> Map<Address, TokenAccount> {
    if from == to {
        holdings
    } else {
        holdings.insert(from, debited(holdings[from], amount)).insert(
            to,
            credited(holdings[to], amount),
        )
    }
}

/// Whether `amount` can move from `from` to `to`: both holdings exist, they
/// hold one token type, and `from` holds enough.
pub open spec fn can_transfer(
    holdings: Map<Address, TokenAccount>,
    from: Address,
    to: Address,
    amount: u64,
) -> bool {
    &&& holdings.contains_key(from)
    &&& holdings.contains_key(to)
    &&& holdings[from].mint == holdings[to].mint
    &&& amount <= holdings[from].amount
}

impl LedgerView {
    /// Finitely many holdings and records, and no token type of which more
    /// has been issued than an amount can say.
    pub open spec fn wf(self) -> bool {
        &&& self.holdings.dom().finite()
        &&& self.escrows.dom().finite()
        &&& forall|mint: Address| #[trigger] supply(self.holdings, mint) <= u64::MAX
    }

    /// This ledger with other holdings.
    pub open spec fn with_holdings(self, holdings: Map<Address, TokenAccount>) -> LedgerView {
        LedgerView { program: self.program, holdings, escrows: self.escrows }
    }

    /// This ledger with other records.
    pub open spec fn with_escrows(self, escrows: Map<Address, Escrow>) -> LedgerView {
        LedgerView { program: self.program, holdings: self.holdings, escrows }
    }
}

/// The supply is the share of any one holding plus the supply of the rest.
pub proof fn lemma_supply_split(holdings: Map<Address, TokenAccount>, address: Address, mint: Address)
    requires
        holdings.dom().finite(),
        holdings.contains_key(address),
    ensures
        supply(holdings, mint) == share(holdings[address], mint) + supply(
            holdings.remove(address),
            mint,
        ),
    decreases holdings.dom().len(),
{
    let first = holdings.dom().choose();
    assert(holdings.dom().len() != 0);
    if first != address {
        let rest = holdings.remove(first);
        lemma_supply_split(rest, address, mint);
        let others = holdings.remove(address);
        assert(others.contains_key(first));
        lemma_supply_split(others, first, mint);
        assert(rest.remove(address) =~= others.remove(first));
    }
}

/// A holding at a new address adds its share to the supply.
pub proof fn lemma_supply_insert(
    holdings: Map<Address, TokenAccount>,
    address: Address,
    account: TokenAccount,
    mint: Address,
)
    requires
        holdings.dom().finite(),
        !holdings.contains_key(address),
    ensures
        supply(holdings.insert(address, account), mint) == supply(holdings, mint) + share(
            account,
            mint,
        ),
{
    let grown = holdings.insert(address, account);
    lemma_supply_split(grown, address, mint);
    assert(grown.remove(address) =~= holdings);
}

/// Another value at an address that is held changes the supply by the
/// difference of the shares.
pub proof fn lemma_supply_replace(
    holdings: Map<Address, TokenAccount>,
    address: Address,
    account: TokenAccount,
    mint: Address,
)
    requires
        holdings.dom().finite(),
        holdings.contains_key(address),
    ensures
        supply(holdings.insert(address, account), mint) + share(holdings[address], mint)
            == supply(holdings, mint) + share(account, mint),
{
    let changed = holdings.insert(address, account);
    lemma_supply_split(changed, address, mint);
    lemma_supply_split(holdings, address, mint);
    assert(changed.remove(address) =~= holdings.remove(address));
}

/// Two holdings of one token type hold no more than its supply.
pub proof fn lemma_pair_within_supply(
    holdings: Map<Address, TokenAccount>,
    one: Address,
    other: Address,
)
    requires
        holdings.dom().finite(),
        holdings.contains_key(one),
        holdings.contains_key(other),
        one != other,
        holdings[one].mint == holdings[other].mint,
    ensures
        holdings[one].amount + holdings[other].amount <= supply(holdings, holdings[one].mint),
{
    let mint = holdings[one].mint;
    lemma_supply_split(holdings, one, mint);
    lemma_supply_split(holdings.remove(one), other, mint);
}

/// A move between holdings leaves the supply of every token type as it was.
pub proof fn lemma_transfer_keeps_supply(
    holdings: Map<Address, TokenAccount>,
    from: Address,
    to: Address,
    amount: u64,
    mint: Address,
)
    requires
        holdings.dom().finite(),
        can_transfer(holdings, from, to, amount),
        forall|any: Address| #[trigger] supply(holdings, any) <= u64::MAX,
    ensures
        transfer(holdings, from, to, amount).dom() == holdings.dom(),
        supply(transfer(holdings, from, to, amount), mint) == supply(holdings, mint),
{
    if from != to {
        lemma_pair_within_supply(holdings, from, to);
        assert(supply(holdings, holdings[from].mint) <= u64::MAX);
        let paid = holdings.insert(from, debited(holdings[from], amount));
        lemma_supply_replace(holdings, from, debited(holdings[from], amount), mint);
        lemma_supply_replace(paid, to, credited(holdings[to], amount), mint);
        assert(transfer(holdings, from, to, amount).dom() =~= holdings.dom());
    }
}

/// How the outcome of an instruction reads as a result: the new ledger is
/// left out.
pub open spec fn status(outcome: Result<LedgerView, EscrowError>) -> Result<(), EscrowError> {
    match outcome {
        Ok(_) => Ok(()),
        Err(error) => Err(error),
    }
}

/// The ledger after an instruction: the new one where the instruction went
/// through, the old one untouched where it was refused.
pub open spec fn after(pre: LedgerView, outcome: Result<LedgerView, EscrowError>) -> LedgerView {
    match outcome {
        Ok(post) => post,
        Err(_) => pre,
    }
}

/// What opening a holding at `address` comes to: refused where the address is
/// taken, and where the tokens it brings would take the supply of their type
/// past the largest amount.
pub open spec fn open_outcome(pre: LedgerView, address: Address, account: TokenAccount) -> Result<
    LedgerView,
    EscrowError,
> {
    if pre.holdings.contains_key(address) {
        Err(EscrowError::AlreadyExists)
    } else if supply(pre.holdings, account.mint) + account.amount > u64::MAX {
        Err(EscrowError::InvalidAmount)
    } else {
        Ok(pre.with_holdings(pre.holdings.insert(address, account)))
    }
}

/// How much of `mint` the register says was issued.
pub open spec fn issued_of(issued: Map<Address, u64>, mint: Address) -> nat {
    if issued.contains_key(mint) {
        issued[mint] as nat
    } else {
        0
    }
}

/// The ledger: holdings, records, and a register of how much of each token
/// type was issued.
pub struct Ledger {
    program: Address,
    holdings: Table<TokenAccount>,
    escrows: Table<Escrow>,
    issued: Table<u64>,
}

impl View for Ledger {
    type V = LedgerView;

    closed spec fn view(&self) -> LedgerView {
        LedgerView { program: self.program, holdings: self.holdings@, escrows: self.escrows@ }
    }
}

impl Ledger {
    /// The tables are sound and the register agrees with the holdings.
    pub closed spec fn wf(&self) -> bool {
        &&& self.holdings.wf()
        &&& self.escrows.wf()
        &&& self.issued.wf()
        &&& forall|mint: Address| #[trigger]
            supply(self.holdings@, mint) == issued_of(self.issued@, mint)
    }

    /// A sound ledger stands for a sound value.
    pub proof fn lemma_view_wf(&self)
        requires
            self.wf(),
        ensures
            self@.wf(),
    {
        self.holdings.lemma_finite();
        self.escrows.lemma_finite();
        assert forall|mint: Address| #[trigger] supply(self@.holdings, mint) <= u64::MAX by {
            assert(supply(self.holdings@, mint) == issued_of(self.issued@, mint));
        }
    }

    /// An empty ledger for `program`.
    pub fn new(program: Address) -> (ledger: Ledger)
        ensures
            ledger.wf(),
            ledger@.program == program,
            ledger@.holdings == Map::<Address, TokenAccount>::empty(),
            ledger@.escrows == Map::<Address, Escrow>::empty(),
    {
        let ledger = Ledger {
            program,
            holdings: Table::new(),
            escrows: Table::new(),
            issued: Table::new(),
        };
        assert forall|mint: Address| #[trigger]
            supply(ledger.holdings@, mint) == issued_of(ledger.issued@, mint) by {
            assert(ledger.holdings@.dom() =~= Set::<Address>::empty());
        }
        ledger
    }

    /// The program that owns the records.
    pub fn program(&self) -> (program: Address)
        ensures
            program == self@.program,
    {
        self.program
    }

    /// The holding at `address`, if there is one.
    pub fn holding(&self, address: &Address) -> (found: Option<TokenAccount>)
        requires
            self.wf(),
        ensures
            found == holding_at(self@.holdings, *address),
    {
        self.holdings.get(address)
    }

    /// The record at `address`, if one is open.
    pub fn escrow(&self, address: &Address) -> (found: Option<Escrow>)
        requires
            self.wf(),
        ensures
            found == record_at(self@.escrows, *address),
    {
        self.escrows.get(address)
    }

    /// Opens a holding at `address` and issues the tokens it starts with.
    pub fn open_account(&mut self, address: Address, account: TokenAccount) -> (result: Result<
        (),
        EscrowError,
    >)
        requires
            old(self).wf(),
        ensures
            final(self).wf(),
            result == status(open_outcome(old(self)@, address, account)),
            final(self)@ == after(old(self)@, open_outcome(old(self)@, address, account)),
    {
        if self.holdings.get(&address).is_some() {
            return Err(EscrowError::AlreadyExists);
        }
        let known = self.issued.get(&account.mint);
        let so_far: u64 = match known {
            Some(total) => total,
            None => 0,
        };
        assert(so_far == supply(self.holdings@, account.mint));
        let total: u64 = match so_far.checked_add(account.amount) {
            Some(total) => total,
            None => {
                return Err(EscrowError::InvalidAmount);
            },
        };
        let ghost before = *self;
        proof {
            self.holdings.lemma_finite();
        }
        self.holdings.insert(address, account);
        self.issued.insert(account.mint, total);
        proof {
            assert forall|mint: Address| #[trigger]
                supply(self.holdings@, mint) == issued_of(self.issued@, mint) by {
                lemma_supply_insert(before.holdings@, address, account, mint);
                assert(supply(before.holdings@, mint) == issued_of(before.issued@, mint));
            }
        }
        Ok(())
    }

    /// Moves `amount` from one holding to another.
    pub(crate) fn transfer(&mut self, from: &Address, to: &Address, amount: u64)
        requires
            old(self).wf(),
            can_transfer(old(self)@.holdings, *from, *to, amount),
        ensures
            final(self).wf(),
            final(self)@ == old(self)@.with_holdings(
                transfer(old(self)@.holdings, *from, *to, amount),
            ),
    {
        if from.same(to) {
            return ;
        }
        let ghost before = *self;
        proof {
            self.lemma_view_wf();
            lemma_pair_within_supply(self.holdings@, *from, *to);
            assert(supply(self.holdings@, self.holdings@[*from].mint) <= u64::MAX);
        }
        match (self.holdings.get(from), self.holdings.get(to)) {
            (Some(source), Some(target)) => {
                self.holdings.insert(
                    *from,
                    TokenAccount {
                        owner: source.owner,
                        mint: source.mint,
                        amount: source.amount - amount,
                    },
                );
                self.holdings.insert(
                    *to,
                    TokenAccount {
                        owner: target.owner,
                        mint: target.mint,
                        amount: target.amount + amount,
                    },
                );
                proof {
                    assert forall|mint: Address| #[trigger]
                        supply(self.holdings@, mint) == issued_of(self.issued@, mint) by {
                        lemma_transfer_keeps_supply(before.holdings@, *from, *to, amount, mint);
                        assert(supply(before.holdings@, mint) == issued_of(before.issued@, mint));
                    }
                }
            },
            _ => {},
        }
    }

    /// Opens an empty holding at an address that is free.
    pub(crate) fn open_empty(&mut self, address: Address, owner: Address, mint: Address)
        requires
            old(self).wf(),
            !old(self)@.holdings.contains_key(address),
        ensures
            final(self).wf(),
            final(self)@ == old(self)@.with_holdings(
                old(self)@.holdings.insert(address, TokenAccount { owner, mint, amount: 0 }),
            ),
    {
        let ghost before = *self;
        let account = TokenAccount { owner, mint, amount: 0 };
        proof {
            self.holdings.lemma_finite();
        }
        self.holdings.insert(address, account);
        proof {
            assert forall|any: Address| #[trigger]
                supply(self.holdings@, any) == issued_of(self.issued@, any) by {
                lemma_supply_insert(before.holdings@, address, account, any);
                assert(supply(before.holdings@, any) == issued_of(before.issued@, any));
            }
        }
    }

    /// Closes a holding that is empty.
    pub(crate) fn close_empty(&mut self, address: &Address)
        requires
            old(self).wf(),
            old(self)@.holdings.contains_key(*address),
            old(self)@.holdings[*address].amount == 0,
        ensures
            final(self).wf(),
            final(self)@ == old(self)@.with_holdings(old(self)@.holdings.remove(*address)),
    {
        let ghost before = *self;
        proof {
            self.holdings.lemma_finite();
        }
        self.holdings.remove(address);
        proof {
            assert forall|mint: Address| #[trigger]
                supply(self.holdings@, mint) == issued_of(self.issued@, mint) by {
                lemma_supply_split(before.holdings@, *address, mint);
                assert(supply(before.holdings@, mint) == issued_of(before.issued@, mint));
            }
        }
    }

    /// Writes a record at an address that holds none.
    pub(crate) fn open_escrow(&mut self, address: Address, record: Escrow)
        requires
            old(self).wf(),
            !old(self)@.escrows.contains_key(address),
        ensures
            final(self).wf(),
            final(self)@ == old(self)@.with_escrows(old(self)@.escrows.insert(address, record)),
    {
        self.escrows.insert(address, record);
    }

    /// Closes the record at `address`.
    pub(crate) fn close_escrow(&mut self, address: &Address)
        requires
            old(self).wf(),
            old(self)@.escrows.contains_key(*address),
        ensures
            final(self).wf(),
            final(self)@ == old(self)@.with_escrows(old(self)@.escrows.remove(*address)),
    {
        self.escrows.remove(address);
    }
}

} // verus!
