//! What holds of the instructions whatever the ledger and whatever they are
//! handed.

use vstd::prelude::*;
use crate::address::Address;
use crate::derivation::{escrow_address_of, vault_address_of};
use crate::error::EscrowError;
use crate::instructions::make::{make_outcome, make_result, MakeAccounts};
use crate::instructions::refund::{
    refund_moves, refund_outcome, refund_result, RefundAccounts, Withdrawal,
};
use crate::instructions::take::{
    authority_proven, take_moves, take_outcome, take_result, Settlement, TakeAccounts,
};
use crate::ledger::{
    after, held, holding_at, lemma_pair_within_supply, lemma_supply_insert, lemma_supply_split,
    lemma_transfer_keeps_supply, open_outcome, supply, transfer, LedgerView,
};
use crate::state::{holding_of, TokenAccount};

verus! {

/// An offer is unique to its maker and seed. Once make has gone through, a
/// record stands at the address derived from the two, and as long as it
/// stands every further make of that maker under that seed is refused with
/// `AlreadyExists`, whatever else it is handed.
pub proof fn law_make_once(
    pre: LedgerView,
    first: MakeAccounts,
    seed: u64,
    deposit: u64,
    receive: u64,
    second: MakeAccounts,
    second_deposit: u64,
    second_receive: u64,
)
    requires
        second.maker == first.maker,
    ensures
        make_result(pre, first, seed, deposit, receive) matches Ok(open) ==> {
            &&& escrow_address_of(pre.program, first.maker, seed) matches Some((address, _))
            &&& open.escrows.contains_key(address)
            &&& make_result(open, second, seed, second_deposit, second_receive) == Err::<
                LedgerView,
                EscrowError,
            >(EscrowError::AlreadyExists)
        },
        escrow_address_of(pre.program, first.maker, seed) matches Some((address, _))
            && pre.escrows.contains_key(address) ==> make_result(
            pre,
            second,
            seed,
            second_deposit,
            second_receive,
        ) == Err::<LedgerView, EscrowError>(EscrowError::AlreadyExists),
{
}

/// Make neither makes nor loses tokens: the deposit that leaves the maker's
/// holding is what the new vault holds, the vault belongs to the record's
/// address, and the supply of every token type is what it was.
pub proof fn law_make_conserves(
    pre: LedgerView,
    accounts: MakeAccounts,
    seed: u64,
    deposit: u64,
    receive: u64,
    escrow: Option<(Address, u8)>,
    vault: Option<Address>,
    mint: Address,
)
    requires
        pre.wf(),
    ensures
        make_outcome(pre, accounts, seed, deposit, receive, escrow, vault) matches Ok(post) ==> {
            &&& post.wf()
            &&& supply(post.holdings, mint) == supply(pre.holdings, mint)
            &&& post.holdings[accounts.vault] == TokenAccount {
                owner: accounts.escrow,
                mint: accounts.mint_a,
                amount: deposit,
            }
            &&& held(post.holdings, accounts.maker_ata_a) + deposit == held(
                pre.holdings,
                accounts.maker_ata_a,
            )
            &&& post.escrows.contains_key(accounts.escrow)
            &&& forall|other: Address|
                other != accounts.vault && other != accounts.maker_ata_a ==> (
                #[trigger] post.holdings.contains_key(other) == pre.holdings.contains_key(other))
                    && post.holdings[other] == pre.holdings[other]
        },
{
    if let Ok(post) = make_outcome(pre, accounts, seed, deposit, receive, escrow, vault) {
        let empty = TokenAccount { owner: accounts.escrow, mint: accounts.mint_a, amount: 0 };
        let opened = pre.holdings.insert(accounts.vault, empty);
        assert forall|any: Address| #[trigger] supply(opened, any) == supply(pre.holdings, any) by {
            lemma_supply_insert(pre.holdings, accounts.vault, empty, any);
        }
        assert forall|any: Address| #[trigger]
            supply(post.holdings, any) == supply(pre.holdings, any) by {
            lemma_transfer_keeps_supply(opened, accounts.maker_ata_a, accounts.vault, deposit, any);
        }
        lemma_transfer_keeps_supply(opened, accounts.maker_ata_a, accounts.vault, deposit, mint);
    }
}

/// Take neither makes nor loses tokens. After a take that went through, the
/// supply of every token type is what it was, the vault and the record stand
/// no more, and no holding but those of the taker and the maker that take
/// was handed has changed.
pub proof fn law_take_conserves(
    pre: LedgerView,
    accounts: TakeAccounts,
    proven: bool,
    vault: Option<Address>,
    mint: Address,
)
    requires
        pre.wf(),
    ensures
        take_outcome(pre, accounts, proven, vault) matches Ok(post) ==> {
            &&& post.wf()
            &&& supply(post.holdings, mint) == supply(pre.holdings, mint)
            &&& held(post.holdings, accounts.vault) == 0
            &&& !post.holdings.contains_key(accounts.vault)
            &&& !post.escrows.contains_key(accounts.escrow)
            &&& forall|other: Address|
                other != accounts.vault && other != accounts.taker_ata_a && other
                    != accounts.taker_ata_b && other != accounts.maker_ata_b ==> (
                #[trigger] post.holdings.contains_key(other) == pre.holdings.contains_key(other))
                    && post.holdings[other] == pre.holdings[other]
        },
        take_result(pre, accounts) matches Ok(post) ==> supply(post.holdings, mint) == supply(
            pre.holdings,
            mint,
        ),
{
    lemma_take_keeps_supply(pre, accounts, proven, vault);
    lemma_take_keeps_supply(
        pre,
        accounts,
        authority_proven(pre, accounts.escrow),
        vault_address_of(pre.program, accounts.escrow),
    );
}

proof fn lemma_take_keeps_supply(
    pre: LedgerView,
    accounts: TakeAccounts,
    proven: bool,
    vault: Option<Address>,
)
    requires
        pre.wf(),
    ensures
        take_outcome(pre, accounts, proven, vault) matches Ok(post) ==> post.wf() && forall|
            any: Address,
        | #[trigger] supply(post.holdings, any) == supply(pre.holdings, any),
{
    if let Ok(post) = take_outcome(pre, accounts, proven, vault) {
        let record = pre.escrows[accounts.escrow];
        let all = pre.holdings[accounts.vault].amount;
        let paid = transfer(
            pre.holdings,
            accounts.taker_ata_b,
            accounts.maker_ata_b,
            record.receive,
        );
        assert forall|any: Address| #[trigger] supply(paid, any) == supply(pre.holdings, any) by {
            lemma_transfer_keeps_supply(
                pre.holdings,
                accounts.taker_ata_b,
                accounts.maker_ata_b,
                record.receive,
                any,
            );
        }
        lemma_transfer_keeps_supply(
            pre.holdings,
            accounts.taker_ata_b,
            accounts.maker_ata_b,
            record.receive,
            record.mint_b,
        );
        let released = transfer(paid, accounts.vault, accounts.taker_ata_a, all);
        assert forall|any: Address| #[trigger] supply(released, any) == supply(paid, any) by {
            lemma_transfer_keeps_supply(paid, accounts.vault, accounts.taker_ata_a, all, any);
        }
        lemma_transfer_keeps_supply(paid, accounts.vault, accounts.taker_ata_a, all, record.mint_a);
        assert(released[accounts.vault].amount == 0);
        assert forall|any: Address| #[trigger]
            supply(post.holdings, any) == supply(pre.holdings, any) by {
            lemma_supply_split(released, accounts.vault, any);
            assert(supply(released, any) == supply(paid, any));
        }
    }
}

/// Take pays both sides what they agreed on. Where the two token types
/// differ, the taker's receiving holding has gained all that the vault held,
/// and the taker's paying holding has lost, and the maker's holding gained,
/// what the record asks; where payer and payee are one holding, it holds what
/// it held.
pub proof fn law_take_pays_both(
    pre: LedgerView,
    accounts: TakeAccounts,
    proven: bool,
    vault: Option<Address>,
)
    requires
        pre.wf(),
    ensures
        take_outcome(pre, accounts, proven, vault) matches Ok(post) ==> {
            let record = pre.escrows[accounts.escrow];
            record.mint_a != record.mint_b ==> {
                &&& held(post.holdings, accounts.taker_ata_a) == held(
                    pre.holdings,
                    accounts.taker_ata_a,
                ) + held(pre.holdings, accounts.vault)
                &&& accounts.taker_ata_b != accounts.maker_ata_b ==> {
                    &&& held(post.holdings, accounts.taker_ata_b) + record.receive == held(
                        pre.holdings,
                        accounts.taker_ata_b,
                    )
                    &&& held(post.holdings, accounts.maker_ata_b) == held(
                        pre.holdings,
                        accounts.maker_ata_b,
                    ) + record.receive
                }
                &&& accounts.taker_ata_b == accounts.maker_ata_b ==> held(
                    post.holdings,
                    accounts.taker_ata_b,
                ) == held(pre.holdings, accounts.taker_ata_b)
            }
        },
{
    if let Ok(post) = take_outcome(pre, accounts, proven, vault) {
        let record = pre.escrows[accounts.escrow];
        if record.mint_a != record.mint_b {
            lemma_pair_within_supply(pre.holdings, accounts.vault, accounts.taker_ata_a);
            assert(supply(pre.holdings, record.mint_a) <= u64::MAX);
            if accounts.taker_ata_b != accounts.maker_ata_b {
                lemma_pair_within_supply(pre.holdings, accounts.taker_ata_b, accounts.maker_ata_b);
                assert(supply(pre.holdings, record.mint_b) <= u64::MAX);
            }
        }
    }
}

/// A refund undoes a make. Where make has gone through and the maker then
/// withdraws the offer, with the record's bump reproducing its address, the
/// ledger is again what it was before the make: every holding holds what it
/// held, and neither the vault nor the record stands.
pub proof fn law_refund_undoes_make(
    pre: LedgerView,
    making: MakeAccounts,
    seed: u64,
    deposit: u64,
    receive: u64,
    escrow: Option<(Address, u8)>,
    vault: Option<Address>,
)
    ensures
        make_outcome(pre, making, seed, deposit, receive, escrow, vault) matches Ok(open) ==> {
            &&& refund_outcome(
                open,
                RefundAccounts {
                    maker: making.maker,
                    maker_ata_a: making.maker_ata_a,
                    escrow: making.escrow,
                    vault: making.vault,
                },
                true,
                vault,
            ) matches Ok(post)
            &&& post.program == pre.program
            &&& post.holdings =~= pre.holdings
            &&& post.escrows =~= pre.escrows
        },
{
}

/// Refund neither makes nor loses tokens. After a refund that went through,
/// all that the vault held is with the maker, the supply of every token type
/// is what it was, the vault and the record stand no more, and no other
/// holding has changed: no token of the type that the maker asked for has
/// moved.
pub proof fn law_refund_conserves(
    pre: LedgerView,
    accounts: RefundAccounts,
    proven: bool,
    vault: Option<Address>,
    mint: Address,
)
    requires
        pre.wf(),
    ensures
        refund_outcome(pre, accounts, proven, vault) matches Ok(post) ==> {
            &&& post.wf()
            &&& supply(post.holdings, mint) == supply(pre.holdings, mint)
            &&& held(post.holdings, accounts.maker_ata_a) == held(
                pre.holdings,
                accounts.maker_ata_a,
            ) + held(pre.holdings, accounts.vault)
            &&& !post.holdings.contains_key(accounts.vault)
            &&& !post.escrows.contains_key(accounts.escrow)
            &&& forall|other: Address|
                other != accounts.vault && other != accounts.maker_ata_a ==> (
                #[trigger] post.holdings.contains_key(other) == pre.holdings.contains_key(other))
                    && post.holdings[other] == pre.holdings[other]
        },
{
    if let Ok(post) = refund_outcome(pre, accounts, proven, vault) {
        let all = pre.holdings[accounts.vault].amount;
        let released = transfer(pre.holdings, accounts.vault, accounts.maker_ata_a, all);
        assert forall|any: Address| #[trigger]
            supply(released, any) == supply(pre.holdings, any) by {
            lemma_transfer_keeps_supply(
                pre.holdings,
                accounts.vault,
                accounts.maker_ata_a,
                all,
                any,
            );
        }
        lemma_transfer_keeps_supply(
            pre.holdings,
            accounts.vault,
            accounts.maker_ata_a,
            all,
            pre.holdings[accounts.vault].mint,
        );
        lemma_pair_within_supply(pre.holdings, accounts.vault, accounts.maker_ata_a);
        assert(supply(pre.holdings, pre.holdings[accounts.vault].mint) <= u64::MAX);
        assert forall|any: Address| #[trigger]
            supply(post.holdings, any) == supply(pre.holdings, any) by {
            lemma_supply_split(released, accounts.vault, any);
            assert(supply(released, any) == supply(pre.holdings, any));
        }
    }
}

/// Take and refund exclude each other, and neither can be repeated. Once one
/// of them has gone through, the record stands no more, and every take and
/// every refund at its address is refused with `AccountNotFound` and changes
/// nothing.
pub proof fn law_closed_for_good(
    pre: LedgerView,
    taking: TakeAccounts,
    refunding: RefundAccounts,
    later_take: TakeAccounts,
    later_refund: RefundAccounts,
)
    requires
        refunding.escrow == taking.escrow,
        later_take.escrow == taking.escrow,
        later_refund.escrow == taking.escrow,
    ensures
        take_result(pre, taking) matches Ok(closed) ==> {
            &&& refund_moves(closed, later_refund) == Err::<Withdrawal, EscrowError>(
                EscrowError::AccountNotFound,
            )
            &&& take_moves(closed, later_take) == Err::<Settlement, EscrowError>(
                EscrowError::AccountNotFound,
            )
            &&& after(closed, refund_result(closed, later_refund)) == closed
            &&& after(closed, take_result(closed, later_take)) == closed
        },
        refund_result(pre, refunding) matches Ok(closed) ==> {
            &&& take_moves(closed, later_take) == Err::<Settlement, EscrowError>(
                EscrowError::AccountNotFound,
            )
            &&& refund_moves(closed, later_refund) == Err::<Withdrawal, EscrowError>(
                EscrowError::AccountNotFound,
            )
            &&& after(closed, take_result(closed, later_take)) == closed
            &&& after(closed, refund_result(closed, later_refund)) == closed
        },
{
}

/// Only the maker can withdraw an offer. A refund that anyone else asks for
/// is refused with `Unauthorized`, whatever else it is handed, and the ledger
/// stays as it was.
pub proof fn law_refund_maker_only(pre: LedgerView, accounts: RefundAccounts)
    requires
        pre.escrows.contains_key(accounts.escrow),
        accounts.maker != pre.escrows[accounts.escrow].maker,
    ensures
        refund_moves(pre, accounts) == Err::<Withdrawal, EscrowError>(EscrowError::Unauthorized),
        after(pre, refund_result(pre, accounts)) == pre,
{
}

/// Take is all or nothing. Where the taker's paying holding holds less than
/// the record asks, take is refused and the ledger stays as it was: the maker
/// is not paid, the vault is not touched, the record stays open.
pub proof fn law_take_atomic(pre: LedgerView, accounts: TakeAccounts)
    requires
        pre.escrows.contains_key(accounts.escrow),
        held(pre.holdings, accounts.taker_ata_b) < pre.escrows[accounts.escrow].receive,
    ensures
        take_moves(pre, accounts) is Err,
        after(pre, take_result(pre, accounts)) == pre,
{
}

/// An instruction goes through exactly where its decision grants it: the
/// ledger changes only then, and where it is refused the error is that of the
/// decision.
pub proof fn law_refused_or_done(
    pre: LedgerView,
    making: MakeAccounts,
    seed: u64,
    deposit: u64,
    receive: u64,
    taking: TakeAccounts,
    refunding: RefundAccounts,
)
    ensures
        make_result(pre, making, seed, deposit, receive) is Err ==> after(
            pre,
            make_result(pre, making, seed, deposit, receive),
        ) == pre,
        take_result(pre, taking) is Ok <==> take_moves(pre, taking) is Ok,
        take_result(pre, taking) matches Err(error) ==> take_moves(pre, taking) == Err::<
            Settlement,
            EscrowError,
        >(error) && after(pre, take_result(pre, taking)) == pre,
        refund_result(pre, refunding) is Ok <==> refund_moves(pre, refunding) is Ok,
        refund_result(pre, refunding) matches Err(error) ==> refund_moves(pre, refunding) == Err::<
            Withdrawal,
            EscrowError,
        >(error) && after(pre, refund_result(pre, refunding)) == pre,
{
}

/// A record never changes. Whatever an instruction does, a record that
/// stood before it and stands after it says what it said: the seed, the
/// maker, both token types, the amount asked and the bump are fixed when
/// make writes them.
pub proof fn law_records_never_change(
    pre: LedgerView,
    making: MakeAccounts,
    seed: u64,
    deposit: u64,
    receive: u64,
    taking: TakeAccounts,
    refunding: RefundAccounts,
    escrow: Address,
)
    requires
        pre.escrows.contains_key(escrow),
    ensures
        make_result(pre, making, seed, deposit, receive) matches Ok(post) ==> post.escrows[escrow]
            == pre.escrows[escrow],
        take_result(pre, taking) matches Ok(post) ==> (post.escrows.contains_key(escrow) <==> escrow
            != taking.escrow) && (escrow != taking.escrow ==> post.escrows[escrow]
            == pre.escrows[escrow]),
        refund_result(pre, refunding) matches Ok(post) ==> (post.escrows.contains_key(escrow)
            <==> escrow != refunding.escrow) && (escrow != refunding.escrow ==> post.escrows[escrow]
            == pre.escrows[escrow]),
{
}

/// Every open record has its vault: a holding at the address derived from
/// the record's, owned by that address, of the token type that the maker put
/// up.
pub open spec fn in_custody(ledger: LedgerView) -> bool {
    forall|escrow: Address| #[trigger]
        ledger.escrows.contains_key(escrow) ==> {
            &&& vault_address_of(ledger.program, escrow) matches Some(vault)
            &&& holding_of(
                holding_at(ledger.holdings, vault),
                escrow,
                ledger.escrows[escrow].mint_a,
            )
        }
}

/// While a record stands, its vault stands. This holds of a ledger without
/// records, and no instruction and no opening of a holding ends it: make
/// opens the vault with the record, take and refund close the two together,
/// and none of them closes, or hands to another owner or token type, the
/// vault of a record that stays open.
pub proof fn law_vault_stands_with_record(
    pre: LedgerView,
    making: MakeAccounts,
    seed: u64,
    deposit: u64,
    receive: u64,
    taking: TakeAccounts,
    refunding: RefundAccounts,
    address: Address,
    account: TokenAccount,
)
    ensures
        pre.escrows =~= Map::<Address, crate::state::Escrow>::empty() ==> in_custody(pre),
        in_custody(pre) ==> {
            &&& make_result(pre, making, seed, deposit, receive) matches Ok(post) ==> in_custody(
                post,
            )
            &&& take_result(pre, taking) matches Ok(post) ==> in_custody(post)
            &&& refund_result(pre, refunding) matches Ok(post) ==> in_custody(post)
            &&& open_outcome(pre, address, account) matches Ok(post) ==> in_custody(post)
        },
{
    if in_custody(pre) {
        if let Ok(post) = make_result(pre, making, seed, deposit, receive) {
            assert forall|escrow: Address| #[trigger] post.escrows.contains_key(escrow) implies {
                &&& vault_address_of(post.program, escrow) matches Some(vault)
                &&& holding_of(
                    holding_at(post.holdings, vault),
                    escrow,
                    post.escrows[escrow].mint_a,
                )
            } by {
                if escrow != making.escrow {
                    assert(pre.escrows.contains_key(escrow));
                }
            }
        }
        if let Ok(post) = take_result(pre, taking) {
            assert forall|escrow: Address| #[trigger] post.escrows.contains_key(escrow) implies {
                &&& vault_address_of(post.program, escrow) matches Some(vault)
                &&& holding_of(
                    holding_at(post.holdings, vault),
                    escrow,
                    post.escrows[escrow].mint_a,
                )
            } by {
                assert(pre.escrows.contains_key(escrow));
            }
        }
        if let Ok(post) = refund_result(pre, refunding) {
            assert forall|escrow: Address| #[trigger] post.escrows.contains_key(escrow) implies {
                &&& vault_address_of(post.program, escrow) matches Some(vault)
                &&& holding_of(
                    holding_at(post.holdings, vault),
                    escrow,
                    post.escrows[escrow].mint_a,
                )
            } by {
                assert(pre.escrows.contains_key(escrow));
            }
        }
        if let Ok(post) = open_outcome(pre, address, account) {
            assert forall|escrow: Address| #[trigger] post.escrows.contains_key(escrow) implies {
                &&& vault_address_of(post.program, escrow) matches Some(vault)
                &&& holding_of(
                    holding_at(post.holdings, vault),
                    escrow,
                    post.escrows[escrow].mint_a,
                )
            } by {
                assert(pre.escrows.contains_key(escrow));
            }
        }
    }
}

} // verus!
