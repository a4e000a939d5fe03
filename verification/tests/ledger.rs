use anchor_escrow::table::Table;
use anchor_escrow::{
    make_with, refund_with, take_with, Address, EscrowError, Ledger, MakeAccounts, RefundAccounts,
    Settlement, TakeAccounts, TokenAccount, Withdrawal,
};

fn id(tag: u8) -> Address {
    Address::new([tag; 32])
}

fn account(owner: u8, mint: u8, amount: u64) -> TokenAccount {
    TokenAccount { owner: id(owner), mint: id(mint), amount }
}

#[test]
fn new_ledger_is_empty() {
    let ledger = Ledger::new(id(200));
    assert_eq!(ledger.program(), id(200));
    assert_eq!(ledger.holding(&id(1)), None);
    assert_eq!(ledger.escrow(&id(1)), None);
}

#[test]
fn open_account_keeps_what_it_is_given() {
    let mut ledger = Ledger::new(id(200));
    assert_eq!(ledger.open_account(id(20), account(1, 10, 100)), Ok(()));
    assert_eq!(ledger.open_account(id(21), account(1, 11, 0)), Ok(()));
    assert_eq!(ledger.holding(&id(20)), Some(account(1, 10, 100)));
    assert_eq!(ledger.holding(&id(21)), Some(account(1, 11, 0)));
    assert_eq!(ledger.holding(&id(22)), None);
}

#[test]
fn open_account_at_a_taken_address_already_exists() {
    let mut ledger = Ledger::new(id(200));
    assert_eq!(ledger.open_account(id(20), account(1, 10, 100)), Ok(()));
    assert_eq!(
        ledger.open_account(id(20), account(2, 11, 5)),
        Err(EscrowError::AlreadyExists)
    );
    assert_eq!(ledger.holding(&id(20)), Some(account(1, 10, 100)));
}

#[test]
fn open_account_past_the_largest_supply_is_an_invalid_amount() {
    let mut ledger = Ledger::new(id(200));
    assert_eq!(ledger.open_account(id(20), account(1, 10, u64::MAX - 5)), Ok(()));
    assert_eq!(ledger.open_account(id(21), account(2, 10, 6)), Err(EscrowError::InvalidAmount));
    assert_eq!(ledger.holding(&id(21)), None);
    assert_eq!(ledger.open_account(id(21), account(2, 10, 5)), Ok(()));
    assert_eq!(ledger.open_account(id(22), account(2, 10, 1)), Err(EscrowError::InvalidAmount));
    assert_eq!(ledger.open_account(id(22), account(2, 10, 0)), Ok(()));
    assert_eq!(ledger.open_account(id(23), account(2, 11, u64::MAX)), Ok(()));
}

fn funded() -> Ledger {
    let mut ledger = Ledger::new(id(200));
    assert_eq!(ledger.open_account(id(20), account(1, 10, 100)), Ok(()));
    assert_eq!(ledger.open_account(id(21), account(1, 11, 0)), Ok(()));
    assert_eq!(ledger.open_account(id(22), account(2, 10, 0)), Ok(()));
    assert_eq!(ledger.open_account(id(23), account(2, 11, 80)), Ok(()));
    ledger
}

fn offer() -> MakeAccounts {
    MakeAccounts {
        maker: id(1),
        mint_a: id(10),
        mint_b: id(11),
        maker_ata_a: id(20),
        escrow: id(30),
        vault: id(31),
    }
}

fn taking() -> TakeAccounts {
    TakeAccounts {
        taker: id(2),
        maker: id(1),
        taker_ata_a: id(22),
        taker_ata_b: id(23),
        maker_ata_b: id(21),
        escrow: id(30),
        vault: id(31),
    }
}

fn refunding() -> RefundAccounts {
    RefundAccounts { maker: id(1), maker_ata_a: id(20), escrow: id(30), vault: id(31) }
}

fn amounts(ledger: &Ledger) -> Vec<Option<u64>> {
    [20u8, 21, 22, 23, 31]
        .iter()
        .map(|at| ledger.holding(&id(*at)).map(|held| held.amount))
        .collect()
}

#[test]
fn make_with_given_addresses_then_take() {
    let mut ledger = funded();
    let made = make_with(&mut ledger, &offer(), 1, 100, 50, Some((id(30), 254)), Some(id(31)));
    assert_eq!(made, Ok(()));
    assert_eq!(amounts(&ledger), vec![Some(0), Some(0), Some(0), Some(80), Some(100)]);
    assert_eq!(ledger.holding(&id(31)), Some(account(30, 10, 100)));
    assert_eq!(ledger.escrow(&id(30)).unwrap().bump, 254);
    assert_eq!(
        take_with(&mut ledger, &taking(), true, Some(id(31))),
        Ok(Settlement { payment: 50, release: 100, rent_to: id(1) })
    );
    assert_eq!(amounts(&ledger), vec![Some(0), Some(50), Some(100), Some(30), None]);
    assert_eq!(ledger.escrow(&id(30)), None);
}

#[test]
fn make_with_given_addresses_then_refund() {
    let mut ledger = funded();
    let made = make_with(&mut ledger, &offer(), 1, 60, 50, Some((id(30), 254)), Some(id(31)));
    assert_eq!(made, Ok(()));
    assert_eq!(amounts(&ledger), vec![Some(40), Some(0), Some(0), Some(80), Some(60)]);
    assert_eq!(
        refund_with(&mut ledger, &refunding(), true, Some(id(31))),
        Ok(Withdrawal { release: 60, rent_to: id(1) })
    );
    assert_eq!(amounts(&ledger), vec![Some(100), Some(0), Some(0), Some(80), None]);
    assert_eq!(ledger.escrow(&id(30)), None);
}

#[test]
fn make_with_refuses_and_changes_nothing() {
    let mut ledger = funded();
    let before = amounts(&ledger);
    let cases = [
        (None, Some(id(31)), 100, 50, EscrowError::InvalidAccount),
        (Some((id(99), 254)), Some(id(31)), 100, 50, EscrowError::InvalidAccount),
        (Some((id(30), 254)), Some(id(99)), 100, 50, EscrowError::InvalidAccount),
        (Some((id(30), 254)), None, 100, 50, EscrowError::InvalidAccount),
        (Some((id(30), 254)), Some(id(31)), 0, 50, EscrowError::InvalidAmount),
        (Some((id(30), 254)), Some(id(31)), 100, 0, EscrowError::InvalidAmount),
        (Some((id(30), 254)), Some(id(31)), 101, 50, EscrowError::InsufficientFunds),
    ];
    for (escrow, vault, deposit, receive, error) in cases {
        assert_eq!(
            make_with(&mut ledger, &offer(), 1, deposit, receive, escrow, vault),
            Err(error)
        );
        assert_eq!(amounts(&ledger), before);
        assert_eq!(ledger.escrow(&id(30)), None);
    }
}

#[test]
fn make_with_a_taken_vault_address_already_exists() {
    let mut ledger = funded();
    let mut accounts = offer();
    accounts.vault = id(23);
    assert_eq!(
        make_with(&mut ledger, &accounts, 1, 100, 50, Some((id(30), 254)), Some(id(23))),
        Err(EscrowError::AlreadyExists)
    );
    assert_eq!(ledger.holding(&id(23)), Some(account(2, 11, 80)));
    assert_eq!(ledger.escrow(&id(30)), None);
}

#[test]
fn take_with_refuses_and_changes_nothing() {
    let mut ledger = funded();
    let made = make_with(&mut ledger, &offer(), 1, 100, 90, Some((id(30), 254)), Some(id(31)));
    assert_eq!(made, Ok(()));
    let before = amounts(&ledger);
    assert_eq!(
        take_with(&mut ledger, &taking(), true, Some(id(31))),
        Err(EscrowError::InsufficientFunds)
    );
    assert_eq!(
        take_with(&mut ledger, &taking(), false, Some(id(31))),
        Err(EscrowError::InvalidAccount)
    );
    assert_eq!(
        take_with(&mut ledger, &taking(), true, Some(id(32))),
        Err(EscrowError::InvalidAccount)
    );
    let mut elsewhere = taking();
    elsewhere.escrow = id(33);
    assert_eq!(
        take_with(&mut ledger, &elsewhere, true, Some(id(31))),
        Err(EscrowError::AccountNotFound)
    );
    let mut swapped = taking();
    swapped.taker_ata_a = id(23);
    assert_eq!(
        take_with(&mut ledger, &swapped, true, Some(id(31))),
        Err(EscrowError::InvalidAccount)
    );
    assert_eq!(amounts(&ledger), before);
    assert_eq!(ledger.escrow(&id(30)).unwrap().receive, 90);
}

#[test]
fn refund_with_refuses_and_changes_nothing() {
    let mut ledger = funded();
    let made = make_with(&mut ledger, &offer(), 1, 100, 50, Some((id(30), 254)), Some(id(31)));
    assert_eq!(made, Ok(()));
    let before = amounts(&ledger);
    let mut stranger = refunding();
    stranger.maker = id(2);
    stranger.maker_ata_a = id(22);
    assert_eq!(
        refund_with(&mut ledger, &stranger, true, Some(id(31))),
        Err(EscrowError::Unauthorized)
    );
    assert_eq!(
        refund_with(&mut ledger, &refunding(), false, Some(id(31))),
        Err(EscrowError::InvalidAccount)
    );
    let mut wrong = refunding();
    wrong.maker_ata_a = id(21);
    assert_eq!(
        refund_with(&mut ledger, &wrong, true, Some(id(31))),
        Err(EscrowError::InvalidAccount)
    );
    assert_eq!(amounts(&ledger), before);
    assert_eq!(ledger.escrow(&id(30)).unwrap().maker, id(1));
}

#[test]
fn offer_for_the_same_token_type() {
    let mut ledger = Ledger::new(id(200));
    assert_eq!(ledger.open_account(id(20), account(1, 10, 100)), Ok(()));
    assert_eq!(ledger.open_account(id(22), account(2, 10, 70)), Ok(()));
    let accounts = MakeAccounts {
        maker: id(1),
        mint_a: id(10),
        mint_b: id(10),
        maker_ata_a: id(20),
        escrow: id(30),
        vault: id(31),
    };
    let made = make_with(&mut ledger, &accounts, 1, 100, 60, Some((id(30), 254)), Some(id(31)));
    assert_eq!(made, Ok(()));
    let settle = TakeAccounts {
        taker: id(2),
        maker: id(1),
        taker_ata_a: id(22),
        taker_ata_b: id(22),
        maker_ata_b: id(20),
        escrow: id(30),
        vault: id(31),
    };
    assert_eq!(
        take_with(&mut ledger, &settle, true, Some(id(31))),
        Ok(Settlement { payment: 60, release: 100, rent_to: id(1) })
    );
    assert_eq!(ledger.holding(&id(20)).unwrap().amount, 60);
    assert_eq!(ledger.holding(&id(22)).unwrap().amount, 110);
    assert_eq!(ledger.holding(&id(31)), None);
}

#[test]
fn table_keeps_one_value_under_each_key() {
    let mut table: Table<u64> = Table::new();
    assert_eq!(table.get(&id(1)), None);
    table.insert(id(1), 10);
    table.insert(id(2), 20);
    table.insert(id(3), 30);
    assert_eq!(table.get(&id(1)), Some(10));
    assert_eq!(table.get(&id(2)), Some(20));
    assert_eq!(table.get(&id(3)), Some(30));
    table.insert(id(2), 21);
    assert_eq!(table.get(&id(2)), Some(21));
    assert_eq!(table.get(&id(1)), Some(10));
    table.remove(&id(1));
    assert_eq!(table.get(&id(1)), None);
    assert_eq!(table.get(&id(2)), Some(21));
    assert_eq!(table.get(&id(3)), Some(30));
    table.remove(&id(3));
    table.remove(&id(2));
    table.remove(&id(2));
    assert_eq!(table.get(&id(2)), None);
    table.insert(id(2), 5);
    assert_eq!(table.get(&id(2)), Some(5));
}
