use cw20_token::contract::{
    execute_create_bank, execute_create_token, execute_send_to_bank, execute_send_to_recipient,
    execute_set_exchange_rate,
};
use cw20_token::error::ContractError;
use cw20_token::helpers::create_accounts;
use cw20_token::msg::{ExchangeRateMsg, QueryMsg, TokenInfoMsg, TransactionMsg};
use cw20_token::query::{
    query, query_balance, query_bank_info, query_exchange_rate_info, query_token_info,
    query_transaction_info,
};
use cw20_token::rate::{convert_amount, inverse_rate, pow10};
use cw20_token::state::{
    BankInfo, InitialBalance, Ledger, TransactionInfo, TransactionStatus,
};
use cw20_token::table::Table;

fn token(denom: &str, accounts: &[(&str, u128)]) -> TokenInfoMsg {
    TokenInfoMsg {
        denom: denom.to_string(),
        name: denom.to_string(),
        initial_balances: accounts
            .iter()
            .map(|(a, n)| InitialBalance { address: a.to_string(), amount: *n })
            .collect(),
    }
}

fn new_bank(id: &str, balance: u128) -> BankInfo {
    BankInfo { id: id.to_string(), name: "Bank".to_string(), balance }
}

fn rate(from: &str, to: &str, precision: u32, rate: u64) -> ExchangeRateMsg {
    ExchangeRateMsg {
        denom_from: from.to_string(),
        denom_to: to.to_string(),
        precision,
        rate,
    }
}

fn transfer(id: &str, bank_id: &str, from: &str, to: &str, amount: u128) -> TransactionMsg {
    TransactionMsg {
        id: id.to_string(),
        bank_id: bank_id.to_string(),
        from: from.to_string(),
        to: to.to_string(),
        amount,
    }
}

/// RUB at addr0000, USD at addr0001, an empty bank and the rate RUB to USD of 0.2.
fn rub_usd_ledger(bank_balance: u128) -> Ledger {
    let mut ledger = Ledger::new();
    execute_create_token(&mut ledger, token("RUB", &[("addr0000", 1_000_000)])).unwrap();
    execute_create_token(&mut ledger, token("USD", &[("addr0001", 2_000_000)])).unwrap();
    execute_create_bank(&mut ledger, new_bank("bank0000", bank_balance)).unwrap();
    execute_set_exchange_rate(&mut ledger, rate("RUB", "USD", 3, 200)).unwrap();
    ledger
}

fn amount_of(ledger: &Ledger, address: &str) -> u128 {
    query_balance(ledger, address.to_string()).unwrap().amount
}

fn bank_balance(ledger: &Ledger, id: &str) -> u128 {
    query_bank_info(ledger, id.to_string()).unwrap().balance
}

fn status_of(ledger: &Ledger, id: &str) -> TransactionStatus {
    query_transaction_info(ledger, id.to_string()).unwrap().status
}

#[test]
fn example_scenario_with_empty_bank() {
    let mut ledger = rub_usd_ledger(0);
    execute_send_to_bank(&mut ledger, transfer("t0", "bank0000", "addr0000", "addr0001", 1_000_000))
        .unwrap();
    assert_eq!(0, amount_of(&ledger, "addr0000"));
    assert_eq!(1_000_000, bank_balance(&ledger, "bank0000"));
    execute_send_to_recipient(&mut ledger, "t0".to_string()).unwrap();
    assert_eq!(0, bank_balance(&ledger, "bank0000"));
    let recipient = query_balance(&ledger, "addr0001".to_string()).unwrap();
    assert_eq!(2_200_000, recipient.amount);
    assert_eq!("USD", recipient.denom);
}

#[test]
fn transfer_conserves_sender_and_bank() {
    let mut ledger = rub_usd_ledger(500);
    let before = amount_of(&ledger, "addr0000");
    execute_send_to_bank(&mut ledger, transfer("t0", "bank0000", "addr0000", "addr0001", 12_345))
        .unwrap();
    execute_send_to_recipient(&mut ledger, "t0".to_string()).unwrap();
    assert_eq!(before, amount_of(&ledger, "addr0000") + 12_345);
    assert_eq!(500, bank_balance(&ledger, "bank0000"));
    // 12345 * 200 / 1000 = 2469
    assert_eq!(2_000_000 + 2_469, amount_of(&ledger, "addr0001"));
}

#[test]
fn conversion_rounds_down() {
    let mut ledger = rub_usd_ledger(0);
    execute_send_to_bank(&mut ledger, transfer("t0", "bank0000", "addr0000", "addr0001", 7))
        .unwrap();
    execute_send_to_recipient(&mut ledger, "t0".to_string()).unwrap();
    // 7 * 200 / 1000 = 1.4
    assert_eq!(2_000_001, amount_of(&ledger, "addr0001"));
}

#[test]
fn inverse_rate_is_stored_symmetrically() {
    let mut ledger = Ledger::new();
    execute_set_exchange_rate(&mut ledger, rate("EUR", "GBP", 2, 3)).unwrap();
    let forward = query_exchange_rate_info(&ledger, "EURGBP".to_string()).unwrap();
    let reverse = query_exchange_rate_info(&ledger, "GBPEUR".to_string()).unwrap();
    assert_eq!(("EUR", "GBP", 3, 2), (forward.denom_from.as_str(), forward.denom_to.as_str(), forward.rate, forward.precision));
    // 10^4 / 3 rounded down
    assert_eq!(("GBP", "EUR", 3333, 2), (reverse.denom_from.as_str(), reverse.denom_to.as_str(), reverse.rate, reverse.precision));
}

#[test]
fn setting_a_rate_again_replaces_it() {
    let mut ledger = Ledger::new();
    execute_set_exchange_rate(&mut ledger, rate("A", "B", 1, 5)).unwrap();
    execute_set_exchange_rate(&mut ledger, rate("A", "B", 1, 4)).unwrap();
    assert_eq!(4, query_exchange_rate_info(&ledger, "AB".to_string()).unwrap().rate);
    assert_eq!(25, query_exchange_rate_info(&ledger, "BA".to_string()).unwrap().rate);
}

#[test]
fn zero_rate_is_refused() {
    let mut ledger = Ledger::new();
    assert_eq!(
        Err(ContractError::InvalidExchangeRate { precision: 3, rate: 0 }),
        execute_set_exchange_rate(&mut ledger, rate("RUB", "USD", 3, 0))
    );
    assert_eq!(
        Err(ContractError::ExchangeRateDoesNotExist { id: "RUBUSD".to_string() }),
        query_exchange_rate_info(&ledger, "RUBUSD".to_string())
    );
}

#[test]
fn unrepresentable_inverse_is_refused() {
    let mut ledger = Ledger::new();
    // 10^20 / 1 does not fit in a u64
    assert_eq!(
        Err(ContractError::InvalidExchangeRate { precision: 10, rate: 1 }),
        execute_set_exchange_rate(&mut ledger, rate("A", "B", 10, 1))
    );
    // 10^20 / 10 does
    execute_set_exchange_rate(&mut ledger, rate("A", "B", 10, 10)).unwrap();
    assert_eq!(10_000_000_000_000_000_000, query_exchange_rate_info(&ledger, "BA".to_string()).unwrap().rate);
}

#[test]
fn second_send_to_bank_with_same_id_is_refused() {
    let mut ledger = rub_usd_ledger(0);
    execute_send_to_bank(&mut ledger, transfer("t0", "bank0000", "addr0000", "addr0001", 100))
        .unwrap();
    assert_eq!(
        Err(ContractError::TransactionAlreadyExists { id: "t0".to_string() }),
        execute_send_to_bank(&mut ledger, transfer("t0", "bank0000", "addr0000", "addr0001", 100))
    );
    assert_eq!(999_900, amount_of(&ledger, "addr0000"));
    assert_eq!(2_000_000, amount_of(&ledger, "addr0001"));
    assert_eq!(100, bank_balance(&ledger, "bank0000"));
}

#[test]
fn status_moves_forward_only() {
    let mut ledger = rub_usd_ledger(0);
    execute_send_to_bank(&mut ledger, transfer("t0", "bank0000", "addr0000", "addr0001", 100))
        .unwrap();
    assert_eq!(TransactionStatus::SentToBank, status_of(&ledger, "t0"));
    execute_send_to_recipient(&mut ledger, "t0".to_string()).unwrap();
    assert_eq!(TransactionStatus::SentToRecipient, status_of(&ledger, "t0"));
    assert_eq!(
        Err(ContractError::InvalidTransactionState { id: "t0".to_string() }),
        execute_send_to_recipient(&mut ledger, "t0".to_string())
    );
    assert_eq!(TransactionStatus::SentToRecipient, status_of(&ledger, "t0"));
    assert_eq!(2_000_020, amount_of(&ledger, "addr0001"));
}

#[test]
fn queries_are_repeatable() {
    let ledger = rub_usd_ledger(7);
    let queries = vec![
        QueryMsg::Balance { address: "addr0000".to_string() },
        QueryMsg::TokenInfo { denom: "RUB".to_string() },
        QueryMsg::ExchangeRateInfo { id: "USDRUB".to_string() },
        QueryMsg::BankInfo { id: "bank0000".to_string() },
        QueryMsg::TransactionInfo { id: "none".to_string() },
    ];
    for q in queries {
        assert_eq!(query(&ledger, q.clone()), query(&ledger, q));
    }
}

#[test]
fn duplicate_token_is_refused() {
    let mut ledger = rub_usd_ledger(0);
    assert_eq!(
        Err(ContractError::TokenAlreadyRegistered { denom: "RUB".to_string() }),
        execute_create_token(&mut ledger, token("RUB", &[("addr0005", 1)]))
    );
    assert_eq!(
        Err(ContractError::AccountDoesNotExist { account: "addr0005".to_string() }),
        query_balance(&ledger, "addr0005".to_string())
    );
}

#[test]
fn token_supply_overflow_is_refused() {
    let mut ledger = Ledger::new();
    assert_eq!(
        Err(ContractError::Overflow {}),
        execute_create_token(&mut ledger, token("BIG", &[("a", u128::MAX), ("b", 1)]))
    );
    assert_eq!(
        Err(ContractError::AccountDoesNotExist { account: "a".to_string() }),
        query_balance(&ledger, "a".to_string())
    );
    assert_eq!(
        Err(ContractError::TokenNotRegistered { denom: "BIG".to_string() }),
        query_token_info(&ledger, "BIG".to_string())
    );
}

#[test]
fn later_allocation_to_the_same_address_wins() {
    let mut ledger = Ledger::new();
    execute_create_token(&mut ledger, token("T", &[("a", 5), ("a", 9)])).unwrap();
    assert_eq!(9, amount_of(&ledger, "a"));
    assert_eq!(14, query_token_info(&ledger, "T".to_string()).unwrap().total_supply);
    execute_create_token(&mut ledger, token("U", &[("a", 2)])).unwrap();
    let b = query_balance(&ledger, "a".to_string()).unwrap();
    assert_eq!((2, "U"), (b.amount, b.denom.as_str()));
}

#[test]
fn create_accounts_returns_total() {
    let mut ledger = Ledger::new();
    let accounts = vec![
        InitialBalance { address: "x".to_string(), amount: 3 },
        InitialBalance { address: "y".to_string(), amount: 4 },
    ];
    assert_eq!(Ok(7), create_accounts(&mut ledger, &accounts, "D".to_string()));
    assert_eq!("D", query_balance(&ledger, "y".to_string()).unwrap().denom);
    let empty: Vec<InitialBalance> = Vec::new();
    assert_eq!(Ok(0), create_accounts(&mut ledger, &empty, "D".to_string()));
}

#[test]
fn duplicate_bank_is_refused() {
    let mut ledger = Ledger::new();
    execute_create_bank(&mut ledger, new_bank("b", 1)).unwrap();
    assert_eq!(
        Err(ContractError::BankAlreadyExists { id: "b".to_string() }),
        execute_create_bank(&mut ledger, new_bank("b", 2))
    );
    assert_eq!(1, bank_balance(&ledger, "b"));
}

#[test]
fn send_to_bank_errors() {
    let mut ledger = rub_usd_ledger(0);
    assert_eq!(
        Err(ContractError::BankNotRegistered { id: "nobank".to_string() }),
        execute_send_to_bank(&mut ledger, transfer("t0", "nobank", "addr0000", "addr0001", 1))
    );
    assert_eq!(
        Err(ContractError::AccountDoesNotExist { account: "ghost".to_string() }),
        execute_send_to_bank(&mut ledger, transfer("t0", "bank0000", "ghost", "addr0001", 1))
    );
    assert_eq!(
        Err(ContractError::AccountDoesNotExist { account: "ghost".to_string() }),
        execute_send_to_bank(&mut ledger, transfer("t0", "bank0000", "addr0000", "ghost", 1))
    );
    assert_eq!(
        Err(ContractError::NotEnoughBalance { required: 1_000_001, available: 1_000_000 }),
        execute_send_to_bank(&mut ledger, transfer("t0", "bank0000", "addr0000", "addr0001", 1_000_001))
    );
    assert_eq!(1_000_000, amount_of(&ledger, "addr0000"));
}

#[test]
fn bank_overflow_is_refused() {
    let mut ledger = rub_usd_ledger(u128::MAX);
    assert_eq!(
        Err(ContractError::Overflow {}),
        execute_send_to_bank(&mut ledger, transfer("t0", "bank0000", "addr0000", "addr0001", 1))
    );
    assert_eq!(1_000_000, amount_of(&ledger, "addr0000"));
}

#[test]
fn send_to_recipient_errors() {
    let mut ledger = rub_usd_ledger(0);
    assert_eq!(
        Err(ContractError::TransactionDoesNotExist { id: "t9".to_string() }),
        execute_send_to_recipient(&mut ledger, "t9".to_string())
    );
    // no rate from EUR to USD is set
    execute_create_token(&mut ledger, token("EUR", &[("addr0002", 50)])).unwrap();
    execute_send_to_bank(&mut ledger, transfer("t1", "bank0000", "addr0002", "addr0001", 50))
        .unwrap();
    assert_eq!(
        Err(ContractError::ExchangeRateDoesNotExist { id: "EURUSD".to_string() }),
        execute_send_to_recipient(&mut ledger, "t1".to_string())
    );
    assert_eq!(TransactionStatus::SentToBank, status_of(&ledger, "t1"));
    assert_eq!(50, bank_balance(&ledger, "bank0000"));
}

#[test]
fn send_to_recipient_needs_bank_funds_and_bank() {
    let mut ledger = rub_usd_ledger(0);
    execute_send_to_bank(&mut ledger, transfer("t0", "bank0000", "addr0000", "addr0001", 10))
        .unwrap();
    // a ledger whose bank holds less than the transaction
    let mut drained = Ledger::new();
    drained.transactions.insert("t0".to_string(), query_transaction_record(&ledger, "t0"));
    drained.banks.insert("bank0000".to_string(), new_bank("bank0000", 3));
    execute_set_exchange_rate(&mut drained, rate("RUB", "USD", 3, 200)).unwrap();
    assert_eq!(
        Err(ContractError::NotEnoughBalance { required: 10, available: 3 }),
        execute_send_to_recipient(&mut drained, "t0".to_string())
    );
    let mut no_bank = Ledger::new();
    no_bank.transactions.insert("t0".to_string(), query_transaction_record(&ledger, "t0"));
    execute_set_exchange_rate(&mut no_bank, rate("RUB", "USD", 3, 200)).unwrap();
    assert_eq!(
        Err(ContractError::BankNotRegistered { id: "bank0000".to_string() }),
        execute_send_to_recipient(&mut no_bank, "t0".to_string())
    );
    // the bank and the rate are there, the recipient's balance is not
    no_bank.banks.insert("bank0000".to_string(), new_bank("bank0000", 10));
    assert_eq!(
        Err(ContractError::AccountDoesNotExist { account: "addr0001".to_string() }),
        execute_send_to_recipient(&mut no_bank, "t0".to_string())
    );
}

fn query_transaction_record(ledger: &Ledger, id: &str) -> TransactionInfo {
    let t = query_transaction_info(ledger, id.to_string()).unwrap();
    TransactionInfo {
        id: t.id,
        bank_id: t.bank_id,
        from: t.from,
        to: t.to,
        amount: t.amount,
        denom_from: t.denom_from,
        denom_to: t.denom_to,
        status: t.status,
    }
}

#[test]
fn recipient_overflow_is_refused() {
    let mut ledger = Ledger::new();
    execute_create_token(&mut ledger, token("A", &[("s", 10)])).unwrap();
    execute_create_token(&mut ledger, token("B", &[("r", u128::MAX - 1)])).unwrap();
    execute_create_bank(&mut ledger, new_bank("b", 0)).unwrap();
    execute_set_exchange_rate(&mut ledger, rate("A", "B", 0, 1)).unwrap();
    execute_send_to_bank(&mut ledger, transfer("t", "b", "s", "r", 2)).unwrap();
    assert_eq!(
        Err(ContractError::Overflow {}),
        execute_send_to_recipient(&mut ledger, "t".to_string())
    );
    assert_eq!(2, bank_balance(&ledger, "b"));
}

#[test]
fn rate_arithmetic_values() {
    assert_eq!(Some(1), pow10(0));
    assert_eq!(Some(1000), pow10(3));
    assert_eq!(Some(10u128.pow(38)), pow10(38));
    assert_eq!(None, pow10(39));
    assert_eq!(Some(5000), inverse_rate(3, 200));
    assert_eq!(Some(3333), inverse_rate(2, 3));
    assert_eq!(None, inverse_rate(3, 0));
    assert_eq!(None, inverse_rate(25, u64::MAX));
    assert_eq!(Some(200_000), convert_amount(1_000_000, 200, 3));
    assert_eq!(Some(1), convert_amount(7, 200, 3));
    assert_eq!(None, convert_amount(u128::MAX, 2, 0));
    assert_eq!(None, convert_amount(1, 1, 40));
}

#[test]
fn bank_income_and_outcome() {
    let mut b = new_bank("b", 10);
    let copy = b.income(5);
    assert_eq!(15, b.balance);
    assert_eq!(b, copy);
    let copy = b.outcome(15);
    assert_eq!(0, b.balance);
    assert_eq!(b, copy);
}

#[test]
fn update_status_returns_updated_record() {
    let mut t = TransactionInfo {
        id: "t".to_string(),
        bank_id: "b".to_string(),
        from: "f".to_string(),
        to: "g".to_string(),
        amount: 1,
        denom_from: "A".to_string(),
        denom_to: "B".to_string(),
        status: TransactionStatus::Initial,
    };
    let copy = t.update_status(TransactionStatus::SentToBank);
    assert_eq!(TransactionStatus::SentToBank, t.status);
    assert_eq!(t, copy);
}

#[test]
fn table_insert_replaces() {
    let mut table: Table<u32> = Table::new();
    assert!(!table.contains(&"k".to_string()));
    table.insert("k".to_string(), 1);
    table.insert("j".to_string(), 2);
    table.insert("k".to_string(), 3);
    assert_eq!(Some(&3), table.get(&"k".to_string()));
    assert_eq!(Some(&2), table.get(&"j".to_string()));
    assert_eq!(None, table.get(&"m".to_string()));
}
