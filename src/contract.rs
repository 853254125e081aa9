//! The requests of the ledger: how each one changes the ledger, or why it is
//! refused. A refused request changes nothing.

use vstd::prelude::*;
use vstd::string::*;
use crate::error::ContractError;
use crate::helpers::{assigned, create_accounts, total_of};
use crate::msg::{ExchangeRateMsg, ExecuteMsg, InstantiateMsg, TokenInfoMsg, TransactionMsg};
use crate::rate::{conversion_fits, convert_amount, converted_amount, inverse_rate, inverse_rate_of};
use crate::state::{
    BalanceInfo,
    BankInfo,
    ExchangeRateInfo,
    Ledger,
    LedgerView,
    TokenInfo,
    TransactionInfo,
    TransactionStatus,
};

verus! {

/// What `execute_create_token` does: `r` is its result and `s2` the ledger after it.
pub open spec fn create_token_step(
    s: LedgerView,
    msg: TokenInfoMsg,
    r: Result<(), ContractError>,
    s2: LedgerView,
) -> bool {
    if s.tokens.contains_key(msg.denom@) {
        r == Err::<(), _>(ContractError::TokenAlreadyRegistered { denom: msg.denom }) && s2 == s
    } else if total_of(msg.initial_balances@) > u128::MAX {
        r == Err::<(), _>(ContractError::Overflow {  }) && s2 == s
    } else {
        r == Ok::<(), ContractError>(()) && s2 == LedgerView {
            tokens: s.tokens.insert(
                msg.denom@,
                TokenInfo {
                    denom: msg.denom,
                    name: msg.name,
                    total_supply: total_of(msg.initial_balances@) as u128,
                    initial_balances: msg.initial_balances,
                },
            ),
            balances: assigned(s.balances, msg.initial_balances@, msg.denom),
            ..s
        }
    }
}

/// Registers a new denomination and gives each of its initial accounts its
/// amount in it, replacing what the account held. Its total supply is the sum
/// of those amounts.
pub fn execute_create_token(ledger: &mut Ledger, token_info: TokenInfoMsg) -> (r: Result<
    (),
    ContractError,
>)
    ensures
        create_token_step(old(ledger)@, token_info, r, final(ledger)@),
{
    let denom = token_info.denom.clone();
    if ledger.tokens.contains(&denom) {
        return Err(ContractError::TokenAlreadyRegistered { denom });
    }
    let total_supply = match create_accounts(ledger, token_info.initial_balances.as_slice(), denom.clone()) {
        Ok(t) => t,
        Err(e) => return Err(e),
    };
    let token = TokenInfo {
        denom: denom.clone(),
        name: token_info.name,
        total_supply,
        initial_balances: token_info.initial_balances,
    };
    ledger.tokens.insert(denom, token);
    Ok(())
}

/// What `execute_create_bank` does: `r` is its result and `s2` the ledger after it.
pub open spec fn create_bank_step(
    s: LedgerView,
    bank: BankInfo,
    r: Result<(), ContractError>,
    s2: LedgerView,
) -> bool {
    if s.banks.contains_key(bank.id@) {
        r == Err::<(), _>(ContractError::BankAlreadyExists { id: bank.id }) && s2 == s
    } else {
        r == Ok::<(), ContractError>(()) && s2 == LedgerView {
            banks: s.banks.insert(bank.id@, bank),
            ..s
        }
    }
}

/// Registers a bank as it is given, under its id.
pub fn execute_create_bank(ledger: &mut Ledger, bank_info: BankInfo) -> (r: Result<
    (),
    ContractError,
>)
    ensures
        create_bank_step(old(ledger)@, bank_info, r, final(ledger)@),
{
    let bank_id = bank_info.id.clone();
    if ledger.banks.contains(&bank_id) {
        return Err(ContractError::BankAlreadyExists { id: bank_id });
    }
    ledger.banks.insert(bank_id, bank_info);
    Ok(())
}

/// The ledger after `msg` has moved its amount from the sender to the bank.
pub open spec fn sent_to_bank(s: LedgerView, msg: TransactionMsg) -> LedgerView {
    let from = s.balances[msg.from@];
    let bank = s.banks[msg.bank_id@];
    LedgerView {
        balances: s.balances.insert(
            msg.from@,
            BalanceInfo { amount: (from.amount - msg.amount) as u128, denom: from.denom },
        ),
        banks: s.banks.insert(
            msg.bank_id@,
            BankInfo { balance: (bank.balance + msg.amount) as u128, ..bank },
        ),
        transactions: s.transactions.insert(
            msg.id@,
            TransactionInfo {
                id: msg.id,
                bank_id: msg.bank_id,
                from: msg.from,
                to: msg.to,
                amount: msg.amount,
                denom_from: from.denom,
                denom_to: s.balances[msg.to@].denom,
                status: TransactionStatus::SentToBank,
            },
        ),
        ..s
    }
}

/// What `execute_send_to_bank` does: `r` is its result and `s2` the ledger after it.
pub open spec fn send_to_bank_step(
    s: LedgerView,
    msg: TransactionMsg,
    r: Result<(), ContractError>,
    s2: LedgerView,
) -> bool {
    if !s.banks.contains_key(msg.bank_id@) {
        r == Err::<(), _>(ContractError::BankNotRegistered { id: msg.bank_id }) && s2 == s
    } else if s.transactions.contains_key(msg.id@) {
        r == Err::<(), _>(ContractError::TransactionAlreadyExists { id: msg.id }) && s2 == s
    } else if !s.balances.contains_key(msg.from@) {
        r == Err::<(), _>(ContractError::AccountDoesNotExist { account: msg.from }) && s2 == s
    } else if !s.balances.contains_key(msg.to@) {
        r == Err::<(), _>(ContractError::AccountDoesNotExist { account: msg.to }) && s2 == s
    } else if s.balances[msg.from@].amount < msg.amount {
        r == Err::<(), _>(
            ContractError::NotEnoughBalance {
                required: msg.amount,
                available: s.balances[msg.from@].amount,
            },
        ) && s2 == s
    } else if s.banks[msg.bank_id@].balance + msg.amount > u128::MAX {
        r == Err::<(), _>(ContractError::Overflow {  }) && s2 == s
    } else {
        r == Ok::<(), ContractError>(()) && s2 == sent_to_bank(s, msg)
    }
}

/// Moves `transaction_info.amount` from the sender's balance to the bank and
/// records the transaction as sent to the bank, with the denominations that
/// the sender and the recipient hold.
pub fn execute_send_to_bank(ledger: &mut Ledger, transaction_info: TransactionMsg) -> (r: Result<
    (),
    ContractError,
>)
    ensures
        send_to_bank_step(old(ledger)@, transaction_info, r, final(ledger)@),
{
    let bank_id = transaction_info.bank_id.clone();
    let transaction_id = transaction_info.id.clone();
    let mut bank = match ledger.banks.get(&bank_id) {
        Some(b) => b.duplicate(),
        None => return Err(ContractError::BankNotRegistered { id: bank_id }),
    };
    if ledger.transactions.contains(&transaction_id) {
        return Err(ContractError::TransactionAlreadyExists { id: transaction_id });
    }
    let balance_from = match ledger.balances.get(&transaction_info.from) {
        Some(b) => b.duplicate(),
        None => return Err(ContractError::AccountDoesNotExist { account: transaction_info.from }),
    };
    let denom_to = match ledger.balances.get(&transaction_info.to) {
        Some(b) => b.denom.clone(),
        None => return Err(ContractError::AccountDoesNotExist { account: transaction_info.to }),
    };
    if balance_from.amount < transaction_info.amount {
        return Err(
            ContractError::NotEnoughBalance {
                required: transaction_info.amount,
                available: balance_from.amount,
            },
        );
    }
    if bank.balance > u128::MAX - transaction_info.amount {
        return Err(ContractError::Overflow {  });
    }
    // the sender pays the amount into the bank
    ledger.balances.insert(
        transaction_info.from.clone(),
        BalanceInfo {
            amount: balance_from.amount - transaction_info.amount,
            denom: balance_from.denom.clone(),
        },
    );
    ledger.banks.insert(bank_id.clone(), bank.income(transaction_info.amount));
    let transaction = TransactionInfo {
        id: transaction_id.clone(),
        bank_id,
        from: transaction_info.from,
        to: transaction_info.to,
        amount: transaction_info.amount,
        denom_from: balance_from.denom,
        denom_to,
        status: TransactionStatus::SentToBank,
    };
    ledger.transactions.insert(transaction_id, transaction);
    Ok(())
}

/// The id under which the rate from `denom_from` to `denom_to` is stored.
pub open spec fn rate_id(denom_from: Seq<char>, denom_to: Seq<char>) -> Seq<char> {
    denom_from + denom_to
}

/// The ledger after the transaction `id` has been paid out of its bank to
/// its recipient, converted at `rate / 10^precision`.
pub open spec fn sent_to_recipient(s: LedgerView, id: Seq<char>) -> LedgerView {
    let t = s.transactions[id];
    let bank = s.banks[t.bank_id@];
    let to = s.balances[t.to@];
    let x = s.exchange_rates[rate_id(t.denom_from@, t.denom_to@)];
    LedgerView {
        balances: s.balances.insert(
            t.to@,
            BalanceInfo {
                amount: (to.amount + converted_amount(
                    t.amount as int,
                    x.rate as int,
                    x.precision as nat,
                )) as u128,
                denom: t.denom_to,
            },
        ),
        banks: s.banks.insert(t.bank_id@, BankInfo { balance: (bank.balance - t.amount) as u128, ..bank }),
        transactions: s.transactions.insert(
            id,
            TransactionInfo { status: TransactionStatus::SentToRecipient, ..t },
        ),
        ..s
    }
}

/// What `execute_send_to_recipient` does: `r` is its result and `s2` the ledger after it.
pub open spec fn send_to_recipient_step(
    s: LedgerView,
    transaction_id: String,
    r: Result<(), ContractError>,
    s2: LedgerView,
) -> bool {
    let t = s.transactions[transaction_id@];
    let x = s.exchange_rates[rate_id(t.denom_from@, t.denom_to@)];
    let bank = s.banks[t.bank_id@];
    let to = s.balances[t.to@];
    if !s.transactions.contains_key(transaction_id@) {
        r == Err::<(), _>(ContractError::TransactionDoesNotExist { id: transaction_id }) && s2 == s
    } else if t.status != TransactionStatus::SentToBank {
        r == Err::<(), _>(ContractError::InvalidTransactionState { id: transaction_id }) && s2
            == s
    } else if !s.exchange_rates.contains_key(rate_id(t.denom_from@, t.denom_to@)) {
        (r matches Err(ContractError::ExchangeRateDoesNotExist { id }) && id@ == rate_id(
            t.denom_from@,
            t.denom_to@,
        )) && s2 == s
    } else if !s.banks.contains_key(t.bank_id@) {
        r == Err::<(), _>(ContractError::BankNotRegistered { id: t.bank_id }) && s2 == s
    } else if bank.balance < t.amount {
        r == Err::<(), _>(
            ContractError::NotEnoughBalance { required: t.amount, available: bank.balance },
        ) && s2 == s
    } else if !s.balances.contains_key(t.to@) {
        r == Err::<(), _>(ContractError::AccountDoesNotExist { account: t.to }) && s2 == s
    } else if !conversion_fits(t.amount as int, x.rate as int, x.precision as nat) || to.amount
        + converted_amount(t.amount as int, x.rate as int, x.precision as nat) > u128::MAX {
        r == Err::<(), _>(ContractError::Overflow {  }) && s2 == s
    } else {
        r == Ok::<(), ContractError>(()) && s2 == sent_to_recipient(s, transaction_id@)
    }
}

/// Pays a transaction that waits in its bank out to the recipient: the bank
/// gives up the amount, and the recipient receives it converted at the rate
/// from the sender's denomination to the recipient's, in the recipient's
/// denomination. The transaction is then sent to the recipient.
pub fn execute_send_to_recipient(ledger: &mut Ledger, transaction_id: String) -> (r: Result<
    (),
    ContractError,
>)
    ensures
        send_to_recipient_step(old(ledger)@, transaction_id, r, final(ledger)@),
{
    let mut transaction = match ledger.transactions.get(&transaction_id) {
        Some(t) => t.duplicate(),
        None => return Err(ContractError::TransactionDoesNotExist { id: transaction_id }),
    };
    if transaction.status != TransactionStatus::SentToBank {
        return Err(ContractError::InvalidTransactionState { id: transaction_id });
    }
    let exchange_rate_id = transaction.denom_from.clone().concat(transaction.denom_to.as_str());
    let exchange_rate = match ledger.exchange_rates.get(&exchange_rate_id) {
        Some(x) => x.duplicate(),
        None => return Err(ContractError::ExchangeRateDoesNotExist { id: exchange_rate_id }),
    };
    let mut bank = match ledger.banks.get(&transaction.bank_id) {
        Some(b) => b.duplicate(),
        None => return Err(ContractError::BankNotRegistered { id: transaction.bank_id }),
    };
    if bank.balance < transaction.amount {
        return Err(
            ContractError::NotEnoughBalance {
                required: transaction.amount,
                available: bank.balance,
            },
        );
    }
    let balance_to = match ledger.balances.get(&transaction.to) {
        Some(b) => b.amount,
        None => return Err(ContractError::AccountDoesNotExist { account: transaction.to }),
    };
    let amount = match convert_amount(
        transaction.amount,
        exchange_rate.rate,
        exchange_rate.precision,
    ) {
        Some(a) => a,
        None => return Err(ContractError::Overflow {  }),
    };
    if balance_to > u128::MAX - amount {
        return Err(ContractError::Overflow {  });
    }
    ledger.banks.insert(transaction.bank_id.clone(), bank.outcome(transaction.amount));
    ledger.balances.insert(
        transaction.to.clone(),
        BalanceInfo { amount: balance_to + amount, denom: transaction.denom_to.clone() },
    );
    let delivered = transaction.update_status(TransactionStatus::SentToRecipient);
    ledger.transactions.insert(transaction_id, delivered);
    Ok(())
}

/// Whether `x` is the record of the rate `rate / 10^precision` from
/// `denom_from` to `denom_to`, stored under `id`.
pub open spec fn is_rate_record(
    x: ExchangeRateInfo,
    id: Seq<char>,
    denom_from: String,
    denom_to: String,
    precision: u32,
    rate: int,
) -> bool {
    &&& x.id@ == id
    &&& x.denom_from == denom_from
    &&& x.denom_to == denom_to
    &&& x.precision == precision
    &&& x.rate == rate
}

/// What `execute_set_exchange_rate` does: `r` is its result and `s2` the ledger after it.
/// Where both ids are the same, the inverse record is the one that stays.
pub open spec fn set_exchange_rate_step(
    s: LedgerView,
    msg: ExchangeRateMsg,
    r: Result<(), ContractError>,
    s2: LedgerView,
) -> bool {
    let forward = rate_id(msg.denom_from@, msg.denom_to@);
    let reverse = rate_id(msg.denom_to@, msg.denom_from@);
    let inverse = inverse_rate_of(msg.precision as nat, msg.rate as int);
    if msg.rate == 0 || inverse > u64::MAX {
        r == Err::<(), _>(
            ContractError::InvalidExchangeRate { precision: msg.precision, rate: msg.rate },
        ) && s2 == s
    } else {
        &&& r == Ok::<(), ContractError>(())
        &&& s2 == LedgerView {
            exchange_rates: s.exchange_rates.insert(forward, s2.exchange_rates[forward]).insert(
                reverse,
                s2.exchange_rates[reverse],
            ),
            ..s
        }
        &&& forward != reverse ==> is_rate_record(
            s2.exchange_rates[forward],
            forward,
            msg.denom_from,
            msg.denom_to,
            msg.precision,
            msg.rate as int,
        )
        &&& is_rate_record(
            s2.exchange_rates[reverse],
            reverse,
            msg.denom_to,
            msg.denom_from,
            msg.precision,
            inverse,
        )
    }
}

/// Records the rate from `denom_from` to `denom_to` under the id
/// `denom_from + denom_to`, and its inverse `10^(2 * precision) / rate`, at the
/// same precision, under `denom_to + denom_from`. A rate already stored under
/// either id is replaced.
pub fn execute_set_exchange_rate(ledger: &mut Ledger, exchange_rate: ExchangeRateMsg) -> (r:
    Result<(), ContractError>)
    ensures
        set_exchange_rate_step(old(ledger)@, exchange_rate, r, final(ledger)@),
{
    let exchange_rate_id = exchange_rate.denom_from.clone().concat(exchange_rate.denom_to.as_str());
    let exchange_rate_id_verse = exchange_rate.denom_to.clone().concat(
        exchange_rate.denom_from.as_str(),
    );
    let verse_rate = match inverse_rate(exchange_rate.precision, exchange_rate.rate) {
        Some(v) => v,
        None => {
            return Err(
                ContractError::InvalidExchangeRate {
                    precision: exchange_rate.precision,
                    rate: exchange_rate.rate,
                },
            )
        },
    };
    let exchange_rate_state = ExchangeRateInfo {
        id: exchange_rate_id.clone(),
        denom_from: exchange_rate.denom_from.clone(),
        denom_to: exchange_rate.denom_to.clone(),
        precision: exchange_rate.precision,
        rate: exchange_rate.rate,
    };
    let exchange_rate_verse_state = ExchangeRateInfo {
        id: exchange_rate_id_verse.clone(),
        denom_from: exchange_rate.denom_to,
        denom_to: exchange_rate.denom_from,
        precision: exchange_rate.precision,
        rate: verse_rate,
    };
    let ghost before = ledger@.exchange_rates;
    let ghost forward = exchange_rate_id@;
    let ghost reverse = exchange_rate_id_verse@;
    let ghost forward_record = exchange_rate_state;
    let ghost reverse_record = exchange_rate_verse_state;
    ledger.exchange_rates.insert(exchange_rate_id, exchange_rate_state);
    ledger.exchange_rates.insert(exchange_rate_id_verse, exchange_rate_verse_state);
    proof {
        let after = ledger@.exchange_rates;
        assert(after[reverse] == reverse_record);
        assert(forward != reverse ==> after[forward] == forward_record);
        assert(before.insert(forward, after[forward]).insert(reverse, after[reverse]) =~= after);
    }
    Ok(())
}

/// What `execute` does with `msg`: `r` is its result and `s2` the ledger after it.
pub open spec fn execute_step(
    s: LedgerView,
    msg: ExecuteMsg,
    r: Result<(), ContractError>,
    s2: LedgerView,
) -> bool {
    match msg {
        ExecuteMsg::CreateToken(m) => create_token_step(s, m, r, s2),
        ExecuteMsg::CreateBank(m) => create_bank_step(s, m, r, s2),
        ExecuteMsg::SendToBank(m) => send_to_bank_step(s, m, r, s2),
        ExecuteMsg::SendToRecipient { transaction_id } => send_to_recipient_step(
            s,
            transaction_id,
            r,
            s2,
        ),
        ExecuteMsg::SetExchangeRate(m) => set_exchange_rate_step(s, m, r, s2),
    }
}

/// A new, empty ledger.
pub fn instantiate(_msg: InstantiateMsg) -> (r: Ledger)
    ensures
        r@.tokens.is_empty(),
        r@.balances.is_empty(),
        r@.banks.is_empty(),
        r@.transactions.is_empty(),
        r@.exchange_rates.is_empty(),
{
    Ledger::new()
}

/// Carries out a request that changes the ledger.
pub fn execute(ledger: &mut Ledger, msg: ExecuteMsg) -> (r: Result<(), ContractError>)
    ensures
        execute_step(old(ledger)@, msg, r, final(ledger)@),
{
    match msg {
        ExecuteMsg::CreateToken(token_info) => execute_create_token(ledger, token_info),
        ExecuteMsg::CreateBank(bank_info) => execute_create_bank(ledger, bank_info),
        ExecuteMsg::SetExchangeRate(exchange_rate) => execute_set_exchange_rate(
            ledger,
            exchange_rate,
        ),
        ExecuteMsg::SendToBank(transaction_msg) => execute_send_to_bank(ledger, transaction_msg),
        ExecuteMsg::SendToRecipient { transaction_id } => execute_send_to_recipient(
            ledger,
            transaction_id,
        ),
    }
}

} // verus!
