//! Read-only answers about the ledger.

use vstd::prelude::*;
use crate::error::ContractError;
use crate::msg::{
    BalanceResponse,
    BankInfoResponse,
    ExchangeRateInfoResponse,
    QueryMsg,
    QueryResponse,
    TokenInfoResponse,
    TransactionInfoResponse,
};
use crate::state::{duplicate_balances, Ledger, LedgerView};

verus! {

/// The answer to a query for the balance of `address`.
pub open spec fn balance_answer(s: LedgerView, address: String) -> Result<
    BalanceResponse,
    ContractError,
> {
    if s.balances.contains_key(address@) {
        let b = s.balances[address@];
        Ok(BalanceResponse { amount: b.amount, denom: b.denom })
    } else {
        Err(ContractError::AccountDoesNotExist { account: address })
    }
}

/// Whether `r` answers a query for the token `denom`: the list of initial
/// balances is a copy of the stored one.
pub open spec fn is_token_info_answer(
    s: LedgerView,
    denom: String,
    r: Result<TokenInfoResponse, ContractError>,
) -> bool {
    if s.tokens.contains_key(denom@) {
        let t = s.tokens[denom@];
        &&& r is Ok
        &&& r->Ok_0.name == t.name
        &&& r->Ok_0.denom == t.denom
        &&& r->Ok_0.total_supply == t.total_supply
        &&& r->Ok_0.initial_balances@ == t.initial_balances@
    } else {
        r == Err::<TokenInfoResponse, _>(ContractError::TokenNotRegistered { denom })
    }
}

/// The answer to a query for the bank `id`.
pub open spec fn bank_info_answer(s: LedgerView, id: String) -> Result<
    BankInfoResponse,
    ContractError,
> {
    if s.banks.contains_key(id@) {
        let b = s.banks[id@];
        Ok(BankInfoResponse { id: b.id, name: b.name, balance: b.balance })
    } else {
        Err(ContractError::BankNotRegistered { id })
    }
}

/// The answer to a query for the transaction `id`.
pub open spec fn transaction_info_answer(s: LedgerView, id: String) -> Result<
    TransactionInfoResponse,
    ContractError,
> {
    if s.transactions.contains_key(id@) {
        let t = s.transactions[id@];
        Ok(
            TransactionInfoResponse {
                id: t.id,
                bank_id: t.bank_id,
                from: t.from,
                to: t.to,
                amount: t.amount,
                denom_from: t.denom_from,
                denom_to: t.denom_to,
                status: t.status,
            },
        )
    } else {
        Err(ContractError::TransactionDoesNotExist { id })
    }
}

/// The answer to a query for the exchange rate `id`.
pub open spec fn exchange_rate_info_answer(s: LedgerView, id: String) -> Result<
    ExchangeRateInfoResponse,
    ContractError,
> {
    if s.exchange_rates.contains_key(id@) {
        let x = s.exchange_rates[id@];
        Ok(
            ExchangeRateInfoResponse {
                id: x.id,
                denom_from: x.denom_from,
                denom_to: x.denom_to,
                rate: x.rate,
                precision: x.precision,
            },
        )
    } else {
        Err(ContractError::ExchangeRateDoesNotExist { id })
    }
}

/// The amount and denomination that `address` holds.
pub fn query_balance(ledger: &Ledger, address: String) -> (r: Result<
    BalanceResponse,
    ContractError,
>)
    ensures
        r == balance_answer(ledger@, address),
{
    match ledger.balances.get(&address) {
        Some(b) => Ok(BalanceResponse { amount: b.amount, denom: b.denom.clone() }),
        None => Err(ContractError::AccountDoesNotExist { account: address }),
    }
}

/// The token registered under `denom`.
pub fn query_token_info(ledger: &Ledger, denom: String) -> (r: Result<
    TokenInfoResponse,
    ContractError,
>)
    ensures
        is_token_info_answer(ledger@, denom, r),
{
    match ledger.tokens.get(&denom) {
        Some(info) => Ok(
            TokenInfoResponse {
                name: info.name.clone(),
                denom: info.denom.clone(),
                total_supply: info.total_supply,
                initial_balances: duplicate_balances(&info.initial_balances),
            },
        ),
        None => Err(ContractError::TokenNotRegistered { denom }),
    }
}

/// The bank registered under `id`.
pub fn query_bank_info(ledger: &Ledger, id: String) -> (r: Result<
    BankInfoResponse,
    ContractError,
>)
    ensures
        r == bank_info_answer(ledger@, id),
{
    match ledger.banks.get(&id) {
        Some(item) => Ok(
            BankInfoResponse {
                id: item.id.clone(),
                name: item.name.clone(),
                balance: item.balance,
            },
        ),
        None => Err(ContractError::BankNotRegistered { id }),
    }
}

/// The transaction recorded under `id`.
pub fn query_transaction_info(ledger: &Ledger, id: String) -> (r: Result<
    TransactionInfoResponse,
    ContractError,
>)
    ensures
        r == transaction_info_answer(ledger@, id),
{
    match ledger.transactions.get(&id) {
        Some(item) => Ok(
            TransactionInfoResponse {
                id: item.id.clone(),
                bank_id: item.bank_id.clone(),
                from: item.from.clone(),
                to: item.to.clone(),
                amount: item.amount,
                denom_from: item.denom_from.clone(),
                denom_to: item.denom_to.clone(),
                status: item.status,
            },
        ),
        None => Err(ContractError::TransactionDoesNotExist { id }),
    }
}

/// The exchange rate recorded under `id`.
pub fn query_exchange_rate_info(ledger: &Ledger, id: String) -> (r: Result<
    ExchangeRateInfoResponse,
    ContractError,
>)
    ensures
        r == exchange_rate_info_answer(ledger@, id),
{
    match ledger.exchange_rates.get(&id) {
        Some(item) => Ok(
            ExchangeRateInfoResponse {
                id: item.id.clone(),
                denom_from: item.denom_from.clone(),
                denom_to: item.denom_to.clone(),
                rate: item.rate,
                precision: item.precision,
            },
        ),
        None => Err(ContractError::ExchangeRateDoesNotExist { id }),
    }
}

/// Whether `r` answers the query `msg` on the ledger `s`.
pub open spec fn is_query_answer(
    s: LedgerView,
    msg: QueryMsg,
    r: Result<QueryResponse, ContractError>,
) -> bool {
    match msg {
        QueryMsg::Balance { address } => match balance_answer(s, address) {
            Ok(a) => r == Ok::<_, ContractError>(QueryResponse::Balance(a)),
            Err(e) => r == Err::<QueryResponse, _>(e),
        },
        QueryMsg::TokenInfo { denom } => match r {
            Ok(QueryResponse::TokenInfo(a)) => is_token_info_answer(s, denom, Ok(a)),
            Ok(_) => false,
            Err(e) => is_token_info_answer(s, denom, Err(e)),
        },
        QueryMsg::ExchangeRateInfo { id } => match exchange_rate_info_answer(s, id) {
            Ok(a) => r == Ok::<_, ContractError>(QueryResponse::ExchangeRateInfo(a)),
            Err(e) => r == Err::<QueryResponse, _>(e),
        },
        QueryMsg::BankInfo { id } => match bank_info_answer(s, id) {
            Ok(a) => r == Ok::<_, ContractError>(QueryResponse::BankInfo(a)),
            Err(e) => r == Err::<QueryResponse, _>(e),
        },
        QueryMsg::TransactionInfo { id } => match transaction_info_answer(s, id) {
            Ok(a) => r == Ok::<_, ContractError>(QueryResponse::TransactionInfo(a)),
            Err(e) => r == Err::<QueryResponse, _>(e),
        },
    }
}

/// Answers a query. The ledger is only read.
pub fn query(ledger: &Ledger, msg: QueryMsg) -> (r: Result<QueryResponse, ContractError>)
    ensures
        is_query_answer(ledger@, msg, r),
{
    match msg {
        QueryMsg::Balance { address } => match query_balance(ledger, address) {
            Ok(a) => Ok(QueryResponse::Balance(a)),
            Err(e) => Err(e),
        },
        QueryMsg::TokenInfo { denom } => match query_token_info(ledger, denom) {
            Ok(a) => Ok(QueryResponse::TokenInfo(a)),
            Err(e) => Err(e),
        },
        QueryMsg::BankInfo { id } => match query_bank_info(ledger, id) {
            Ok(a) => Ok(QueryResponse::BankInfo(a)),
            Err(e) => Err(e),
        },
        QueryMsg::TransactionInfo { id } => match query_transaction_info(ledger, id) {
            Ok(a) => Ok(QueryResponse::TransactionInfo(a)),
            Err(e) => Err(e),
        },
        QueryMsg::ExchangeRateInfo { id } => match query_exchange_rate_info(ledger, id) {
            Ok(a) => Ok(QueryResponse::ExchangeRateInfo(a)),
            Err(e) => Err(e),
        },
    }
}

} // verus!
