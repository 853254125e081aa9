//! Requests to the ledger and its answers to queries.

use vstd::prelude::*;
use crate::state::{BankInfo, InitialBalance, TransactionStatus};

verus! {

/// The request that sets a ledger up. It carries nothing.
#[derive(Clone, Debug, PartialEq, Eq)]
pub struct InstantiateMsg {}

/// The requests that change the ledger.
#[derive(Clone, Debug, PartialEq, Eq)]
pub enum ExecuteMsg {
    CreateToken(TokenInfoMsg),
    CreateBank(BankInfo),
    SendToBank(TransactionMsg),
    SendToRecipient { transaction_id: String },
    SetExchangeRate(ExchangeRateMsg),
}

/// The requests that read the ledger.
#[derive(Clone, Debug, PartialEq, Eq)]
pub enum QueryMsg {
    Balance { address: String },
    TokenInfo { denom: String },
    ExchangeRateInfo { id: String },
    BankInfo { id: String },
    TransactionInfo { id: String },
}

#[derive(Clone, Debug, PartialEq, Eq)]
pub struct BalanceResponse {
    pub amount: u128,
    pub denom: String,
}

/// A new denomination and the amounts it assigns to addresses.
#[derive(Clone, Debug, PartialEq, Eq)]
pub struct TokenInfoMsg {
    pub denom: String,
    pub name: String,
    pub initial_balances: Vec<InitialBalance>,
}

/// The rate from `denom_from` to `denom_to`: `rate / 10^precision`.
#[derive(Clone, Debug, PartialEq, Eq)]
pub struct ExchangeRateMsg {
    pub denom_from: String,
    pub denom_to: String,
    pub precision: u32,
    pub rate: u64,
}

#[derive(Clone, Debug, PartialEq, Eq)]
pub struct TokenInfoResponse {
    pub name: String,
    pub denom: String,
    pub total_supply: u128,
    pub initial_balances: Vec<InitialBalance>,
}

/// A transfer of `amount` from `from` to `to` through the bank `bank_id`.
#[derive(Clone, Debug, PartialEq, Eq)]
pub struct TransactionMsg {
    pub id: String,
    pub bank_id: String,
    pub from: String,
    pub to: String,
    pub amount: u128,
}

#[derive(Clone, Debug, PartialEq, Eq)]
pub struct TransactionInfoResponse {
    pub id: String,
    pub bank_id: String,
    pub from: String,
    pub to: String,
    pub amount: u128,
    pub denom_from: String,
    pub denom_to: String,
    pub status: TransactionStatus,
}

#[derive(Clone, Debug, PartialEq, Eq)]
pub struct ExchangeRateInfoResponse {
    pub id: String,
    pub denom_from: String,
    pub denom_to: String,
    pub rate: u64,
    pub precision: u32,
}

#[derive(Clone, Debug, PartialEq, Eq)]
pub struct BankInfoResponse {
    pub id: String,
    pub name: String,
    pub balance: u128,
}

/// The answer to a `QueryMsg`, one variant for each kind of query.
#[derive(Clone, Debug, PartialEq, Eq)]
pub enum QueryResponse {
    Balance(BalanceResponse),
    TokenInfo(TokenInfoResponse),
    ExchangeRateInfo(ExchangeRateInfoResponse),
    BankInfo(BankInfoResponse),
    TransactionInfo(TransactionInfoResponse),
}

} // verus!
