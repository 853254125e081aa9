//! Why a request was refused.

use vstd::prelude::*;

verus! {

/// The reasons for which the ledger refuses a request. A refused request
/// leaves the ledger as it was.
#[derive(Clone, Debug, PartialEq, Eq)]
pub enum ContractError {
    /// The caller may not make this request.
    Unauthorized {},
    /// No token is registered under this denomination.
    TokenNotRegistered { denom: String },
    /// A token is already registered under this denomination.
    TokenAlreadyRegistered { denom: String },
    /// No bank is registered under this id.
    BankNotRegistered { id: String },
    /// A bank is already registered under this id.
    BankAlreadyExists { id: String },
    /// No balance is held by this account.
    AccountDoesNotExist { account: String },
    /// The account already holds a balance in this denomination.
    TokenAlreadyAssigned { denom: String },
    /// An account or a bank holds less than the amount asked of it.
    NotEnoughBalance { required: u128, available: u128 },
    /// A transaction is already recorded under this id.
    TransactionAlreadyExists { id: String },
    /// No transaction is recorded under this id.
    TransactionDoesNotExist { id: String },
    /// No exchange rate is recorded under this id.
    ExchangeRateDoesNotExist { id: String },
    /// The transaction is not waiting in a bank, so it cannot be delivered.
    InvalidTransactionState { id: String },
    /// The rate is zero, or its inverse at this precision does not fit in a `u64`.
    InvalidExchangeRate { precision: u32, rate: u64 },
    /// An amount would exceed the largest `u128`.
    Overflow {},
}

} // verus!
