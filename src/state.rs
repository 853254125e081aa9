//! The records of the ledger and the ledger itself.

use vstd::prelude::*;
use crate::table::Table;

verus! {

/// An amount assigned to an address.
#[derive(Clone, Debug, PartialEq, Eq)]
pub struct InitialBalance {
    pub address: String,
    pub amount: u128,
}

impl InitialBalance {
    /// A copy of the record.
    pub fn duplicate(&self) -> (r: InitialBalance)
        ensures
            r == *self,
    {
        InitialBalance { address: self.address.clone(), amount: self.amount }
    }
}

/// A copy of each record of `balances`, in order.
pub fn duplicate_balances(balances: &Vec<InitialBalance>) -> (r: Vec<InitialBalance>)
    ensures
        r@ == balances@,
{
    let mut r: Vec<InitialBalance> = Vec::new();
    let mut i: usize = 0;
    while i < balances.len()
        invariant
            i <= balances@.len(),
            r@ == balances@.take(i as int),
        decreases balances@.len() - i,
    {
        r.push(balances[i].duplicate());
        i = i + 1;
        assert(r@ =~= balances@.take(i as int));
    }
    assert(balances@.take(i as int) =~= balances@);
    r
}

/// A denomination, with the allocations it was created with.
#[derive(Clone, Debug, PartialEq, Eq)]
pub struct TokenInfo {
    pub denom: String,
    pub name: String,
    pub total_supply: u128,
    pub initial_balances: Vec<InitialBalance>,
}

/// What an account holds: an amount of one denomination.
#[derive(Clone, Debug, PartialEq, Eq)]
pub struct BalanceInfo {
    pub amount: u128,
    pub denom: String,
}

/// An escrow pool that holds funds between the two legs of a transfer.
#[derive(Clone, Debug, PartialEq, Eq)]
pub struct BankInfo {
    pub id: String,
    pub name: String,
    pub balance: u128,
}

impl BalanceInfo {
    /// A copy of the record.
    pub fn duplicate(&self) -> (r: BalanceInfo)
        ensures
            r == *self,
    {
        BalanceInfo { amount: self.amount, denom: self.denom.clone() }
    }
}

/// Where a transfer stands.
#[derive(Clone, Copy, Debug, PartialEq, Eq, Structural)]
pub enum TransactionStatus {
    Initial,
    SentToBank,
    SentToRecipient,
    RejectedByBank,
}

/// A rate from one denomination to another: `rate / 10^precision`.
#[derive(Clone, Debug, PartialEq, Eq)]
pub struct ExchangeRateInfo {
    pub id: String,
    pub denom_from: String,
    pub denom_to: String,
    pub precision: u32,
    pub rate: u64,
}

impl ExchangeRateInfo {
    /// A copy of the record.
    pub fn duplicate(&self) -> (r: ExchangeRateInfo)
        ensures
            r == *self,
    {
        ExchangeRateInfo {
            id: self.id.clone(),
            denom_from: self.denom_from.clone(),
            denom_to: self.denom_to.clone(),
            precision: self.precision,
            rate: self.rate,
        }
    }
}

/// One transfer from `from` to `to` through the bank `bank_id`.
#[derive(Clone, Debug, PartialEq, Eq)]
pub struct TransactionInfo {
    pub id: String,
    pub bank_id: String,
    pub from: String,
    pub to: String,
    pub amount: u128,
    pub denom_from: String,
    pub denom_to: String,
    pub status: TransactionStatus,
}

impl TransactionInfo {
    /// Sets the status and returns a copy of the updated record.
    pub fn update_status(&mut self, status: TransactionStatus) -> (r: TransactionInfo)
        ensures
            *final(self) == (TransactionInfo { status, ..*old(self) }),
            r == *final(self),
    {
        self.status = status;
        self.duplicate()
    }

    /// A copy of the record.
    pub fn duplicate(&self) -> (r: TransactionInfo)
        ensures
            r == *self,
    {
        TransactionInfo {
            id: self.id.clone(),
            bank_id: self.bank_id.clone(),
            from: self.from.clone(),
            to: self.to.clone(),
            amount: self.amount,
            denom_from: self.denom_from.clone(),
            denom_to: self.denom_to.clone(),
            status: self.status,
        }
    }
}

impl BankInfo {
    /// Adds `amount` to the balance and returns a copy of the updated record.
    pub fn income(&mut self, amount: u128) -> (r: BankInfo)
        requires
            old(self).balance + amount <= u128::MAX,
        ensures
            *final(self) == (BankInfo { balance: (old(self).balance + amount) as u128, ..*old(self) }),
            r == *final(self),
    {
        self.balance = self.balance + amount;
        self.duplicate()
    }

    /// Takes `amount` from the balance and returns a copy of the updated record.
    pub fn outcome(&mut self, amount: u128) -> (r: BankInfo)
        requires
            amount <= old(self).balance,
        ensures
            *final(self) == (BankInfo { balance: (old(self).balance - amount) as u128, ..*old(self) }),
            r == *final(self),
    {
        self.balance = self.balance - amount;
        self.duplicate()
    }

    /// A copy of the record.
    pub fn duplicate(&self) -> (r: BankInfo)
        ensures
            r == *self,
    {
        BankInfo { id: self.id.clone(), name: self.name.clone(), balance: self.balance }
    }
}

/// The five namespaces of the ledger, keyed by denomination, address, bank id,
/// transaction id and exchange rate id.
pub struct Ledger {
    pub tokens: Table<TokenInfo>,
    pub balances: Table<BalanceInfo>,
    pub banks: Table<BankInfo>,
    pub transactions: Table<TransactionInfo>,
    pub exchange_rates: Table<ExchangeRateInfo>,
}

/// The ledger as five maps from keys to records.
pub ghost struct LedgerView {
    pub tokens: Map<Seq<char>, TokenInfo>,
    pub balances: Map<Seq<char>, BalanceInfo>,
    pub banks: Map<Seq<char>, BankInfo>,
    pub transactions: Map<Seq<char>, TransactionInfo>,
    pub exchange_rates: Map<Seq<char>, ExchangeRateInfo>,
}

impl View for Ledger {
    type V = LedgerView;

    open spec fn view(&self) -> LedgerView {
        LedgerView {
            tokens: self.tokens@,
            balances: self.balances@,
            banks: self.banks@,
            transactions: self.transactions@,
            exchange_rates: self.exchange_rates@,
        }
    }
}

impl Ledger {
    /// A ledger with nothing in it.
    pub fn new() -> (r: Ledger)
        ensures
            r@.tokens.is_empty(),
            r@.balances.is_empty(),
            r@.banks.is_empty(),
            r@.transactions.is_empty(),
            r@.exchange_rates.is_empty(),
    {
        Ledger {
            tokens: Table::new(),
            balances: Table::new(),
            banks: Table::new(),
            transactions: Table::new(),
            exchange_rates: Table::new(),
        }
    }
}

} // verus!
