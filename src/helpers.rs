//! Assigning the initial balances of a new token.

use vstd::prelude::*;
use crate::error::ContractError;
use crate::state::{BalanceInfo, InitialBalance, Ledger, LedgerView};

verus! {

/// The sum of the amounts of `accounts`.
pub open spec fn total_of(accounts: Seq<InitialBalance>) -> int
    decreases accounts.len(),
{
    if accounts.len() == 0 {
        0
    } else {
        total_of(accounts.drop_last()) + accounts.last().amount
    }
}

/// `balances` after each of `accounts`, in order, has been given its amount in
/// `denom`, replacing what its address held.
pub open spec fn assigned(
    balances: Map<Seq<char>, BalanceInfo>,
    accounts: Seq<InitialBalance>,
    denom: String,
) -> Map<Seq<char>, BalanceInfo>
    decreases accounts.len(),
{
    if accounts.len() == 0 {
        balances
    } else {
        assigned(balances, accounts.drop_last(), denom).insert(
            accounts.last().address@,
            BalanceInfo { amount: accounts.last().amount, denom },
        )
    }
}

/// A prefix of `accounts` totals no more than all of them.
pub proof fn lemma_total_of_prefix(accounts: Seq<InitialBalance>, i: int)
    requires
        0 <= i <= accounts.len(),
    ensures
        0 <= total_of(accounts.take(i)) <= total_of(accounts),
    decreases accounts.len(),
{
    if accounts.len() > 0 {
        if i == accounts.len() {
            assert(accounts.take(i) =~= accounts);
            lemma_total_of_prefix(accounts.drop_last(), i - 1);
            assert(accounts.drop_last().take(i - 1) =~= accounts.take(i).drop_last().take(i - 1));
        } else {
            lemma_total_of_prefix(accounts.drop_last(), i);
            assert(accounts.drop_last().take(i) =~= accounts.take(i));
        }
    }
}

/// Gives each account its amount in `denom` and returns the total, or, where
/// the total does not fit in a `u128`, refuses and changes nothing.
pub fn create_accounts(ledger: &mut Ledger, accounts: &[InitialBalance], denom: String) -> (r:
    Result<u128, ContractError>)
    ensures
        total_of(accounts@) > u128::MAX ==> r == Err::<u128, _>(ContractError::Overflow {  })
            && final(ledger)@ == old(ledger)@,
        total_of(accounts@) <= u128::MAX ==> r == Ok::<u128, ContractError>(
            total_of(accounts@) as u128,
        ) && final(ledger)@ == (LedgerView {
            balances: assigned(old(ledger)@.balances, accounts@, denom),
            ..old(ledger)@
        }),
{
    let mut total_supply: u128 = 0;
    let mut i: usize = 0;
    while i < accounts.len()
        invariant
            i <= accounts@.len(),
            total_supply == total_of(accounts@.take(i as int)),
        decreases accounts@.len() - i,
    {
        assert(accounts@.take(i + 1).drop_last() =~= accounts@.take(i as int));
        match total_supply.checked_add(accounts[i].amount) {
            Some(t) => total_supply = t,
            None => {
                proof {
                    lemma_total_of_prefix(accounts@, i + 1);
                }
                return Err(ContractError::Overflow {  });
            },
        }
        i = i + 1;
    }
    assert(accounts@.take(i as int) =~= accounts@);
    let ghost start = ledger@;
    let mut j: usize = 0;
    while j < accounts.len()
        invariant
            j <= accounts@.len(),
            ledger@ == (LedgerView {
                balances: assigned(start.balances, accounts@.take(j as int), denom),
                ..start
            }),
        decreases accounts@.len() - j,
    {
        assert(accounts@.take(j + 1).drop_last() =~= accounts@.take(j as int));
        let balance = BalanceInfo { amount: accounts[j].amount, denom: denom.clone() };
        ledger.balances.insert(accounts[j].address.clone(), balance);
        j = j + 1;
    }
    assert(accounts@.take(j as int) =~= accounts@);
    Ok(total_supply)
}

} // verus!
