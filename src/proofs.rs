//! Facts about sequences of requests, proved from the contracts of the
//! requests themselves.

use vstd::prelude::*;
use crate::contract::{
    execute_step,
    is_rate_record,
    rate_id,
    send_to_bank_step,
    send_to_recipient_step,
    set_exchange_rate_step,
};
use crate::error::ContractError;
use crate::msg::{ExchangeRateMsg, ExecuteMsg, QueryMsg, QueryResponse, TransactionMsg};
use crate::query::{exchange_rate_info_answer, is_query_answer};
use crate::rate::inverse_rate_of;
use crate::state::{LedgerView, TransactionStatus};

verus! {

/// A transfer that goes through the bank and on to a recipient other than
/// the sender takes exactly its amount from the sender, and leaves the bank
/// with the balance it had before the transfer.
pub proof fn lemma_transfer_conserves(
    s0: LedgerView,
    msg: TransactionMsg,
    s1: LedgerView,
    s2: LedgerView,
)
    requires
        send_to_bank_step(s0, msg, Ok(()), s1),
        send_to_recipient_step(s1, msg.id, Ok(()), s2),
        msg.from@ != msg.to@,
    ensures
        s0.balances[msg.from@].amount == s2.balances[msg.from@].amount + msg.amount,
        s2.banks[msg.bank_id@].balance == s0.banks[msg.bank_id@].balance,
{
    assert(s1.transactions[msg.id@].bank_id == msg.bank_id);
    assert(s1.transactions[msg.id@].to == msg.to);
}

/// Setting a rate from A to B stores it under A + B and its inverse
/// `10^(2 * precision) / rate` under B + A, each with its own pair of
/// denominations, and a query by either id answers with that pair. This holds
/// where the two ids differ; where they are the same, one record overwrites
/// the other.
pub proof fn lemma_rates_symmetric(
    s: LedgerView,
    msg: ExchangeRateMsg,
    s2: LedgerView,
    forward_id: String,
    reverse_id: String,
)
    requires
        set_exchange_rate_step(s, msg, Ok(()), s2),
        forward_id@ == rate_id(msg.denom_from@, msg.denom_to@),
        reverse_id@ == rate_id(msg.denom_to@, msg.denom_from@),
        forward_id@ != reverse_id@,
    ensures
        s2.exchange_rates[forward_id@].rate == msg.rate,
        s2.exchange_rates[reverse_id@].rate == inverse_rate_of(
            msg.precision as nat,
            msg.rate as int,
        ),
        s2.exchange_rates[forward_id@].precision == msg.precision,
        s2.exchange_rates[reverse_id@].precision == msg.precision,
        exchange_rate_info_answer(s2, forward_id) is Ok,
        exchange_rate_info_answer(s2, forward_id)->Ok_0.denom_from == msg.denom_from,
        exchange_rate_info_answer(s2, forward_id)->Ok_0.denom_to == msg.denom_to,
        exchange_rate_info_answer(s2, reverse_id) is Ok,
        exchange_rate_info_answer(s2, reverse_id)->Ok_0.denom_from == msg.denom_to,
        exchange_rate_info_answer(s2, reverse_id)->Ok_0.denom_to == msg.denom_from,
{
    assert(s2.exchange_rates.contains_key(forward_id@));
    assert(s2.exchange_rates.contains_key(reverse_id@));
}

/// A second transfer under an id already used is refused and changes nothing.
/// Where its bank is registered, it is refused because the id is taken.
pub proof fn lemma_no_double_spend(
    s0: LedgerView,
    msg: TransactionMsg,
    s1: LedgerView,
    again: TransactionMsg,
    r: Result<(), ContractError>,
    s2: LedgerView,
)
    requires
        send_to_bank_step(s0, msg, Ok(()), s1),
        send_to_bank_step(s1, again, r, s2),
        again.id@ == msg.id@,
    ensures
        r is Err,
        s2 == s1,
        s1.banks.contains_key(again.bank_id@) ==> r == Err::<(), _>(
            ContractError::TransactionAlreadyExists { id: again.id },
        ),
{
    assert(s1.transactions.contains_key(msg.id@));
}

/// Whether a transaction may go from status `a` to status `b` in one request.
pub open spec fn status_may_follow(a: TransactionStatus, b: TransactionStatus) -> bool {
    a == b || (a == TransactionStatus::SentToBank && b == TransactionStatus::SentToRecipient)
}

/// No request removes a transaction or moves its status backwards or past a
/// stage: a recorded transaction keeps its status or goes from sent to the
/// bank to sent to the recipient, and a new one starts as sent to the bank.
pub proof fn lemma_status_monotonic(
    s: LedgerView,
    msg: ExecuteMsg,
    r: Result<(), ContractError>,
    s2: LedgerView,
)
    requires
        execute_step(s, msg, r, s2),
    ensures
        forall|id: Seq<char>| #[trigger]
            s.transactions.contains_key(id) ==> s2.transactions.contains_key(id)
                && status_may_follow(s.transactions[id].status, s2.transactions[id].status),
        forall|id: Seq<char>| #[trigger]
            s2.transactions.contains_key(id) && !s.transactions.contains_key(id)
                ==> s2.transactions[id].status == TransactionStatus::SentToBank,
{
}

/// Whether two answers to a query carry the same values.
pub open spec fn answers_agree(
    a: Result<QueryResponse, ContractError>,
    b: Result<QueryResponse, ContractError>,
) -> bool {
    match (a, b) {
        (Ok(QueryResponse::TokenInfo(x)), Ok(QueryResponse::TokenInfo(y))) => {
            &&& x.name == y.name
            &&& x.denom == y.denom
            &&& x.total_supply == y.total_supply
            &&& x.initial_balances@ == y.initial_balances@
        },
        _ => a == b,
    }
}

/// A query asked twice of the same ledger gets the same answer.
pub proof fn lemma_queries_repeatable(
    s: LedgerView,
    msg: QueryMsg,
    first: Result<QueryResponse, ContractError>,
    second: Result<QueryResponse, ContractError>,
)
    requires
        is_query_answer(s, msg, first),
        is_query_answer(s, msg, second),
    ensures
        answers_agree(first, second),
{
}

} // verus!
