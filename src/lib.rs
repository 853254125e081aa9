//! A ledger of tokens, account balances, escrow banks, exchange rates and
//! transfers, with every state transition stated and proved.

pub mod contract;
pub mod error;
pub mod helpers;
pub mod msg;
pub mod proofs;
pub mod query;
pub mod rate;
pub mod state;
pub mod table;
