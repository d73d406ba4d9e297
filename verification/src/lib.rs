//! A staking-based prediction-round settlement engine.
//!
//! Participants stake value on a predicted return of a target asset. A round
//! moves from its lobby (`Announced`) to `Open` once enough stake or players
//! have joined, and ends `Resolved` or `Canceled`. Winners of a resolved
//! round share a fixed part of the pot; entries of a canceled round are
//! refunded.
//!
//! Every operation works on plain records and takes the caller's identity and
//! the current time as arguments. Moving funds and storing records is left to
//! the caller: an operation returns what is to be stored or paid.

pub mod errors;
pub mod ledger;
pub mod lifecycle;
pub mod settlement;
pub mod state;

pub use errors::OracleError;
pub use ledger::{EntryLedger, LedgerError};
pub use lifecycle::{
    cancel_round, check_admission, create_round, initialize, resolve_round, submit_entry,
};
pub use settlement::{claim_reward, refund_entry, reward_for};
pub use state::{AccountId, Entry, GlobalConfig, Round, RoundStatus};
