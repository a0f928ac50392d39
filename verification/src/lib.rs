//! A request/callback protocol between a requesting program and an oracle
//! program that share one ledger.
//!
//! The requester asks a question and names the entry point on which it wants
//! the answer; the oracle later calls that entry point back. This crate holds
//! the rules of that exchange as functions on plain values: how an entry
//! point's selector is derived from its name, which accounts and signers a
//! call must bring before any state is touched, what the outbound request
//! carries, and how a delivered answer changes the requester's record.

pub mod account;
pub mod address;
pub mod ask_oracle;
pub mod commit;
pub mod error;
pub mod initialize;
pub mod receive_answer;
pub mod registry;
pub mod selector;

pub use account::{AccountRef, AgentEvent, UserAccount, UserAccountEntry};
pub use ask_oracle::{ask_oracle, AskOracle, CallbackAccountMeta, OracleRequest};
pub use commit::{update_commit, UpdateCommit};
pub use error::ProtocolError;
pub use initialize::{initialize, Initialize};
pub use receive_answer::{receive_answer, ReceiveAnswerContext};
pub use selector::get_sighash;
