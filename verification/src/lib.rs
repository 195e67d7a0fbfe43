//! The execution core of a ledger client: request envelopes that freeze before they
//! are signed, chunk planning for oversized payloads, signature collection, the
//! retry and node-rotation policy of submission, and entity-identifier checksums.
//!
//! Every function here carries a contract. Verus proves all of them but one: what the
//! reading of the clock returns is believed, not proved, and the signatures that a
//! signing capability returns are taken as they come. Network transport and the binary
//! wire codec stay outside: the library hands plain values to them and takes plain
//! values back.

pub mod any_transaction;
pub mod bytes;
pub mod chunk;
pub mod client;
pub mod contract_execute_transaction;
pub mod duration;
pub mod entity_id;
pub mod error;
pub mod ethereum_transaction;
pub mod execution;
pub mod file_append_transaction;
pub mod hbar;
pub mod query;
pub mod schedule_info_query;
pub mod signer;
pub mod token_unpause_transaction;
pub mod transaction;
pub mod transaction_id;
pub mod wire;

pub use entity_id::{AccountId, Checksum, ContractId, EntityId, FileId, LedgerId, ScheduleId, TokenId};
pub use any_transaction::{AnyTransaction, AnyTransactionData};
pub use chunk::{Chunk, ChunkInfo};
pub use client::{draw_node_ids, ClientContext, Operator};
pub use contract_execute_transaction::{ContractExecuteTransaction, ContractExecuteTransactionData};
pub use duration::{Duration, Timestamp};
pub use error::{Cause, Error};
pub use ethereum_transaction::{EthereumTransaction, EthereumTransactionData};
pub use execution::{
    Action, EngineConfig, EngineState, Event, Execution, RetryPolicy, StatusClass, StatusTable,
};
pub use file_append_transaction::{FileAppendTransaction, FileAppendTransactionData};
pub use hbar::Hbar;
pub use query::Query;
pub use schedule_info_query::{AnyQueryData, ScheduleInfoQuery, ScheduleInfoQueryData};
pub use signer::{KeyKind, PrivateKey, PublicKey, SignaturePair, Signer, SignerEntry, SignerSet, SigningCapability};
pub use token_unpause_transaction::{TokenUnpauseTransaction, TokenUnpauseTransactionData};
pub use transaction::{resolve_fee, EmptyData, Transaction, TransactionExecute, TransactionView};
pub use transaction_id::TransactionId;
pub use wire::{
    NodeMessage, ServiceMethod, SignedTransaction, WireBodyData, WireQueryData, WireSchedulableData,
    WireTransactionBody,
};
