//! The wire schema in plain values: what the binary codec encodes and decodes.

use vstd::prelude::*;

use crate::bytes::equal_bytes;
use crate::entity_id::{same_optional_id, AccountId, ContractId, FileId, ScheduleId, TokenId};
use crate::signer::SignaturePair;
use crate::transaction_id::TransactionId;

verus! {

/// The operation-specific part of a request body as the wire schema has it, one arm per
/// payload kind, in plain values.
#[derive(Clone, Debug, PartialEq, Eq)]
pub enum WireBodyData {
    ContractCall { contract_id: Option<ContractId>, gas: i64, amount: i64, function_parameters: Vec<u8> },
    EthereumTransaction { ethereum_data: Vec<u8>, call_data: Option<FileId>, max_gas_allowance: i64 },
    TokenUnpause { token: Option<TokenId> },
    FileAppend { file_id: Option<FileId>, contents: Vec<u8> },
}

/// A `WireBodyData` as a value.
pub enum WireBodyDataView {
    ContractCall { contract_id: Option<ContractId>, gas: i64, amount: i64, function_parameters: Seq<u8> },
    EthereumTransaction { ethereum_data: Seq<u8>, call_data: Option<FileId>, max_gas_allowance: i64 },
    TokenUnpause { token: Option<TokenId> },
    FileAppend { file_id: Option<FileId>, contents: Seq<u8> },
}

impl View for WireBodyData {
    type V = WireBodyDataView;

    open spec fn view(&self) -> WireBodyDataView {
        match *self {
            WireBodyData::ContractCall { contract_id, gas, amount, function_parameters } => {
                WireBodyDataView::ContractCall {
                    contract_id,
                    gas,
                    amount,
                    function_parameters: function_parameters@,
                }
            },
            WireBodyData::EthereumTransaction { ethereum_data, call_data, max_gas_allowance } => {
                WireBodyDataView::EthereumTransaction {
                    ethereum_data: ethereum_data@,
                    call_data,
                    max_gas_allowance,
                }
            },
            WireBodyData::TokenUnpause { token } => WireBodyDataView::TokenUnpause { token },
            WireBodyData::FileAppend { file_id, contents } => {
                WireBodyDataView::FileAppend { file_id, contents: contents@ }
            },
        }
    }
}

impl WireBodyData {
    /// Whether the two hold the same values.
    pub fn same_as(&self, other: &WireBodyData) -> (same: bool)
        ensures
            same == (self@ == other@),
    {
        match (self, other) {
            (
                WireBodyData::ContractCall { contract_id, gas, amount, function_parameters },
                WireBodyData::ContractCall {
                    contract_id: contract_id2,
                    gas: gas2,
                    amount: amount2,
                    function_parameters: function_parameters2,
                },
            ) => {
                same_optional_id(contract_id, contract_id2) && *gas == *gas2 && *amount == *amount2
                    && equal_bytes(function_parameters.as_slice(), function_parameters2.as_slice())
            },
            (
                WireBodyData::EthereumTransaction { ethereum_data, call_data, max_gas_allowance },
                WireBodyData::EthereumTransaction {
                    ethereum_data: ethereum_data2,
                    call_data: call_data2,
                    max_gas_allowance: max_gas_allowance2,
                },
            ) => {
                equal_bytes(ethereum_data.as_slice(), ethereum_data2.as_slice())
                    && same_optional_id(call_data, call_data2) && *max_gas_allowance
                    == *max_gas_allowance2
            },
            (WireBodyData::TokenUnpause { token }, WireBodyData::TokenUnpause { token: token2 }) => {
                same_optional_id(token, token2)
            },
            (
                WireBodyData::FileAppend { file_id, contents },
                WireBodyData::FileAppend { file_id: file_id2, contents: contents2 },
            ) => {
                same_optional_id(file_id, file_id2) && equal_bytes(
                    contents.as_slice(),
                    contents2.as_slice(),
                )
            },
            _ => false,
        }
    }
}

/// The operation-specific part of a request that is to be scheduled rather than run at
/// once, for the payload kinds that can be scheduled.
#[derive(Clone, Copy, Debug, PartialEq, Eq)]
pub enum WireSchedulableData {
    TokenUnpause { token: Option<TokenId> },
}

/// The network service method that takes requests of one payload kind.
#[derive(Clone, Copy, Debug, PartialEq, Eq)]
pub enum ServiceMethod {
    ContractCallMethod,
    CallEthereum,
    UnpauseToken,
    AppendContent,
    GetScheduleInfo,
}

/// The operation-specific part of a query as the wire schema has it, one arm per query
/// kind, in plain values.
#[derive(Clone, Copy, Debug, PartialEq, Eq)]
pub enum WireQueryData {
    ScheduleGetInfo { schedule_id: Option<ScheduleId> },
}

/// One request body as the wire schema has it, in plain values: what is encoded, signed
/// and sent to one node.
#[derive(Clone, Debug, PartialEq, Eq)]
pub struct WireTransactionBody {
    pub transaction_id: TransactionId,
    pub node_account_id: AccountId,
    pub transaction_fee: u64,
    pub transaction_valid_duration: i64,
    pub memo: String,
    pub data: WireBodyData,
}

/// A `WireTransactionBody` as a value.
pub struct WireTransactionBodyView {
    pub transaction_id: TransactionId,
    pub node_account_id: AccountId,
    pub transaction_fee: u64,
    pub transaction_valid_duration: i64,
    pub memo: Seq<char>,
    pub data: WireBodyDataView,
}

impl View for WireTransactionBody {
    type V = WireTransactionBodyView;

    open spec fn view(&self) -> WireTransactionBodyView {
        WireTransactionBodyView {
            transaction_id: self.transaction_id,
            node_account_id: self.node_account_id,
            transaction_fee: self.transaction_fee,
            transaction_valid_duration: self.transaction_valid_duration,
            memo: self.memo@,
            data: self.data@,
        }
    }
}

impl WireTransactionBodyView {
    /// Whether the two bodies are the same request for different nodes: they agree in
    /// everything but the node.
    pub open spec fn same_request(self, other: WireTransactionBodyView) -> bool {
        self == (WireTransactionBodyView { node_account_id: self.node_account_id, ..other })
    }
}

impl WireTransactionBody {
    /// Whether the two bodies are the same request for different nodes: they agree in
    /// everything but the node.
    pub fn same_request(&self, other: &WireTransactionBody) -> (same: bool)
        ensures
            same == self@.same_request(other@),
    {
        self.transaction_id.same_as(&other.transaction_id) && self.transaction_fee
            == other.transaction_fee && self.transaction_valid_duration
            == other.transaction_valid_duration && self.memo == other.memo && self.data.same_as(
            &other.data,
        )
    }
}

/// The encoded body of the request for one node.
#[derive(Clone, Debug, PartialEq, Eq)]
pub struct NodeMessage {
    pub node_account_id: AccountId,
    pub body_bytes: Vec<u8>,
}

/// The signed message for one node: the encoded body exactly as it was signed, and the
/// signatures over it in signer order.
#[derive(Clone, Debug, PartialEq, Eq)]
pub struct SignedTransaction {
    pub node_account_id: AccountId,
    pub body_bytes: Vec<u8>,
    pub sig_pairs: Vec<SignaturePair>,
}

} // verus!
