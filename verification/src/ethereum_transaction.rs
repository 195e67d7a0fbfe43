//! The Ethereum transaction payload.

use vstd::prelude::*;

use crate::bytes::copy_bytes;
use crate::chunk::Chunk;
use crate::entity_id::{EntityId, FileId};
use crate::error::Error;
use crate::hbar::Hbar;
use crate::transaction::{EmptyData, Transaction, TransactionExecute, TransactionView};
use crate::wire::{ServiceMethod, WireBodyData, WireBodyDataView, WireSchedulableData};

verus! {

/// Submit an Ethereum transaction.
pub type EthereumTransaction = Transaction<EthereumTransactionData>;

/// What an Ethereum submission carries.
#[derive(Clone, Debug, PartialEq, Eq)]
pub struct EthereumTransactionData {
    /// The raw Ethereum transaction (RLP encoded type 0, 1, and 2).
    pub ethereum_data: Vec<u8>,
    /// For large transactions, the file that holds the call data, which is then left
    /// out of `ethereum_data`.
    pub call_data_file_id: Option<FileId>,
    /// The most the payer is willing to pay to complete the transaction.
    pub max_gas_allowance_hbar: Hbar,
}

impl EmptyData for EthereumTransactionData {
    open spec fn spec_is_empty(&self) -> bool {
        &&& self.ethereum_data@ == Seq::<u8>::empty()
        &&& self.call_data_file_id is None
        &&& self.max_gas_allowance_hbar == (Hbar { tinybars: 0 })
    }

    fn empty() -> (data: Self) {
        EthereumTransactionData {
            ethereum_data: Vec::new(),
            call_data_file_id: None,
            max_gas_allowance_hbar: Hbar::from_tinybars(0),
        }
    }
}

impl TransactionExecute for EthereumTransactionData {
    open spec fn spec_default_max_transaction_fee(&self) -> Hbar {
        Hbar { tinybars: 200_000_000 }
    }

    open spec fn spec_entity_ids(&self) -> Seq<EntityId> {
        match self.call_data_file_id {
            Some(id) => seq![id],
            None => Seq::empty(),
        }
    }

    open spec fn spec_service_method(&self) -> ServiceMethod {
        ServiceMethod::CallEthereum
    }

    open spec fn spec_chunking(&self) -> Option<(Seq<u8>, nat)> {
        None
    }

    open spec fn spec_body_data(&self, slice: Seq<u8>) -> WireBodyDataView {
        WireBodyDataView::EthereumTransaction {
            ethereum_data: self.ethereum_data@,
            call_data: self.call_data_file_id,
            max_gas_allowance: self.max_gas_allowance_hbar.tinybars,
        }
    }

    open spec fn spec_schedulable_data(&self) -> Option<WireSchedulableData> {
        None
    }

    fn default_max_transaction_fee(&self) -> (fee: Hbar) {
        Hbar::from_tinybars(200_000_000)
    }

    fn entity_ids(&self) -> (ids: Vec<EntityId>) {
        let mut ids: Vec<EntityId> = Vec::new();
        match self.call_data_file_id {
            Some(id) => {
                ids.push(id);
                assert(ids@ =~= seq![id]);
            },
            None => {},
        }
        ids
    }

    fn service_method(&self) -> (method: ServiceMethod) {
        ServiceMethod::CallEthereum
    }

    fn chunking(&self) -> (c: Option<(&Vec<u8>, usize)>) {
        None
    }

    fn to_transaction_data(&self, chunk: &Chunk) -> (r: Result<WireBodyData, Error>) {
        if !chunk.info.is_single() {
            return Err(Error::UnsupportedChunking);
        }
        Ok(
            WireBodyData::EthereumTransaction {
                ethereum_data: copy_bytes(self.ethereum_data.as_slice()),
                call_data: self.call_data_file_id,
                max_gas_allowance: self.max_gas_allowance_hbar.to_tinybars(),
            },
        )
    }

    fn to_schedulable_transaction_data(&self) -> (r: Option<WireSchedulableData>) {
        None
    }
}

impl EthereumTransactionData {
    /// Reads the payload back from its wire form. Fails where `data` is the wire form
    /// of another payload kind.
    pub fn from_wire(data: WireBodyData) -> (r: Result<Self, Error>)
        ensures
            r is Ok <==> data is EthereumTransaction,
            r is Ok ==> r->Ok_0 == (EthereumTransactionData {
                ethereum_data: data->EthereumTransaction_ethereum_data,
                call_data_file_id: data->EthereumTransaction_call_data,
                max_gas_allowance_hbar: Hbar { tinybars: data->EthereumTransaction_max_gas_allowance },
            }),
            r is Err ==> r->Err_0 == Error::SerializationError,
    {
        match data {
            WireBodyData::EthereumTransaction { ethereum_data, call_data, max_gas_allowance } => Ok(
                EthereumTransactionData {
                    ethereum_data,
                    call_data_file_id: call_data,
                    max_gas_allowance_hbar: Hbar::from_tinybars(max_gas_allowance),
                },
            ),
            _ => Err(Error::SerializationError),
        }
    }
}

impl EthereumTransaction {
    /// The raw Ethereum transaction (RLP encoded type 0, 1, and 2).
    pub fn get_ethereum_data(&self) -> (data: &[u8])
        ensures
            data@ == self@.data.ethereum_data@,
    {
        self.data.ethereum_data.as_slice()
    }

    /// Sets the raw Ethereum transaction (RLP encoded type 0, 1, and 2). Fails on a frozen envelope.
    pub fn ethereum_data(&mut self, data: Vec<u8>) -> (r: Result<&mut Self, Error>)
        ensures
            old(self)@.is_frozen ==> r == Err::<&mut Self, Error>(Error::FrozenContractViolation)
                && final(self)@ == old(self)@,
            !old(self)@.is_frozen ==> r is Ok && (*r->Ok_0)@ == (TransactionView {
                data: EthereumTransactionData { ethereum_data: data, ..old(self)@.data },
                ..old(self)@
            }) && *final(self) == *final(r->Ok_0),
    {
        if self.is_frozen() {
            return Err(Error::FrozenContractViolation);
        }
        self.data.ethereum_data = data;
        Ok(self)
    }

    /// The file that holds the call data, where one is set.
    pub fn get_call_data_file_id(&self) -> (id: Option<FileId>)
        ensures
            id == self@.data.call_data_file_id,
    {
        self.data.call_data_file_id
    }

    /// Sets the file that holds the call data of a large transaction. Fails on a frozen envelope.
    pub fn call_data_file_id(&mut self, id: FileId) -> (r: Result<&mut Self, Error>)
        ensures
            old(self)@.is_frozen ==> r == Err::<&mut Self, Error>(Error::FrozenContractViolation)
                && final(self)@ == old(self)@,
            !old(self)@.is_frozen ==> r is Ok && (*r->Ok_0)@ == (TransactionView {
                data: EthereumTransactionData { call_data_file_id: Some(id), ..old(self)@.data },
                ..old(self)@
            }) && *final(self) == *final(r->Ok_0),
    {
        if self.is_frozen() {
            return Err(Error::FrozenContractViolation);
        }
        self.data.call_data_file_id = Some(id);
        Ok(self)
    }

    /// The most the payer is willing to pay to complete the transaction.
    pub fn get_max_gas_allowance_hbar(&self) -> (allowance: Hbar)
        ensures
            allowance == self@.data.max_gas_allowance_hbar,
    {
        self.data.max_gas_allowance_hbar
    }

    /// Sets the most the payer is willing to pay to complete the transaction. Fails on a frozen envelope.
    pub fn max_gas_allowance_hbar(&mut self, allowance: Hbar) -> (r: Result<&mut Self, Error>)
        ensures
            old(self)@.is_frozen ==> r == Err::<&mut Self, Error>(Error::FrozenContractViolation)
                && final(self)@ == old(self)@,
            !old(self)@.is_frozen ==> r is Ok && (*r->Ok_0)@ == (TransactionView {
                data: EthereumTransactionData { max_gas_allowance_hbar: allowance, ..old(self)@.data },
                ..old(self)@
            }) && *final(self) == *final(r->Ok_0),
    {
        if self.is_frozen() {
            return Err(Error::FrozenContractViolation);
        }
        self.data.max_gas_allowance_hbar = allowance;
        Ok(self)
    }
}

} // verus!
