//! The contract call payload.

use vstd::prelude::*;

use crate::bytes::copy_bytes;
use crate::chunk::Chunk;
use crate::entity_id::{ContractId, EntityId};
use crate::error::Error;
use crate::hbar::Hbar;
use crate::transaction::{EmptyData, Transaction, TransactionExecute, TransactionView};
use crate::wire::{ServiceMethod, WireBodyData, WireBodyDataView, WireSchedulableData};

verus! {

/// Call a function of the given smart contract instance.
pub type ContractExecuteTransaction = Transaction<ContractExecuteTransactionData>;

/// What a contract call carries: the contract, the gas it may use, the amount sent with
/// the call, and the encoded function parameters.
#[derive(Clone, Debug, PartialEq, Eq)]
pub struct ContractExecuteTransactionData {
    pub contract_id: Option<ContractId>,
    pub gas_limit: u64,
    pub value: u64,
    pub data: Vec<u8>,
}

impl EmptyData for ContractExecuteTransactionData {
    open spec fn spec_is_empty(&self) -> bool {
        &&& self.contract_id is None
        &&& self.gas_limit == 0
        &&& self.value == 0
        &&& self.data@ == Seq::<u8>::empty()
    }

    fn empty() -> (data: Self) {
        ContractExecuteTransactionData { contract_id: None, gas_limit: 0, value: 0, data: Vec::new() }
    }
}

impl TransactionExecute for ContractExecuteTransactionData {
    open spec fn spec_default_max_transaction_fee(&self) -> Hbar {
        Hbar { tinybars: 200_000_000 }
    }

    open spec fn spec_entity_ids(&self) -> Seq<EntityId> {
        match self.contract_id {
            Some(id) => seq![id],
            None => Seq::empty(),
        }
    }

    open spec fn spec_service_method(&self) -> ServiceMethod {
        ServiceMethod::ContractCallMethod
    }

    open spec fn spec_chunking(&self) -> Option<(Seq<u8>, nat)> {
        None
    }

    open spec fn spec_body_data(&self, slice: Seq<u8>) -> WireBodyDataView {
        WireBodyDataView::ContractCall {
            contract_id: self.contract_id,
            gas: self.gas_limit as i64,
            amount: self.value as i64,
            function_parameters: self.data@,
        }
    }

    open spec fn spec_schedulable_data(&self) -> Option<WireSchedulableData> {
        None
    }

    fn default_max_transaction_fee(&self) -> (fee: Hbar) {
        Hbar::from_tinybars(200_000_000)
    }

    fn entity_ids(&self) -> (ids: Vec<EntityId>) {
        let mut ids: Vec<EntityId> = Vec::new();
        match self.contract_id {
            Some(id) => {
                ids.push(id);
                assert(ids@ =~= seq![id]);
            },
            None => {},
        }
        ids
    }

    fn service_method(&self) -> (method: ServiceMethod) {
        ServiceMethod::ContractCallMethod
    }

    fn chunking(&self) -> (c: Option<(&Vec<u8>, usize)>) {
        None
    }

    fn to_transaction_data(&self, chunk: &Chunk) -> (r: Result<WireBodyData, Error>) {
        if !chunk.info.is_single() {
            return Err(Error::UnsupportedChunking);
        }
        Ok(
            WireBodyData::ContractCall {
                contract_id: self.contract_id,
                gas: #[verifier::truncate] (self.gas_limit as i64),
                amount: #[verifier::truncate] (self.value as i64),
                function_parameters: copy_bytes(self.data.as_slice()),
            },
        )
    }

    fn to_schedulable_transaction_data(&self) -> (r: Option<WireSchedulableData>) {
        None
    }
}

impl ContractExecuteTransactionData {
    /// Reads the payload back from its wire form. Fails where `data` is the wire form
    /// of another payload kind.
    pub fn from_wire(data: WireBodyData) -> (r: Result<Self, Error>)
        ensures
            r is Ok <==> data is ContractCall,
            r is Ok ==> r->Ok_0 == (ContractExecuteTransactionData {
                contract_id: data->ContractCall_contract_id,
                gas_limit: data->ContractCall_gas as u64,
                value: data->ContractCall_amount as u64,
                data: data->ContractCall_function_parameters,
            }),
            r is Err ==> r->Err_0 == Error::SerializationError,
    {
        match data {
            WireBodyData::ContractCall { contract_id, gas, amount, function_parameters } => Ok(
                ContractExecuteTransactionData {
                    contract_id,
                    gas_limit: #[verifier::truncate] (gas as u64),
                    value: #[verifier::truncate] (amount as u64),
                    data: function_parameters,
                },
            ),
            _ => Err(Error::SerializationError),
        }
    }
}

impl ContractExecuteTransaction {
    /// Sets the contract to call. Fails on a frozen envelope.
    pub fn contract_id(&mut self, contract_id: ContractId) -> (r: Result<&mut Self, Error>)
        ensures
            old(self)@.is_frozen ==> r == Err::<&mut Self, Error>(Error::FrozenContractViolation)
                && final(self)@ == old(self)@,
            !old(self)@.is_frozen ==> r is Ok && (*r->Ok_0)@ == (TransactionView {
                data: ContractExecuteTransactionData {
                    contract_id: Some(contract_id),
                    ..old(self)@.data
                },
                ..old(self)@
            }) && *final(self) == *final(r->Ok_0),
    {
        if self.is_frozen() {
            return Err(Error::FrozenContractViolation);
        }
        self.data.contract_id = Some(contract_id);
        Ok(self)
    }

    /// Sets the gas limit of the call. Fails on a frozen envelope.
    pub fn gas_limit(&mut self, gas: u64) -> (r: Result<&mut Self, Error>)
        ensures
            old(self)@.is_frozen ==> r == Err::<&mut Self, Error>(Error::FrozenContractViolation)
                && final(self)@ == old(self)@,
            !old(self)@.is_frozen ==> r is Ok && (*r->Ok_0)@ == (TransactionView {
                data: ContractExecuteTransactionData { gas_limit: gas, ..old(self)@.data },
                ..old(self)@
            }) && *final(self) == *final(r->Ok_0),
    {
        if self.is_frozen() {
            return Err(Error::FrozenContractViolation);
        }
        self.data.gas_limit = gas;
        Ok(self)
    }

    /// Sets the amount sent with the call. Fails on a frozen envelope.
    pub fn value(&mut self, value: u64) -> (r: Result<&mut Self, Error>)
        ensures
            old(self)@.is_frozen ==> r == Err::<&mut Self, Error>(Error::FrozenContractViolation)
                && final(self)@ == old(self)@,
            !old(self)@.is_frozen ==> r is Ok && (*r->Ok_0)@ == (TransactionView {
                data: ContractExecuteTransactionData { value, ..old(self)@.data },
                ..old(self)@
            }) && *final(self) == *final(r->Ok_0),
    {
        if self.is_frozen() {
            return Err(Error::FrozenContractViolation);
        }
        self.data.value = value;
        Ok(self)
    }

    /// Sets the encoded function parameters of the call. Fails on a frozen envelope.
    pub fn data(&mut self, data: Vec<u8>) -> (r: Result<&mut Self, Error>)
        ensures
            old(self)@.is_frozen ==> r == Err::<&mut Self, Error>(Error::FrozenContractViolation)
                && final(self)@ == old(self)@,
            !old(self)@.is_frozen ==> r is Ok && (*r->Ok_0)@ == (TransactionView {
                data: ContractExecuteTransactionData { data, ..old(self)@.data },
                ..old(self)@
            }) && *final(self) == *final(r->Ok_0),
    {
        if self.is_frozen() {
            return Err(Error::FrozenContractViolation);
        }
        self.data.data = data;
        Ok(self)
    }
}

} // verus!
