//! The token unpause payload.

use vstd::prelude::*;

use crate::chunk::Chunk;
use crate::entity_id::{EntityId, TokenId};
use crate::error::Error;
use crate::hbar::Hbar;
use crate::transaction::{EmptyData, Transaction, TransactionExecute, TransactionView};
use crate::wire::{ServiceMethod, WireBodyData, WireBodyDataView, WireSchedulableData};

verus! {

/// Unpauses the Token. Must be signed with the Token's pause key.
///
/// Once executed the Token is marked as Unpaused and can be used in Transactions.
/// The operation is idempotent: it becomes a no-op if the Token is already unpaused.
pub type TokenUnpauseTransaction = Transaction<TokenUnpauseTransactionData>;

/// What a token unpause carries.
#[derive(Clone, Copy, Debug, PartialEq, Eq)]
pub struct TokenUnpauseTransactionData {
    /// The token to be unpaused.
    pub token_id: Option<TokenId>,
}

impl EmptyData for TokenUnpauseTransactionData {
    open spec fn spec_is_empty(&self) -> bool {
        self.token_id is None
    }

    fn empty() -> (data: Self) {
        TokenUnpauseTransactionData { token_id: None }
    }
}

impl TransactionExecute for TokenUnpauseTransactionData {
    open spec fn spec_default_max_transaction_fee(&self) -> Hbar {
        Hbar { tinybars: 200_000_000 }
    }

    open spec fn spec_entity_ids(&self) -> Seq<EntityId> {
        match self.token_id {
            Some(id) => seq![id],
            None => Seq::empty(),
        }
    }

    open spec fn spec_service_method(&self) -> ServiceMethod {
        ServiceMethod::UnpauseToken
    }

    open spec fn spec_chunking(&self) -> Option<(Seq<u8>, nat)> {
        None
    }

    open spec fn spec_body_data(&self, slice: Seq<u8>) -> WireBodyDataView {
        WireBodyDataView::TokenUnpause { token: self.token_id }
    }

    open spec fn spec_schedulable_data(&self) -> Option<WireSchedulableData> {
        Some(WireSchedulableData::TokenUnpause { token: self.token_id })
    }

    fn default_max_transaction_fee(&self) -> (fee: Hbar) {
        Hbar::from_tinybars(200_000_000)
    }

    fn entity_ids(&self) -> (ids: Vec<EntityId>) {
        let mut ids: Vec<EntityId> = Vec::new();
        match self.token_id {
            Some(id) => {
                ids.push(id);
                assert(ids@ =~= seq![id]);
            },
            None => {},
        }
        ids
    }

    fn service_method(&self) -> (method: ServiceMethod) {
        ServiceMethod::UnpauseToken
    }

    fn chunking(&self) -> (c: Option<(&Vec<u8>, usize)>) {
        None
    }

    fn to_transaction_data(&self, chunk: &Chunk) -> (r: Result<WireBodyData, Error>) {
        if !chunk.info.is_single() {
            return Err(Error::UnsupportedChunking);
        }
        Ok(WireBodyData::TokenUnpause { token: self.token_id })
    }

    fn to_schedulable_transaction_data(&self) -> (r: Option<WireSchedulableData>) {
        Some(WireSchedulableData::TokenUnpause { token: self.token_id })
    }
}

impl TokenUnpauseTransactionData {
    /// Reads the payload back from its wire form. Fails where `data` is the wire form
    /// of another payload kind.
    pub fn from_wire(data: WireBodyData) -> (r: Result<Self, Error>)
        ensures
            r is Ok <==> data is TokenUnpause,
            r is Ok ==> r->Ok_0 == (TokenUnpauseTransactionData {
                token_id: data->TokenUnpause_token,
            }),
            r is Err ==> r->Err_0 == Error::SerializationError,
    {
        match data {
            WireBodyData::TokenUnpause { token } => Ok(TokenUnpauseTransactionData { token_id: token }),
            _ => Err(Error::SerializationError),
        }
    }
}

impl TokenUnpauseTransaction {
    /// The token to be unpaused, where one is set.
    pub fn get_token_id(&self) -> (id: Option<TokenId>)
        ensures
            id == self@.data.token_id,
    {
        self.data.token_id
    }

    /// Sets the token to be unpaused. Fails on a frozen envelope.
    pub fn token_id(&mut self, token_id: TokenId) -> (r: Result<&mut Self, Error>)
        ensures
            old(self)@.is_frozen ==> r == Err::<&mut Self, Error>(Error::FrozenContractViolation)
                && final(self)@ == old(self)@,
            !old(self)@.is_frozen ==> r is Ok && (*r->Ok_0)@ == (TransactionView {
                data: TokenUnpauseTransactionData { token_id: Some(token_id), ..old(self)@.data },
                ..old(self)@
            }) && *final(self) == *final(r->Ok_0),
    {
        if self.is_frozen() {
            return Err(Error::FrozenContractViolation);
        }
        self.data.token_id = Some(token_id);
        Ok(self)
    }
}

} // verus!
