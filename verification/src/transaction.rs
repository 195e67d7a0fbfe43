//! The request envelope: its fields, the one-way freeze that resolves its defaults, its
//! signers, and the bodies it is rendered into.

use vstd::prelude::*;

use crate::bytes::copy_bytes;
use crate::chunk::{plan_chunks, Chunk, ChunkInfo};
use crate::client::{ClientContext, Operator};
use crate::duration::{default_transaction_valid_duration, Duration};
use crate::entity_id::{validate_checksums, AccountId, EntityId};
use crate::error::Error;
use crate::execution::{EngineConfig, Execution, RetryPolicy, StatusTable};
use crate::hbar::Hbar;
use crate::signer::{sign_in_order, PrivateKey, PublicKey, Signer, SignerEntry, SignerSet};
use crate::transaction_id::TransactionId;
use crate::wire::{
    NodeMessage, ServiceMethod, SignedTransaction, WireBodyData, WireBodyDataView,
    WireSchedulableData, WireTransactionBody, WireTransactionBodyView,
};

verus! {

/// A client-wide default fee limit counts only where it is above this many tinybars.
pub const CLIENT_FEE_FLOOR_TINYBARS: i64 = 1;

/// What the envelope needs from every payload kind.
pub trait TransactionExecute: Sized {
    /// The fee limit of this payload kind where neither the request nor the client sets
    /// one.
    spec fn spec_default_max_transaction_fee(&self) -> Hbar;

    /// The entity identifiers that this payload embeds, in the order in which their
    /// checksums are validated.
    spec fn spec_entity_ids(&self) -> Seq<EntityId>;

    /// The network service method that takes this payload.
    spec fn spec_service_method(&self) -> ServiceMethod;

    /// The size-sensitive field of this payload and the size of the slices it is divided
    /// into, for the payload kinds that have such a field.
    spec fn spec_chunking(&self) -> Option<(Seq<u8>, nat)>;

    /// This payload as the wire schema has it, with `slice` in the place of the
    /// size-sensitive field where the kind has one.
    spec fn spec_body_data(&self, slice: Seq<u8>) -> WireBodyDataView;

    /// This payload as the wire schema has it in a request that is to be scheduled, for
    /// the payload kinds that can be scheduled.
    spec fn spec_schedulable_data(&self) -> Option<WireSchedulableData>;

    /// The fee limit of this payload kind where neither the request nor the client sets
    /// one.
    fn default_max_transaction_fee(&self) -> (fee: Hbar)
        ensures
            fee == self.spec_default_max_transaction_fee(),
    ;

    /// The entity identifiers that this payload embeds.
    fn entity_ids(&self) -> (ids: Vec<EntityId>)
        ensures
            ids@ == self.spec_entity_ids(),
    ;

    /// The network service method that takes this payload.
    fn service_method(&self) -> (method: ServiceMethod)
        ensures
            method == self.spec_service_method(),
    ;

    /// The size-sensitive field of this payload and the size of its slices, or nothing
    /// where this payload kind always fits one request.
    fn chunking(&self) -> (c: Option<(&Vec<u8>, usize)>)
        ensures
            c is Some <==> self.spec_chunking() is Some,
            c is Some ==> c->Some_0.0@ == self.spec_chunking()->Some_0.0 && c->Some_0.1
                == self.spec_chunking()->Some_0.1,
    ;

    /// Renders this payload for the request that `chunk` describes. A kind with a
    /// size-sensitive field renders the chunk's slice in its place. A kind without one
    /// renders only the single request of an unsplit operation and refuses any other
    /// chunk.
    fn to_transaction_data(&self, chunk: &Chunk) -> (r: Result<WireBodyData, Error>)
        ensures
            r is Ok <==> self.spec_chunking() is Some || chunk.info.spec_is_single(),
            r is Ok ==> r->Ok_0@ == self.spec_body_data(chunk.data@),
            r is Err ==> r->Err_0 == Error::UnsupportedChunking,
    ;

    /// Renders this payload for a request that is to be scheduled, where its kind can be
    /// scheduled.
    fn to_schedulable_transaction_data(&self) -> (r: Option<WireSchedulableData>)
        ensures
            r == self.spec_schedulable_data(),
    ;
}

/// A payload kind that has an empty value: the payload of a new envelope.
pub trait EmptyData: Sized {
    /// Whether nothing is set in this payload yet.
    spec fn spec_is_empty(&self) -> bool;

    /// A payload of this kind with nothing set.
    fn empty() -> (data: Self)
        ensures
            data.spec_is_empty(),
    ;
}

/// The fee limit of a request: the request's own where it has one, else the client's
/// default where that is above the floor, else the hard-coded default of the payload
/// kind.
pub open spec fn spec_resolve_fee(
    explicit: Option<Hbar>,
    client_default: Option<Hbar>,
    hardcoded: Option<Hbar>,
) -> Option<Hbar> {
    if explicit is Some {
        explicit
    } else if client_default is Some && client_default->Some_0.tinybars > CLIENT_FEE_FLOOR_TINYBARS {
        client_default
    } else {
        hardcoded
    }
}

/// Resolves the fee limit of a request: first present wins, and a client default at or
/// below the floor counts as absent.
pub fn resolve_fee(
    explicit: Option<Hbar>,
    client_default: Option<Hbar>,
    hardcoded: Option<Hbar>,
) -> (fee: Option<Hbar>)
    ensures
        fee == spec_resolve_fee(explicit, client_default, hardcoded),
{
    match explicit {
        Some(fee) => Some(fee),
        None => match client_default {
            Some(fee) if fee.to_tinybars() > CLIENT_FEE_FLOOR_TINYBARS => Some(fee),
            _ => hardcoded,
        },
    }
}

/// The precedence of the three fee sources, for every combination of their presence: an
/// explicit fee always wins; without one, a client default above the floor wins; without
/// either, the hard-coded default is the answer, present or not.
pub proof fn lemma_fee_precedence(
    explicit: Option<Hbar>,
    client_default: Option<Hbar>,
    hardcoded: Option<Hbar>,
)
    ensures
        explicit is Some ==> spec_resolve_fee(explicit, client_default, hardcoded) == explicit,
        explicit is None && client_default is Some && client_default->Some_0.tinybars > 1
            ==> spec_resolve_fee(explicit, client_default, hardcoded) == client_default,
        explicit is None && client_default is Some && client_default->Some_0.tinybars <= 1
            ==> spec_resolve_fee(explicit, client_default, hardcoded) == hardcoded,
        explicit is None && client_default is None ==> spec_resolve_fee(
            explicit,
            client_default,
            hardcoded,
        ) == hardcoded,
        spec_resolve_fee(explicit, client_default, hardcoded) is None <==> explicit is None
            && hardcoded is None && !(client_default is Some && client_default->Some_0.tinybars
            > 1),
{
}

/// A request envelope: one payload and the metadata every request carries. It can be
/// changed until it is frozen; after that only its signer list may still grow.
pub struct Transaction<D: TransactionExecute> {
    pub(crate) data: D,
    pub(crate) node_account_ids: Option<Vec<AccountId>>,
    pub(crate) transaction_valid_duration: Option<Duration>,
    pub(crate) max_transaction_fee: Option<Hbar>,
    pub(crate) transaction_memo: String,
    pub(crate) transaction_id: Option<TransactionId>,
    pub(crate) operator: Option<Operator>,
    pub(crate) is_frozen: bool,
    pub(crate) signers: SignerSet,
}

/// An envelope as a value.
pub struct TransactionView<D> {
    pub data: D,
    pub node_account_ids: Option<Seq<AccountId>>,
    pub transaction_valid_duration: Option<Duration>,
    pub max_transaction_fee: Option<Hbar>,
    pub transaction_memo: Seq<char>,
    pub transaction_id: Option<TransactionId>,
    pub operator: Option<Operator>,
    pub is_frozen: bool,
    pub signers: Seq<SignerEntry>,
}

impl<D: TransactionExecute> View for Transaction<D> {
    type V = TransactionView<D>;

    open(crate) spec fn view(&self) -> TransactionView<D> {
        TransactionView {
            data: self.data,
            node_account_ids: match self.node_account_ids {
                Some(ids) => Some(ids@),
                None => None,
            },
            transaction_valid_duration: self.transaction_valid_duration,
            max_transaction_fee: self.max_transaction_fee,
            transaction_memo: self.transaction_memo@,
            transaction_id: self.transaction_id,
            operator: self.operator,
            is_frozen: self.is_frozen,
            signers: self.signers@,
        }
    }
}

/// The envelope `v` after freezing with the snapshot `client`: the node list, the fee
/// limit and the operator are filled in where they were left unset, from the snapshot
/// or from the payload kind's defaults, and the latch is set. Nothing else changes; in
/// particular the signers stay as they are.
pub open spec fn frozen_with<D: TransactionExecute>(
    v: TransactionView<D>,
    client: Option<ClientContext>,
) -> TransactionView<D> {
    TransactionView {
        node_account_ids: if v.node_account_ids is None && client is Some {
            Some(client->Some_0.node_account_ids@)
        } else {
            v.node_account_ids
        },
        max_transaction_fee: spec_resolve_fee(
            v.max_transaction_fee,
            if client is Some {
                client->Some_0.max_transaction_fee
            } else {
                None
            },
            Some(v.data.spec_default_max_transaction_fee()),
        ),
        operator: if v.operator is None && client is Some {
            client->Some_0.operator
        } else {
            v.operator
        },
        is_frozen: true,
        ..v
    }
}

/// Why freezing `v` with `client` must fail for want of configuration, if it must: no
/// node list can be resolved.
pub open spec fn freeze_refusal<D: TransactionExecute>(
    v: TransactionView<D>,
    client: Option<ClientContext>,
) -> Option<Error> {
    if v.node_account_ids is None && client is None {
        Some(Error::MissingNodeList)
    } else {
        None
    }
}

/// Whether freezing `v` with `client` finds every checksum it is to validate in order:
/// none is validated unless the snapshot asks for it and names a network; else those of
/// the identifiers that the payload embeds.
pub open spec fn freeze_checksums_valid<D: TransactionExecute>(
    v: TransactionView<D>,
    client: Option<ClientContext>,
) -> bool {
    client is Some && client->Some_0.validation_ledger() is Some
        ==> crate::entity_id::all_checksums_valid(
        v.data.spec_entity_ids(),
        client->Some_0.validation_ledger()->Some_0,
    )
}

/// What freezing makes of the envelope `v` with the snapshot `client`, where it
/// succeeds: a frozen envelope stays as it is; any other is resolved and latched, unless
/// configuration is missing or a checksum does not fit.
pub open spec fn freeze_outcome<D: TransactionExecute>(
    v: TransactionView<D>,
    client: Option<ClientContext>,
) -> Option<TransactionView<D>> {
    if v.is_frozen {
        Some(v)
    } else if freeze_refusal(v, client) is Some || !freeze_checksums_valid(v, client) {
        None
    } else {
        Some(frozen_with(v, client))
    }
}

/// Whether `e` is the error with which freezing `v` with `client` fails: the missing
/// configuration, or else the first embedded identifier whose checksum does not fit.
pub open spec fn is_freeze_error<D: TransactionExecute>(
    v: TransactionView<D>,
    client: Option<ClientContext>,
    e: Error,
) -> bool {
    if freeze_refusal(v, client) is Some {
        e == freeze_refusal(v, client)->Some_0
    } else {
        client is Some && client->Some_0.validation_ledger() is Some
            && crate::entity_id::first_mismatch(
            v.data.spec_entity_ids(),
            client->Some_0.validation_ledger()->Some_0,
            e,
        )
    }
}

impl<D: TransactionExecute + EmptyData> Default for Transaction<D> {
    /// An envelope around an empty payload with nothing else set: mutable, unsigned.
    fn default() -> (tx: Self)
        ensures
            tx@.data.spec_is_empty(),
            tx@ == (TransactionView {
                data: tx@.data,
                node_account_ids: None,
                transaction_valid_duration: None,
                max_transaction_fee: None,
                transaction_memo: Seq::empty(),
                transaction_id: None,
                operator: None,
                is_frozen: false,
                signers: Seq::empty(),
            }),
    {
        Transaction {
            data: D::empty(),
            node_account_ids: None,
            transaction_valid_duration: None,
            max_transaction_fee: None,
            transaction_memo: String::new(),
            transaction_id: None,
            operator: None,
            is_frozen: false,
            signers: SignerSet::new(),
        }
    }
}

impl<D: TransactionExecute + EmptyData> Transaction<D> {
    /// An envelope around an empty payload with nothing else set: mutable, unsigned.
    pub fn new() -> (tx: Self)
        ensures
            tx@.data.spec_is_empty(),
            tx@ == (TransactionView {
                data: tx@.data,
                node_account_ids: None,
                transaction_valid_duration: None,
                max_transaction_fee: None,
                transaction_memo: Seq::empty(),
                transaction_id: None,
                operator: None,
                is_frozen: false,
                signers: Seq::empty(),
            }),
    {
        Self::new_with(D::empty())
    }
}

impl<D: TransactionExecute> Transaction<D> {
    /// An envelope around `data` with nothing else set: mutable, unsigned.
    pub fn new_with(data: D) -> (tx: Self)
        ensures
            tx@ == (TransactionView {
                data,
                node_account_ids: None,
                transaction_valid_duration: None,
                max_transaction_fee: None,
                transaction_memo: Seq::empty(),
                transaction_id: None,
                operator: None,
                is_frozen: false,
                signers: Seq::empty(),
            }),
    {
        Transaction {
            data,
            node_account_ids: None,
            transaction_valid_duration: None,
            max_transaction_fee: None,
            transaction_memo: String::new(),
            transaction_id: None,
            operator: None,
            is_frozen: false,
            signers: SignerSet::new(),
        }
    }

    /// Whether this envelope is frozen.
    pub fn is_frozen(&self) -> (frozen: bool)
        ensures
            frozen == self@.is_frozen,
    {
        self.is_frozen
    }

    /// Fails with `FrozenContractViolation` exactly when this envelope is frozen.
    pub fn require_not_frozen(&self) -> (r: Result<(), Error>)
        ensures
            r is Ok <==> !self@.is_frozen,
            r is Err ==> r->Err_0 == Error::FrozenContractViolation,
    {
        if self.is_frozen {
            Err(Error::FrozenContractViolation)
        } else {
            Ok(())
        }
    }

    /// The payload of this envelope.
    pub fn payload(&self) -> (data: &D)
        ensures
            *data == self@.data,
    {
        &self.data
    }

    /// The nodes that this request may be submitted to, where they are set.
    pub fn get_node_account_ids(&self) -> (ids: Option<&[AccountId]>)
        ensures
            ids is Some <==> self@.node_account_ids is Some,
            ids is Some ==> ids->Some_0@ == self@.node_account_ids->Some_0,
    {
        match &self.node_account_ids {
            Some(ids) => Some(ids.as_slice()),
            None => None,
        }
    }

    /// Sets the nodes that this request may be submitted to. Fails on a frozen envelope.
    pub fn node_account_ids(&mut self, ids: Vec<AccountId>) -> (r: Result<&mut Self, Error>)
        ensures
            old(self)@.is_frozen ==> r == Err::<&mut Self, Error>(Error::FrozenContractViolation)
                && final(self)@ == old(self)@,
            !old(self)@.is_frozen ==> r is Ok && (*r->Ok_0)@ == (TransactionView {
                node_account_ids: Some(ids@),
                ..old(self)@
            }) && *final(self) == *final(r->Ok_0),
    {
        if self.is_frozen {
            return Err(Error::FrozenContractViolation);
        }
        self.node_account_ids = Some(ids);
        Ok(self)
    }

    /// The span this request stays valid once it is submitted, where one is set.
    pub fn get_transaction_valid_duration(&self) -> (duration: Option<Duration>)
        ensures
            duration == self@.transaction_valid_duration,
    {
        self.transaction_valid_duration
    }

    /// Sets the span this request stays valid once it is submitted. Fails on a frozen
    /// envelope.
    pub fn transaction_valid_duration(&mut self, duration: Duration) -> (r: Result<&mut Self, Error>)
        ensures
            old(self)@.is_frozen ==> r == Err::<&mut Self, Error>(Error::FrozenContractViolation)
                && final(self)@ == old(self)@,
            !old(self)@.is_frozen ==> r is Ok && (*r->Ok_0)@ == (TransactionView {
                transaction_valid_duration: Some(duration),
                ..old(self)@
            }) && *final(self) == *final(r->Ok_0),
    {
        if self.is_frozen {
            return Err(Error::FrozenContractViolation);
        }
        self.transaction_valid_duration = Some(duration);
        Ok(self)
    }

    /// The most the payer is willing to pay for this request, where a limit is set.
    pub fn get_max_transaction_fee(&self) -> (fee: Option<Hbar>)
        ensures
            fee == self@.max_transaction_fee,
    {
        self.max_transaction_fee
    }

    /// Sets the most the payer is willing to pay for this request. Fails on a frozen
    /// envelope.
    pub fn max_transaction_fee(&mut self, fee: Hbar) -> (r: Result<&mut Self, Error>)
        ensures
            old(self)@.is_frozen ==> r == Err::<&mut Self, Error>(Error::FrozenContractViolation)
                && final(self)@ == old(self)@,
            !old(self)@.is_frozen ==> r is Ok && (*r->Ok_0)@ == (TransactionView {
                max_transaction_fee: Some(fee),
                ..old(self)@
            }) && *final(self) == *final(r->Ok_0),
    {
        if self.is_frozen {
            return Err(Error::FrozenContractViolation);
        }
        self.max_transaction_fee = Some(fee);
        Ok(self)
    }

    /// The note that is recorded with this request.
    pub fn get_transaction_memo(&self) -> (memo: &str)
        ensures
            memo@ == self@.transaction_memo,
    {
        self.transaction_memo.as_str()
    }

    /// Sets the note that is recorded with this request. Fails on a frozen envelope.
    pub fn transaction_memo(&mut self, memo: &str) -> (r: Result<&mut Self, Error>)
        ensures
            old(self)@.is_frozen ==> r == Err::<&mut Self, Error>(Error::FrozenContractViolation)
                && final(self)@ == old(self)@,
            !old(self)@.is_frozen ==> r is Ok && (*r->Ok_0)@ == (TransactionView {
                transaction_memo: memo@,
                ..old(self)@
            }) && *final(self) == *final(r->Ok_0),
    {
        if self.is_frozen {
            return Err(Error::FrozenContractViolation);
        }
        self.transaction_memo = memo.to_owned();
        Ok(self)
    }

    /// The explicit identity of this request, where one is set.
    pub fn get_transaction_id(&self) -> (id: Option<TransactionId>)
        ensures
            id == self@.transaction_id,
    {
        self.transaction_id
    }

    /// Sets an explicit identity for this request. Fails on a frozen envelope.
    pub fn transaction_id(&mut self, id: TransactionId) -> (r: Result<&mut Self, Error>)
        ensures
            old(self)@.is_frozen ==> r == Err::<&mut Self, Error>(Error::FrozenContractViolation)
                && final(self)@ == old(self)@,
            !old(self)@.is_frozen ==> r is Ok && (*r->Ok_0)@ == (TransactionView {
                transaction_id: Some(id),
                ..old(self)@
            }) && *final(self) == *final(r->Ok_0),
    {
        if self.is_frozen {
            return Err(Error::FrozenContractViolation);
        }
        self.transaction_id = Some(id);
        Ok(self)
    }

    /// The account that pays for this request by default, once freezing has captured it.
    pub fn get_operator(&self) -> (operator: Option<AccountId>)
        ensures
            operator == spec_payer(self@),
    {
        match &self.operator {
            Some(operator) => Some(operator.account_id),
            None => None,
        }
    }

    /// The public key that the operator signs for, once freezing has captured an
    /// operator.
    pub fn get_operator_key(&self) -> (key: Option<&PublicKey>)
        ensures
            key is Some <==> self@.operator is Some,
            key is Some ==> key->Some_0@ == self@.operator->Some_0.signer.public_key@,
    {
        match &self.operator {
            Some(operator) => Some(&operator.signer.public_key),
            None => None,
        }
    }

    /// The signers of this request, in the order in which they were added.
    pub fn get_signers(&self) -> (signers: &[SignerEntry])
        ensures
            signers@ == self@.signers,
            crate::signer::distinct_signers(signers@),
    {
        self.signers.entries()
    }

    /// Adds the signer of `private_key`, unless a signer with its public key is already
    /// there. Works on a frozen envelope too.
    pub fn sign(&mut self, private_key: PrivateKey) -> (r: &mut Self)
        ensures
            (*r)@ == (TransactionView {
                signers: crate::signer::with_signer(
                    old(self)@.signers,
                    SignerEntry {
                        public_key: private_key.public_key,
                        capability: private_key.capability,
                    },
                ),
                ..old(self)@
            }),
            *final(self) == *final(r),
    {
        let PrivateKey { public_key, capability } = private_key;
        self.sign_signer(SignerEntry { public_key, capability })
    }

    /// Adds the signer that answers to `public_key` and signs with `signer`, unless a
    /// signer with that public key is already there. Works on a frozen envelope too.
    pub fn sign_with(&mut self, public_key: PublicKey, signer: Signer) -> (r: &mut Self)
        ensures
            (*r)@ == (TransactionView {
                signers: crate::signer::with_signer(
                    old(self)@.signers,
                    SignerEntry { public_key, capability: signer },
                ),
                ..old(self)@
            }),
            *final(self) == *final(r),
    {
        self.sign_signer(SignerEntry { public_key, capability: signer })
    }

    /// Adds `signer`, unless a signer with the same public-key identity is already
    /// there: then nothing changes. Works on a frozen envelope too.
    pub fn sign_signer(&mut self, signer: SignerEntry) -> (r: &mut Self)
        ensures
            (*r)@ == (TransactionView {
                signers: crate::signer::with_signer(old(self)@.signers, signer),
                ..old(self)@
            }),
            *final(self) == *final(r),
    {
        self.signers.add_signer(signer);
        self
    }

    /// Freezes this envelope without a client: see `freeze_with`.
    pub fn freeze(&mut self) -> (r: Result<&mut Self, Error>)
        ensures
            freeze_outcome(old(self)@, None) is Some ==> r is Ok && (*r->Ok_0)@ == freeze_outcome(
                old(self)@,
                None,
            )->Some_0 && *final(self) == *final(r->Ok_0),
            freeze_outcome(old(self)@, None) is None ==> r == Err::<&mut Self, Error>(
                Error::MissingNodeList,
            ) && final(self)@ == old(self)@,
    {
        self.freeze_with(None)
    }

    /// Freezes this envelope so that it can no longer be changed, and fills in what was
    /// left unset from the snapshot `client`.
    ///
    /// A frozen envelope stays as it is. Otherwise freezing fails, and changes nothing,
    /// where no node list can be resolved, or where the snapshot asks for validation
    /// against a network and a checksum that the payload embeds belongs to another. In
    /// every other case the envelope becomes `frozen_with(..)`: checksums are not looked
    /// at where the snapshot names no network.
    pub fn freeze_with(&mut self, client: Option<ClientContext>) -> (r: Result<&mut Self, Error>)
        ensures
            freeze_outcome(old(self)@, client) is Some ==> r is Ok && (*r->Ok_0)@
                == freeze_outcome(old(self)@, client)->Some_0 && *final(self) == *final(r->Ok_0),
            freeze_outcome(old(self)@, client) is None ==> r is Err && is_freeze_error(
                old(self)@,
                client,
                r->Err_0,
            ) && final(self)@ == old(self)@,
    {
        if self.is_frozen {
            return Ok(self);
        }
        let hardcoded = Some(self.data.default_max_transaction_fee());
        match client {
            None => {
                if self.node_account_ids.is_none() {
                    return Err(Error::MissingNodeList);
                }
                self.max_transaction_fee = resolve_fee(self.max_transaction_fee, None, hardcoded);
                self.is_frozen = true;
            },
            Some(ctx) => {
                if ctx.auto_validate_checksums {
                    match &ctx.ledger_id {
                        None => {},
                        Some(ledger_id) => {
                            let ids = self.data.entity_ids();
                            match validate_checksums(&ids, ledger_id) {
                                Ok(()) => {},
                                Err(e) => {
                                    return Err(e);
                                },
                            }
                        },
                    }
                }
                let ClientContext { node_account_ids, max_transaction_fee, operator, .. } = ctx;
                if self.node_account_ids.is_none() {
                    self.node_account_ids = Some(node_account_ids);
                }
                self.max_transaction_fee = resolve_fee(
                    self.max_transaction_fee,
                    max_transaction_fee,
                    hardcoded,
                );
                if self.operator.is_none() {
                    self.operator = operator;
                }
                self.is_frozen = true;
            },
        }
        Ok(self)
    }

    /// Divides this operation into the requests it is sent as, under the identity
    /// `base_id`. A payload kind without a size-sensitive field gives one request. A
    /// kind with one gives a request per slice of that field; that fails where the
    /// slice size is zero or the slices are more than 32 bits can count.
    pub fn plan(&self, base_id: TransactionId) -> (r: Result<Vec<Chunk>, Error>)
        ensures
            r is Ok <==> can_plan(self@.data),
            r is Ok ==> is_plan_for(r->Ok_0@, self@.data, base_id),
            r is Err ==> r->Err_0 == Error::UnsupportedChunking,
    {
        match self.data.chunking() {
            None => {
                let mut plan: Vec<Chunk> = Vec::new();
                plan.push(Chunk { info: ChunkInfo::single(base_id), data: Vec::new() });
                Ok(plan)
            },
            Some((field, size)) => {
                if size == 0 {
                    return Err(Error::UnsupportedChunking);
                }
                let len = field.len();
                proof {
                    crate::chunk::lemma_chunk_count_of(len as nat, size as nat);
                }
                if len > 0 && (len - 1) / size >= 0xffff_ffff {
                    return Err(Error::UnsupportedChunking);
                }
                Ok(plan_chunks(field.as_slice(), size, base_id))
            },
        }
    }

    /// The identity under which this request goes out: the explicit one where it is
    /// set; else a fresh one for the operator that freezing captured, valid from the
    /// moment the clock shows now. Fails where neither is known.
    pub fn resolve_transaction_id(&self) -> (r: Result<TransactionId, Error>)
        ensures
            self@.transaction_id is Some ==> r == Ok::<TransactionId, Error>(
                self@.transaction_id->Some_0,
            ),
            self@.transaction_id is None && self@.operator is Some ==> r is Ok
                && r->Ok_0.account_id == self@.operator->Some_0.account_id && !r->Ok_0.scheduled
                && r->Ok_0.nonce == 0 && 0 <= r->Ok_0.valid_start.nanos < 1_000_000_000,
            self@.transaction_id is None && self@.operator is None ==> r == Err::<
                TransactionId,
                Error,
            >(Error::MissingPayer),
    {
        match self.transaction_id {
            Some(id) => Ok(id),
            None => match &self.operator {
                Some(operator) => Ok(TransactionId::generate(operator.account_id)),
                None => Err(Error::MissingPayer),
            },
        }
    }

    /// The body of the request that `chunk` describes, for the node `node_account_id`.
    /// Fails where the payload kind fits one request only and `chunk` is not that one.
    pub fn make_body(&self, node_account_id: AccountId, chunk: &Chunk) -> (r: Result<
        WireTransactionBody,
        Error,
    >)
        ensures
            r is Ok <==> self@.data.spec_chunking() is Some || chunk.info.spec_is_single(),
            r is Ok ==> r->Ok_0@ == spec_body(self@, node_account_id, *chunk),
            r is Err ==> r->Err_0 == Error::UnsupportedChunking,
    {
        let data = match self.data.to_transaction_data(chunk) {
            Ok(data) => data,
            Err(e) => {
                return Err(e);
            },
        };
        let fee = match self.max_transaction_fee {
            Some(fee) => fee,
            None => self.data.default_max_transaction_fee(),
        };
        let duration = match self.transaction_valid_duration {
            Some(duration) => duration,
            None => default_transaction_valid_duration(),
        };
        Ok(
            WireTransactionBody {
                transaction_id: chunk.info.transaction_id(),
                node_account_id,
                transaction_fee: #[verifier::truncate] (fee.to_tinybars() as u64),
                transaction_valid_duration: duration.whole_seconds(),
                memo: self.transaction_memo.clone(),
                data,
            },
        )
    }

    /// The bodies of the request that `chunk` describes, one for each node of the node
    /// list, in the order of that list. Fails where the payload kind fits one request
    /// only and `chunk` is not that one, and on an envelope that has no node list.
    pub fn make_bodies(&self, chunk: &Chunk) -> (r: Result<Vec<WireTransactionBody>, Error>)
        ensures
            r is Ok <==> self@.node_account_ids is Some && (self@.data.spec_chunking() is Some
                || chunk.info.spec_is_single()),
            r is Ok ==> are_bodies_of(r->Ok_0@, self@, *chunk),
            r is Err ==> r->Err_0 == (if self@.node_account_ids is None {
                Error::MissingNodeList
            } else {
                Error::UnsupportedChunking
            }),
    {
        let nodes = match &self.node_account_ids {
            Some(nodes) => nodes,
            None => {
                return Err(Error::MissingNodeList);
            },
        };
        if self.data.chunking().is_none() && !chunk.info.is_single() {
            return Err(Error::UnsupportedChunking);
        }
        let mut bodies: Vec<WireTransactionBody> = Vec::new();
        let mut i: usize = 0;
        while i < nodes.len()
            invariant
                i <= nodes.len(),
                self.node_account_ids == Some(*nodes),
                self@.data.spec_chunking() is Some || chunk.info.spec_is_single(),
                bodies@.len() == i,
                forall|j: int|
                    0 <= j < i ==> (#[trigger] bodies@[j])@ == spec_body(self@, nodes@[j], *chunk),
            decreases nodes.len() - i,
        {
            match self.make_body(nodes[i], chunk) {
                Ok(body) => {
                    bodies.push(body);
                },
                Err(e) => {
                    return Err(e);
                },
            }
            i += 1;
        }
        Ok(bodies)
    }

    /// Every request of this operation under the identity `transaction_id`: for each
    /// chunk of the plan, in plan order, the bodies for every node of the node list, in
    /// the order of that list. Only a frozen envelope is rendered.
    pub fn bodies_for(&self, transaction_id: TransactionId) -> (r: Result<
        Vec<Vec<WireTransactionBody>>,
        Error,
    >)
        requires
            self@.is_frozen,
        ensures
            r is Ok <==> self@.node_account_ids is Some && can_plan(self@.data),
            r is Ok ==> are_requests_of(r->Ok_0@, self@, transaction_id),
            r is Err ==> r->Err_0 == (if !can_plan(self@.data) {
                Error::UnsupportedChunking
            } else {
                Error::MissingNodeList
            }),
    {
        let plan = match self.plan(transaction_id) {
            Ok(plan) => plan,
            Err(e) => {
                return Err(e);
            },
        };
        if self.node_account_ids.is_none() {
            return Err(Error::MissingNodeList);
        }
        let mut requests: Vec<Vec<WireTransactionBody>> = Vec::new();
        let mut c: usize = 0;
        while c < plan.len()
            invariant
                c <= plan.len(),
                self@.node_account_ids is Some,
                is_plan_for(plan@, self@.data, transaction_id),
                requests@.len() == c,
                forall|k: int|
                    0 <= k < c ==> are_bodies_of((#[trigger] requests@[k])@, self@, plan@[k]),
            decreases plan.len() - c,
        {
            proof {
                if self@.data.spec_chunking() is None {
                    assert(plan@[c as int].info.spec_is_single());
                }
            }
            match self.make_bodies(&plan[c]) {
                Ok(bodies) => {
                    requests.push(bodies);
                },
                Err(e) => {
                    return Err(e);
                },
            }
            c += 1;
        }
        Ok(requests)
    }

    /// Every request of this operation, as `bodies_for` gives them under the identity
    /// that `resolve_transaction_id` resolves. Only a frozen envelope is rendered.
    pub fn to_wire_bodies(&self) -> (r: Result<Vec<Vec<WireTransactionBody>>, Error>)
        requires
            self@.is_frozen,
        ensures
            r is Ok <==> (self@.transaction_id is Some || self@.operator is Some)
                && self@.node_account_ids is Some && can_plan(self@.data),
            r is Ok ==> exists|id: TransactionId|
                is_resolved_id(self@, id) && #[trigger] are_requests_of(r->Ok_0@, self@, id),
            r is Err ==> r->Err_0 == (if self@.transaction_id is None && self@.operator is None {
                Error::MissingPayer
            } else if !can_plan(self@.data) {
                Error::UnsupportedChunking
            } else {
                Error::MissingNodeList
            }),
    {
        let id = match self.resolve_transaction_id() {
            Ok(id) => id,
            Err(e) => {
                return Err(e);
            },
        };
        let r = self.bodies_for(id);
        proof {
            if r is Ok {
                assert(is_resolved_id(self@, id) && are_requests_of(r->Ok_0@, self@, id));
            }
        }
        r
    }

    /// Prepares the submission of this operation: resolves its identity, plans its
    /// chunks, and begins an execution over the plan and the node list, `elapsed_millis`
    /// milliseconds into the time budget. Only a frozen envelope is submitted.
    pub fn start_submission(
        &self,
        policy: RetryPolicy,
        timeout_millis: Option<u64>,
        table: StatusTable,
        elapsed_millis: u64,
    ) -> (r: Result<(Vec<Chunk>, Execution), Error>)
        requires
            self@.is_frozen,
        ensures
            r is Ok <==> (self@.transaction_id is Some || self@.operator is Some)
                && self@.node_account_ids is Some && can_plan(self@.data),
            r is Ok ==> exists|id: TransactionId|
                is_resolved_id(self@, id) && #[trigger] is_plan_for(r->Ok_0.0@, self@.data, id),
            r is Ok ==> r->Ok_0.1.spec_config() == (EngineConfig {
                nodes: self@.node_account_ids->Some_0.len() as usize,
                chunks: r->Ok_0.0@.len() as u32,
                policy,
                timeout_millis,
                table,
            }) && r->Ok_0.1.spec_state() == crate::execution::spec_begin(
                r->Ok_0.1.spec_config(),
                elapsed_millis,
            ),
            r is Err ==> r->Err_0 == (if self@.transaction_id is None && self@.operator is None {
                Error::MissingPayer
            } else if !can_plan(self@.data) {
                Error::UnsupportedChunking
            } else {
                Error::MissingNodeList
            }),
    {
        let id = match self.resolve_transaction_id() {
            Ok(id) => id,
            Err(e) => {
                return Err(e);
            },
        };
        let plan = match self.plan(id) {
            Ok(plan) => plan,
            Err(e) => {
                return Err(e);
            },
        };
        let nodes = match &self.node_account_ids {
            Some(nodes) => nodes.len(),
            None => {
                return Err(Error::MissingNodeList);
            },
        };
        proof {
            assert(is_resolved_id(self@, id) && is_plan_for(plan@, self@.data, id));
        }
        let config = EngineConfig {
            nodes,
            chunks: plan.len() as u32,
            policy,
            timeout_millis,
            table,
        };
        let execution = Execution::begin(config, elapsed_millis);
        Ok((plan, execution))
    }

    /// Signs the encoded body of each node's request: first the operator signs, where
    /// freezing has captured one, then every signer of this envelope whose identity is not
    /// the operator's, in the order in which they were added. Each is asked to sign
    /// exactly the bytes of that node's body, and each signed message carries those bytes
    /// unchanged. The envelope itself does not change.
    pub fn materialize(&self, messages: &[NodeMessage]) -> (signed: Vec<SignedTransaction>)
        ensures
            are_signed_by(signed@, messages@, spec_signing_order(self@)),
    {
        let mut signed: Vec<SignedTransaction> = Vec::new();
        let mut i: usize = 0;
        while i < messages.len()
            invariant
                i <= messages.len(),
                signed@.len() == i,
                forall|j: int|
                    0 <= j < i ==> is_signed_message(
                        #[trigger] signed@[j],
                        messages@[j],
                        spec_signing_order(self@),
                    ),
            decreases messages.len() - i,
        {
            let message = &messages[i];
            let first = match &self.operator {
                Some(operator) => Some(&operator.signer),
                None => None,
            };
            let sig_pairs = sign_in_order(
                first,
                self.signers.entries(),
                message.body_bytes.as_slice(),
            );
            signed.push(
                SignedTransaction {
                    node_account_id: message.node_account_id,
                    body_bytes: copy_bytes(message.body_bytes.as_slice()),
                    sig_pairs,
                },
            );
            i += 1;
        }
        signed
    }
}

/// Those who sign the requests of the envelope, in signing order: the operator first,
/// where there is one, then the signers whose identity is not the operator's.
pub open spec fn spec_signing_order<D>(v: TransactionView<D>) -> Seq<SignerEntry> {
    crate::signer::signing_order(
        match v.operator {
            Some(operator) => Some(operator.signer),
            None => None,
        },
        v.signers,
    )
}

/// Whether the payload `data` can be planned: it always fits one request, or the slices
/// of its size-sensitive field have a size and can be counted in 32 bits.
pub open spec fn can_plan<D: TransactionExecute>(data: D) -> bool {
    data.spec_chunking() is Some ==> data.spec_chunking()->Some_0.1 > 0
        && crate::chunk::chunk_count(
        data.spec_chunking()->Some_0.0.len(),
        data.spec_chunking()->Some_0.1,
    ) <= u32::MAX
}

/// Whether `plan` is the plan of the payload `data` under the identity `base_id`: the
/// slices of its size-sensitive field, or one chunk without a slice where it has no
/// such field.
pub open spec fn is_plan_for<D: TransactionExecute>(
    plan: Seq<Chunk>,
    data: D,
    base_id: TransactionId,
) -> bool {
    match data.spec_chunking() {
        Some((field, size)) => crate::chunk::is_plan_of(plan, field, size, base_id),
        None => {
            &&& plan.len() == 1
            &&& plan[0].info == (ChunkInfo { index: 0, total: 1, base_id })
            &&& plan[0].data@ == Seq::<u8>::empty()
        },
    }
}

/// The body of the request that `chunk` describes, for the node `node`: the chunk's own
/// identity, the fee limit of the envelope or else of the payload kind, the valid
/// duration of the envelope or else the default, the memo, and the payload rendered for
/// the chunk.
pub open spec fn spec_body<D: TransactionExecute>(
    v: TransactionView<D>,
    node: AccountId,
    chunk: Chunk,
) -> WireTransactionBodyView {
    WireTransactionBodyView {
        transaction_id: chunk.info.spec_transaction_id(),
        node_account_id: node,
        transaction_fee: (match v.max_transaction_fee {
            Some(fee) => fee,
            None => v.data.spec_default_max_transaction_fee(),
        }).tinybars as u64,
        transaction_valid_duration: match v.transaction_valid_duration {
            Some(duration) => duration.seconds,
            None => crate::duration::DEFAULT_TRANSACTION_VALID_SECONDS,
        },
        memo: v.transaction_memo,
        data: v.data.spec_body_data(chunk.data@),
    }
}

/// Whether `bodies` are the bodies of the request that `chunk` describes: one for each
/// node of the node list, in order.
pub open spec fn are_bodies_of<D: TransactionExecute>(
    bodies: Seq<WireTransactionBody>,
    v: TransactionView<D>,
    chunk: Chunk,
) -> bool {
    &&& v.node_account_ids is Some
    &&& bodies.len() == v.node_account_ids->Some_0.len()
    &&& forall|i: int|
        0 <= i < bodies.len() ==> (#[trigger] bodies[i])@ == spec_body(
            v,
            v.node_account_ids->Some_0[i],
            chunk,
        )
}

/// Whether `requests` are all requests of the envelope under the identity `id`: for
/// some plan of its payload, the bodies of each chunk, in plan order.
pub open spec fn are_requests_of<D: TransactionExecute>(
    requests: Seq<Vec<WireTransactionBody>>,
    v: TransactionView<D>,
    id: TransactionId,
) -> bool {
    exists|plan: Seq<Chunk>|
        {
            &&& #[trigger] is_plan_for(plan, v.data, id)
            &&& requests.len() == plan.len()
            &&& forall|k: int|
                0 <= k < requests.len() ==> are_bodies_of((#[trigger] requests[k])@, v, plan[k])
        }
}

/// The account that pays for the requests of the envelope by default: that of its
/// operator, where it has one.
pub open spec fn spec_payer<D>(v: TransactionView<D>) -> Option<AccountId> {
    match v.operator {
        Some(operator) => Some(operator.account_id),
        None => None,
    }
}

/// Whether `id` is an identity under which the envelope may go out: its explicit one,
/// or else one of its operator that is neither scheduled nor part of a split and that is
/// valid from a proper point in time, with its nanoseconds within the second.
pub open spec fn is_resolved_id<D: TransactionExecute>(v: TransactionView<D>, id: TransactionId) -> bool {
    match v.transaction_id {
        Some(explicit) => id == explicit,
        None => spec_payer(v) == Some(id.account_id) && !id.scheduled && id.nonce == 0 && 0
            <= id.valid_start.nanos < 1_000_000_000,
    }
}

/// Whether `signed` is `message` signed by `signers`: the same node, the same bytes,
/// and one signature per signer, each over exactly those bytes.
pub open spec fn is_signed_message(
    signed: SignedTransaction,
    message: NodeMessage,
    signers: Seq<SignerEntry>,
) -> bool {
    &&& signed.node_account_id == message.node_account_id
    &&& signed.body_bytes@ == message.body_bytes@
    &&& crate::signer::answered_by(signers, message.body_bytes@, signed.sig_pairs@)
}

/// Whether `signed` are `messages` signed by `signers`, message by message.
pub open spec fn are_signed_by(
    signed: Seq<SignedTransaction>,
    messages: Seq<NodeMessage>,
    signers: Seq<SignerEntry>,
) -> bool {
    &&& signed.len() == messages.len()
    &&& forall|i: int|
        0 <= i < signed.len() ==> is_signed_message(#[trigger] signed[i], messages[i], signers)
}

/// The fee limit of a frozen envelope. Freezing an unfrozen envelope succeeds exactly
/// where a node list can be resolved and no checksum that is to be validated belongs to
/// another network. Wherever it succeeds, the fee limit is resolved by precedence: an
/// explicit limit stays, whatever the client and the payload kind offer; without one,
/// a client default above the floor of one tinybar is taken; without either, the
/// hard-coded default of the payload kind.
pub proof fn lemma_freeze_resolves_fee<D: TransactionExecute>(
    v: TransactionView<D>,
    client: Option<ClientContext>,
)
    requires
        !v.is_frozen,
    ensures
        freeze_outcome(v, client) is Some <==> (v.node_account_ids is Some || client is Some)
            && freeze_checksums_valid(v, client),
        freeze_outcome(v, client) is Some ==> ({
            let fee = freeze_outcome(v, client)->Some_0.max_transaction_fee;
            let offered = if client is Some {
                client->Some_0.max_transaction_fee
            } else {
                None
            };
            &&& fee is Some
            &&& v.max_transaction_fee is Some ==> fee == v.max_transaction_fee
            &&& v.max_transaction_fee is None && offered is Some && offered->Some_0.tinybars > 1
                ==> fee == offered
            &&& v.max_transaction_fee is None && !(offered is Some && offered->Some_0.tinybars > 1)
                ==> fee == Some(v.data.spec_default_max_transaction_fee())
        }),
{
}

/// Freezing is idempotent: where freezing succeeds, freezing the result again succeeds
/// too and changes nothing, whatever the second snapshot offers. No field is resolved a
/// second time.
pub proof fn lemma_freeze_idempotent<D: TransactionExecute>(
    v: TransactionView<D>,
    first: Option<ClientContext>,
    second: Option<ClientContext>,
)
    requires
        freeze_outcome(v, first) is Some,
    ensures
        freeze_outcome(v, first)->Some_0.is_frozen,
        freeze_outcome(freeze_outcome(v, first)->Some_0, second) == freeze_outcome(v, first),
{
}

} // verus!
