//! Envelopes around a payload of any kind, and reading envelopes back from wire bodies.

use vstd::prelude::*;

use crate::chunk::{Chunk, ChunkInfo};
use crate::contract_execute_transaction::ContractExecuteTransactionData;
use crate::duration::Duration;
use crate::entity_id::{AccountId, EntityId, FileId};
use crate::error::Error;
use crate::ethereum_transaction::EthereumTransactionData;
use crate::file_append_transaction::FileAppendTransactionData;
use crate::hbar::Hbar;
use crate::signer::SignerSet;
use crate::token_unpause_transaction::TokenUnpauseTransactionData;
use crate::transaction::{Transaction, TransactionExecute, TransactionView};
use crate::transaction_id::TransactionId;
use crate::wire::{
    ServiceMethod, WireBodyData, WireBodyDataView, WireSchedulableData, WireTransactionBody,
    WireTransactionBodyView,
};

verus! {

/// A request envelope around a payload of any kind: what reading a request back from
/// the wire gives.
pub type AnyTransaction = Transaction<AnyTransactionData>;

/// A payload of any of the kinds that this library knows.
#[derive(Clone, Debug, PartialEq, Eq)]
pub enum AnyTransactionData {
    ContractExecute(ContractExecuteTransactionData),
    Ethereum(EthereumTransactionData),
    TokenUnpause(TokenUnpauseTransactionData),
    FileAppend(FileAppendTransactionData),
}

impl TransactionExecute for AnyTransactionData {
    open spec fn spec_default_max_transaction_fee(&self) -> Hbar {
        match *self {
            AnyTransactionData::ContractExecute(data) => data.spec_default_max_transaction_fee(),
            AnyTransactionData::Ethereum(data) => data.spec_default_max_transaction_fee(),
            AnyTransactionData::TokenUnpause(data) => data.spec_default_max_transaction_fee(),
            AnyTransactionData::FileAppend(data) => data.spec_default_max_transaction_fee(),
        }
    }

    open spec fn spec_entity_ids(&self) -> Seq<EntityId> {
        match *self {
            AnyTransactionData::ContractExecute(data) => data.spec_entity_ids(),
            AnyTransactionData::Ethereum(data) => data.spec_entity_ids(),
            AnyTransactionData::TokenUnpause(data) => data.spec_entity_ids(),
            AnyTransactionData::FileAppend(data) => data.spec_entity_ids(),
        }
    }

    open spec fn spec_service_method(&self) -> ServiceMethod {
        match *self {
            AnyTransactionData::ContractExecute(data) => data.spec_service_method(),
            AnyTransactionData::Ethereum(data) => data.spec_service_method(),
            AnyTransactionData::TokenUnpause(data) => data.spec_service_method(),
            AnyTransactionData::FileAppend(data) => data.spec_service_method(),
        }
    }

    open spec fn spec_chunking(&self) -> Option<(Seq<u8>, nat)> {
        match *self {
            AnyTransactionData::ContractExecute(data) => data.spec_chunking(),
            AnyTransactionData::Ethereum(data) => data.spec_chunking(),
            AnyTransactionData::TokenUnpause(data) => data.spec_chunking(),
            AnyTransactionData::FileAppend(data) => data.spec_chunking(),
        }
    }

    open spec fn spec_body_data(&self, slice: Seq<u8>) -> WireBodyDataView {
        match *self {
            AnyTransactionData::ContractExecute(data) => data.spec_body_data(slice),
            AnyTransactionData::Ethereum(data) => data.spec_body_data(slice),
            AnyTransactionData::TokenUnpause(data) => data.spec_body_data(slice),
            AnyTransactionData::FileAppend(data) => data.spec_body_data(slice),
        }
    }

    open spec fn spec_schedulable_data(&self) -> Option<WireSchedulableData> {
        match *self {
            AnyTransactionData::ContractExecute(data) => data.spec_schedulable_data(),
            AnyTransactionData::Ethereum(data) => data.spec_schedulable_data(),
            AnyTransactionData::TokenUnpause(data) => data.spec_schedulable_data(),
            AnyTransactionData::FileAppend(data) => data.spec_schedulable_data(),
        }
    }

    fn default_max_transaction_fee(&self) -> (fee: Hbar) {
        match self {
            AnyTransactionData::ContractExecute(data) => data.default_max_transaction_fee(),
            AnyTransactionData::Ethereum(data) => data.default_max_transaction_fee(),
            AnyTransactionData::TokenUnpause(data) => data.default_max_transaction_fee(),
            AnyTransactionData::FileAppend(data) => data.default_max_transaction_fee(),
        }
    }

    fn entity_ids(&self) -> (ids: Vec<EntityId>) {
        match self {
            AnyTransactionData::ContractExecute(data) => data.entity_ids(),
            AnyTransactionData::Ethereum(data) => data.entity_ids(),
            AnyTransactionData::TokenUnpause(data) => data.entity_ids(),
            AnyTransactionData::FileAppend(data) => data.entity_ids(),
        }
    }

    fn service_method(&self) -> (method: ServiceMethod) {
        match self {
            AnyTransactionData::ContractExecute(data) => data.service_method(),
            AnyTransactionData::Ethereum(data) => data.service_method(),
            AnyTransactionData::TokenUnpause(data) => data.service_method(),
            AnyTransactionData::FileAppend(data) => data.service_method(),
        }
    }

    fn chunking(&self) -> (c: Option<(&Vec<u8>, usize)>) {
        match self {
            AnyTransactionData::ContractExecute(data) => data.chunking(),
            AnyTransactionData::Ethereum(data) => data.chunking(),
            AnyTransactionData::TokenUnpause(data) => data.chunking(),
            AnyTransactionData::FileAppend(data) => data.chunking(),
        }
    }

    fn to_transaction_data(&self, chunk: &Chunk) -> (r: Result<WireBodyData, Error>) {
        match self {
            AnyTransactionData::ContractExecute(data) => data.to_transaction_data(chunk),
            AnyTransactionData::Ethereum(data) => data.to_transaction_data(chunk),
            AnyTransactionData::TokenUnpause(data) => data.to_transaction_data(chunk),
            AnyTransactionData::FileAppend(data) => data.to_transaction_data(chunk),
        }
    }

    fn to_schedulable_transaction_data(&self) -> (r: Option<WireSchedulableData>) {
        match self {
            AnyTransactionData::ContractExecute(data) => data.to_schedulable_transaction_data(),
            AnyTransactionData::Ethereum(data) => data.to_schedulable_transaction_data(),
            AnyTransactionData::TokenUnpause(data) => data.to_schedulable_transaction_data(),
            AnyTransactionData::FileAppend(data) => data.to_schedulable_transaction_data(),
        }
    }
}

impl From<ContractExecuteTransactionData> for AnyTransactionData {
    fn from(transaction: ContractExecuteTransactionData) -> (any: Self) {
        AnyTransactionData::ContractExecute(transaction)
    }
}

impl vstd::std_specs::convert::FromSpecImpl<ContractExecuteTransactionData> for AnyTransactionData {
    open spec fn obeys_from_spec() -> bool {
        true
    }

    open spec fn from_spec(transaction: ContractExecuteTransactionData) -> Self {
        AnyTransactionData::ContractExecute(transaction)
    }
}

impl From<EthereumTransactionData> for AnyTransactionData {
    fn from(transaction: EthereumTransactionData) -> (any: Self) {
        AnyTransactionData::Ethereum(transaction)
    }
}

impl vstd::std_specs::convert::FromSpecImpl<EthereumTransactionData> for AnyTransactionData {
    open spec fn obeys_from_spec() -> bool {
        true
    }

    open spec fn from_spec(transaction: EthereumTransactionData) -> Self {
        AnyTransactionData::Ethereum(transaction)
    }
}

impl From<TokenUnpauseTransactionData> for AnyTransactionData {
    fn from(transaction: TokenUnpauseTransactionData) -> (any: Self) {
        AnyTransactionData::TokenUnpause(transaction)
    }
}

impl vstd::std_specs::convert::FromSpecImpl<TokenUnpauseTransactionData> for AnyTransactionData {
    open spec fn obeys_from_spec() -> bool {
        true
    }

    open spec fn from_spec(transaction: TokenUnpauseTransactionData) -> Self {
        AnyTransactionData::TokenUnpause(transaction)
    }
}

impl From<FileAppendTransactionData> for AnyTransactionData {
    fn from(transaction: FileAppendTransactionData) -> (any: Self) {
        AnyTransactionData::FileAppend(transaction)
    }
}

impl vstd::std_specs::convert::FromSpecImpl<FileAppendTransactionData> for AnyTransactionData {
    open spec fn obeys_from_spec() -> bool {
        true
    }

    open spec fn from_spec(transaction: FileAppendTransactionData) -> Self {
        AnyTransactionData::FileAppend(transaction)
    }
}

/// The payload that the wire form `data` describes. A file append comes back with the
/// slice it carried as its whole content and with the default slice size.
pub open spec fn spec_from_wire(data: WireBodyData) -> AnyTransactionData {
    match data {
        WireBodyData::ContractCall { contract_id, gas, amount, function_parameters } => {
            AnyTransactionData::ContractExecute(
                ContractExecuteTransactionData {
                    contract_id,
                    gas_limit: gas as u64,
                    value: amount as u64,
                    data: function_parameters,
                },
            )
        },
        WireBodyData::EthereumTransaction { ethereum_data, call_data, max_gas_allowance } => {
            AnyTransactionData::Ethereum(
                EthereumTransactionData {
                    ethereum_data,
                    call_data_file_id: call_data,
                    max_gas_allowance_hbar: Hbar { tinybars: max_gas_allowance },
                },
            )
        },
        WireBodyData::TokenUnpause { token } => AnyTransactionData::TokenUnpause(
            TokenUnpauseTransactionData { token_id: token },
        ),
        WireBodyData::FileAppend { file_id, contents } => AnyTransactionData::FileAppend(
            FileAppendTransactionData { file_id, contents, chunk_size: 4096 },
        ),
    }
}

impl AnyTransactionData {
    /// Reads a payload back from its wire form.
    pub fn from_wire(data: WireBodyData) -> (any: AnyTransactionData)
        ensures
            any == spec_from_wire(data),
    {
        match data {
            WireBodyData::ContractCall { contract_id, gas, amount, function_parameters } => {
                AnyTransactionData::ContractExecute(
                    ContractExecuteTransactionData {
                        contract_id,
                        gas_limit: #[verifier::truncate] (gas as u64),
                        value: #[verifier::truncate] (amount as u64),
                        data: function_parameters,
                    },
                )
            },
            WireBodyData::EthereumTransaction { ethereum_data, call_data, max_gas_allowance } => {
                AnyTransactionData::Ethereum(
                    EthereumTransactionData {
                        ethereum_data,
                        call_data_file_id: call_data,
                        max_gas_allowance_hbar: Hbar::from_tinybars(max_gas_allowance),
                    },
                )
            },
            WireBodyData::TokenUnpause { token } => AnyTransactionData::TokenUnpause(
                TokenUnpauseTransactionData { token_id: token },
            ),
            WireBodyData::FileAppend { file_id, contents } => AnyTransactionData::FileAppend(
                FileAppendTransactionData { file_id, contents, chunk_size: 4096 },
            ),
        }
    }

    /// This payload as the wire schema has it when it goes out whole, in one request.
    pub open spec fn spec_whole_body_data(&self) -> WireBodyDataView {
        self.spec_body_data(
            match self.spec_chunking() {
                Some((field, size)) => field,
                None => Seq::empty(),
            },
        )
    }
}

/// Whether `bodies` are one request: at least one body, and all of them the same but
/// for the node.
pub open spec fn is_one_request(bodies: Seq<WireTransactionBody>) -> bool {
    &&& bodies.len() > 0
    &&& forall|i: int| 0 <= i < bodies.len() ==> bodies[0]@.same_request(#[trigger] bodies[i]@)
}

/// The nodes that `bodies` are for, in order.
pub open spec fn body_nodes(bodies: Seq<WireTransactionBody>) -> Seq<AccountId> {
    Seq::new(bodies.len(), |i: int| bodies[i].node_account_id)
}

/// The envelope that the bodies of one request describe: frozen and unsigned, with
/// every field that the wire carries set to what the first body says, and the node list
/// made of the nodes of all bodies, in order.
pub open spec fn spec_from_wire_bodies(bodies: Seq<WireTransactionBody>) -> TransactionView<
    AnyTransactionData,
> {
    TransactionView {
        data: spec_from_wire(bodies[0].data),
        node_account_ids: Some(body_nodes(bodies)),
        transaction_valid_duration: Some(
            Duration { seconds: bodies[0].transaction_valid_duration, nanoseconds: 0 },
        ),
        max_transaction_fee: Some(Hbar { tinybars: bodies[0].transaction_fee as i64 }),
        transaction_memo: bodies[0].memo@,
        transaction_id: Some(bodies[0].transaction_id),
        operator: None,
        is_frozen: true,
        signers: Seq::empty(),
    }
}

/// Whether `next` is the body of chunk number `index` of the operation whose first
/// chunk has the body `first`: both append to the same file, the identity of `next` is
/// that of `first` advanced by `index`, and fee limit, valid duration and memo agree.
pub open spec fn spec_continues(
    first: WireTransactionBodyView,
    next: WireTransactionBodyView,
    index: u32,
) -> bool {
    &&& first.data is FileAppend
    &&& next.data is FileAppend
    &&& next.data->FileAppend_file_id == first.data->FileAppend_file_id
    &&& next.transaction_id == crate::chunk::spec_chunk_id(first.transaction_id, index)
    &&& next.transaction_fee == first.transaction_fee
    &&& next.transaction_valid_duration == first.transaction_valid_duration
    &&& next.memo == first.memo
}

/// Whether `requests` are one operation, chunk by chunk: at least one chunk and no
/// more than 32 bits can count; the bodies of each chunk are one request; and every
/// chunk after the first is for the same nodes as the first and continues it.
pub open spec fn is_operation(requests: Seq<Vec<WireTransactionBody>>) -> bool {
    &&& 0 < requests.len() <= u32::MAX
    &&& forall|c: int| 0 <= c < requests.len() ==> is_one_request((#[trigger] requests[c])@)
    &&& forall|c: int|
        0 < c < requests.len() ==> body_nodes((#[trigger] requests[c])@) == body_nodes(
            requests[0]@,
        ) && spec_continues(requests[0]@[0]@, requests[c]@[0]@, c as u32)
}

/// The slices that the chunks of `requests` carry, one after the other.
pub open spec fn joined_contents(requests: Seq<Vec<WireTransactionBody>>) -> Seq<u8>
    decreases requests.len(),
{
    if requests.len() == 0 {
        Seq::empty()
    } else {
        joined_contents(requests.drop_last()) + requests.last()@[0].data@->FileAppend_contents
    }
}

/// Whether `v` is the envelope that the operation `requests` describes. An operation of
/// one chunk describes what its only request describes. An operation of several chunks
/// describes what its first request describes, but with the slices of all chunks, one
/// after the other, as the content to append, and with the length of the first slice as
/// the slice size.
pub open spec fn is_envelope_of(
    v: TransactionView<AnyTransactionData>,
    requests: Seq<Vec<WireTransactionBody>>,
) -> bool {
    let first = spec_from_wire_bodies(requests[0]@);
    if requests.len() == 1 {
        v == first
    } else {
        &&& v == (TransactionView { data: v.data, ..first })
        &&& v.data is FileAppend
        &&& v.data->FileAppend_0.file_id == requests[0]@[0].data@->FileAppend_file_id
        &&& v.data->FileAppend_0.contents@ == joined_contents(requests)
        &&& v.data->FileAppend_0.chunk_size == requests[0]@[0].data@->FileAppend_contents.len()
    }
}

/// Whether `bodies` are one request, and if so, the nodes they are for.
fn request_nodes(bodies: &Vec<WireTransactionBody>) -> (nodes: Option<Vec<AccountId>>)
    ensures
        nodes is Some <==> is_one_request(bodies@),
        nodes is Some ==> nodes->Some_0@ == body_nodes(bodies@),
{
    if bodies.len() == 0 {
        return None;
    }
    let mut nodes: Vec<AccountId> = Vec::new();
    let mut i: usize = 0;
    while i < bodies.len()
        invariant
            i <= bodies.len(),
            bodies.len() > 0,
            nodes@.len() == i,
            forall|j: int| 0 <= j < i ==> nodes@[j] == bodies@[j].node_account_id,
            forall|j: int| 0 <= j < i ==> bodies@[0]@.same_request(#[trigger] bodies@[j]@),
        decreases bodies.len() - i,
    {
        if !bodies[0].same_request(&bodies[i]) {
            return None;
        }
        nodes.push(bodies[i].node_account_id);
        i += 1;
    }
    assert(nodes@ =~= body_nodes(bodies@));
    Some(nodes)
}

/// Whether the two lists name the same nodes in the same order.
fn same_nodes(a: &Vec<AccountId>, b: &Vec<AccountId>) -> (same: bool)
    ensures
        same == (a@ == b@),
{
    if a.len() != b.len() {
        return false;
    }
    let mut i: usize = 0;
    while i < a.len()
        invariant
            i <= a.len(),
            a.len() == b.len(),
            forall|j: int| 0 <= j < i ==> a@[j] == b@[j],
        decreases a.len() - i,
    {
        if !a[i].same_as(&b[i]) {
            return false;
        }
        i += 1;
    }
    assert(a@ =~= b@);
    true
}

/// Whether `next` continues the operation that `first` begins, as chunk number `index`.
fn continues(first: &WireTransactionBody, next: &WireTransactionBody, index: u32) -> (b: bool)
    ensures
        b == spec_continues(first@, next@, index),
{
    let same_file = match (&first.data, &next.data) {
        (
            WireBodyData::FileAppend { file_id, contents: _ },
            WireBodyData::FileAppend { file_id: file_id2, contents: _ },
        ) => crate::entity_id::same_optional_id(file_id, file_id2),
        _ => false,
    };
    let id = (ChunkInfo { index, total: 1, base_id: first.transaction_id }).transaction_id();
    same_file && next.transaction_id.same_as(&id) && next.transaction_fee == first.transaction_fee
        && next.transaction_valid_duration == first.transaction_valid_duration && next.memo
        == first.memo
}

/// The bodies of `groups`, group after group.
pub open spec fn flattened(groups: Seq<Vec<WireTransactionBody>>) -> Seq<WireTransactionBody>
    decreases groups.len(),
{
    if groups.len() == 0 {
        Seq::empty()
    } else {
        flattened(groups.drop_last()) + groups.last()@
    }
}

/// Whether all of `bodies` carry the same identity.
pub open spec fn same_identity(bodies: Seq<WireTransactionBody>) -> bool {
    forall|i: int|
        0 <= i < bodies.len() ==> (#[trigger] bodies[i]).transaction_id == bodies[0].transaction_id
}

/// Whether `groups` are `bodies` divided into runs of one identity each: the bodies
/// are all there, in order; no group is empty; the bodies of a group carry one identity;
/// and a group begins wherever the identity changes.
pub open spec fn are_runs_of(
    groups: Seq<Vec<WireTransactionBody>>,
    bodies: Seq<WireTransactionBody>,
) -> bool {
    &&& flattened(groups) == bodies
    &&& forall|g: int|
        0 <= g < groups.len() ==> (#[trigger] groups[g])@.len() > 0 && same_identity(groups[g]@)
    &&& forall|g: int|
        0 < g < groups.len() ==> (#[trigger] groups[g])@[0].transaction_id != groups[g
            - 1]@[0].transaction_id
}

/// Divides a list of bodies into the requests it holds: each run of bodies that carry
/// one identity is the request of one chunk.
pub fn group_requests(bodies: Vec<WireTransactionBody>) -> (groups: Vec<Vec<WireTransactionBody>>)
    ensures
        are_runs_of(groups@, bodies@),
{
    let ghost all = bodies@;
    let mut groups: Vec<Vec<WireTransactionBody>> = Vec::new();
    let mut current: Vec<WireTransactionBody> = Vec::new();
    for body in it: bodies
        invariant
            it.seq() == all,
            flattened(groups@) + current@ == all.take(it.index() as int),
            same_identity(current@),
            forall|g: int|
                0 <= g < groups@.len() ==> (#[trigger] groups@[g])@.len() > 0 && same_identity(
                    groups@[g]@,
                ),
            forall|g: int|
                0 < g < groups@.len() ==> (#[trigger] groups@[g])@[0].transaction_id != groups@[g
                    - 1]@[0].transaction_id,
            groups@.len() > 0 && current@.len() > 0 ==> current@[0].transaction_id
                != groups@[groups@.len() - 1]@[0].transaction_id,
            groups@.len() > 0 ==> current@.len() > 0,
    {
        let ghost before = flattened(groups@) + current@;
        if current.len() > 0 && !current[0].transaction_id.same_as(&body.transaction_id) {
            let ghost earlier = groups@;
            groups.push(current);
            proof {
                assert(groups@.drop_last() =~= earlier);
            }
            current = Vec::new();
        }
        current.push(body);
        proof {
            assert(all.take(it.index() + 1) =~= all.take(it.index() as int).push(body));
            assert(flattened(groups@) + current@ =~= before.push(body));
        }
    }
    proof {
        assert(all.take(all.len() as int) =~= all);
    }
    if current.len() > 0 {
        let ghost earlier = groups@;
        groups.push(current);
        proof {
            assert(groups@.drop_last() =~= earlier);
        }
    }
    groups
}

impl AnyTransaction {
    /// Reads an envelope back from the bodies of one request, one body per node. The
    /// envelope comes back frozen and without signers. Fails where there is no body or
    /// where the bodies differ in more than the node.
    pub fn from_wire_bodies(bodies: Vec<WireTransactionBody>) -> (r: Result<AnyTransaction, Error>)
        ensures
            r is Ok <==> is_one_request(bodies@),
            r is Ok ==> r->Ok_0@ == spec_from_wire_bodies(bodies@),
            r is Err ==> r->Err_0 == Error::SerializationError,
    {
        let nodes = match request_nodes(&bodies) {
            Some(nodes) => nodes,
            None => {
                return Err(Error::SerializationError);
            },
        };
        let mut bodies = bodies;
        let ghost all = bodies@;
        let first = bodies.swap_remove(0);
        assert(first == all[0]);
        let WireTransactionBody {
            transaction_id,
            node_account_id: _,
            transaction_fee,
            transaction_valid_duration,
            memo,
            data,
        } = first;
        Ok(
            Transaction {
                data: AnyTransactionData::from_wire(data),
                node_account_ids: Some(nodes),
                transaction_valid_duration: Some(Duration::seconds(transaction_valid_duration)),
                max_transaction_fee: Some(
                    Hbar::from_tinybars(#[verifier::truncate] (transaction_fee as i64)),
                ),
                transaction_memo: memo,
                transaction_id: Some(transaction_id),
                operator: None,
                is_frozen: true,
                signers: SignerSet::new(),
            },
        )
    }

    /// Reads an envelope back from all requests of one operation: for each chunk, in
    /// order, the bodies of its request, one body per node. The envelope comes back
    /// frozen and without signers. Where the operation has several chunks, their slices
    /// are joined into the content again. Fails where `requests` are not one operation.
    pub fn from_wire_requests(requests: Vec<Vec<WireTransactionBody>>) -> (r: Result<
        AnyTransaction,
        Error,
    >)
        ensures
            r is Ok <==> is_operation(requests@),
            r is Ok ==> is_envelope_of(r->Ok_0@, requests@),
            r is Err ==> r->Err_0 == Error::SerializationError,
    {
        if requests.len() == 0 || requests.len() > 0xffff_ffff {
            return Err(Error::SerializationError);
        }
        let several = requests.len() > 1;
        let first_nodes = match request_nodes(&requests[0]) {
            Some(nodes) => nodes,
            None => {
                return Err(Error::SerializationError);
            },
        };
        let mut file_id: Option<FileId> = None;
        let mut chunk_size: usize = 0;
        let mut contents: Vec<u8> = Vec::new();
        let mut c: usize = 0;
        while c < requests.len()
            invariant
                c <= requests.len(),
                0 < requests.len() <= u32::MAX,
                several == (requests.len() > 1),
                is_one_request(requests@[0]@),
                first_nodes@ == body_nodes(requests@[0]@),
                forall|k: int| 0 <= k < c ==> is_one_request((#[trigger] requests@[k])@),
                forall|k: int|
                    0 < k < c ==> body_nodes((#[trigger] requests@[k])@) == body_nodes(
                        requests@[0]@,
                    ) && spec_continues(requests@[0]@[0]@, requests@[k]@[0]@, k as u32),
                several ==> contents@ == joined_contents(requests@.take(c as int)),
                several && c > 0 ==> requests@[0]@[0].data is FileAppend && file_id
                    == requests@[0]@[0].data@->FileAppend_file_id && chunk_size
                    == requests@[0]@[0].data@->FileAppend_contents.len(),
            decreases requests.len() - c,
        {
            let group = &requests[c];
            let nodes = match request_nodes(group) {
                Some(nodes) => nodes,
                None => {
                    return Err(Error::SerializationError);
                },
            };
            if c > 0 {
                if !same_nodes(&nodes, &first_nodes) || !continues(
                    &requests[0][0],
                    &group[0],
                    c as u32,
                ) {
                    return Err(Error::SerializationError);
                }
            }
            if several {
                match &group[0].data {
                    WireBodyData::FileAppend { file_id: id, contents: slice } => {
                        if c == 0 {
                            file_id = *id;
                            chunk_size = slice.len();
                        }
                        crate::bytes::append_bytes(&mut contents, slice.as_slice());
                    },
                    _ => {
                        proof {
                            if c == 0 {
                                assert(!spec_continues(
                                    requests@[0]@[0]@,
                                    requests@[1]@[0]@,
                                    1u32,
                                ));
                            }
                        }
                        return Err(Error::SerializationError);
                    },
                }
                proof {
                    assert(requests@.take(c + 1).drop_last() =~= requests@.take(c as int));
                    assert(requests@.take(c + 1).last() == requests@[c as int]);
                }
            }
            c += 1;
        }
        proof {
            assert(requests@.take(requests.len() as int) =~= requests@);
        }
        let mut requests = requests;
        let ghost all = requests@;
        let first = requests.swap_remove(0);
        assert(first == all[0]);
        let mut envelope = match AnyTransaction::from_wire_bodies(first) {
            Ok(envelope) => envelope,
            Err(e) => {
                return Err(e);
            },
        };
        if several {
            envelope.data = AnyTransactionData::FileAppend(
                FileAppendTransactionData { file_id, contents, chunk_size },
            );
        }
        Ok(envelope)
    }
}

/// Reading a payload back from its wire form and rendering it whole again gives the
/// wire form that was read.
pub proof fn lemma_payload_round_trip(data: WireBodyData)
    ensures
        spec_from_wire(data).spec_whole_body_data() == data@,
{
    match data {
        WireBodyData::ContractCall { contract_id, gas, amount, function_parameters } => {
            assert((gas as u64) as i64 == gas) by (bit_vector);
            assert((amount as u64) as i64 == amount) by (bit_vector);
        },
        _ => {},
    }
}

/// What reading the bodies of one chunk's request gives, whichever chunk it is.
proof fn lemma_bodies_read_back<D: TransactionExecute>(
    v: TransactionView<D>,
    chunk: Chunk,
    bodies: Seq<WireTransactionBody>,
)
    requires
        v.node_account_ids is Some,
        v.node_account_ids->Some_0.len() > 0,
        crate::transaction::are_bodies_of(bodies, v, chunk),
    ensures
        is_one_request(bodies),
        body_nodes(bodies) == v.node_account_ids->Some_0,
        bodies[0]@ == crate::transaction::spec_body(v, v.node_account_ids->Some_0[0], chunk),
        ({
            let back = spec_from_wire_bodies(bodies);
            &&& back.is_frozen
            &&& back.signers == Seq::<crate::signer::SignerEntry>::empty()
            &&& back.node_account_ids == v.node_account_ids
            &&& back.transaction_id == Some(chunk.info.spec_transaction_id())
            &&& back.transaction_memo == v.transaction_memo
            &&& back.transaction_valid_duration == Some(
                Duration {
                    seconds: match v.transaction_valid_duration {
                        Some(duration) => duration.seconds,
                        None => crate::duration::DEFAULT_TRANSACTION_VALID_SECONDS,
                    },
                    nanoseconds: 0,
                },
            )
            &&& back.max_transaction_fee == Some(
                match v.max_transaction_fee {
                    Some(fee) => fee,
                    None => v.data.spec_default_max_transaction_fee(),
                },
            )
            &&& back.data.spec_whole_body_data() == v.data.spec_body_data(chunk.data@)
        }),
{
    let nodes = v.node_account_ids->Some_0;
    assert(bodies[0]@ == crate::transaction::spec_body(v, nodes[0], chunk));
    assert forall|i: int| 0 <= i < bodies.len() implies bodies[0]@.same_request(
        #[trigger] bodies[i]@,
    ) by {
        assert(bodies[i]@ == crate::transaction::spec_body(v, nodes[i], chunk));
    }
    assert(body_nodes(bodies) =~= nodes) by {
        assert forall|i: int| 0 <= i < bodies.len() implies body_nodes(bodies)[i] == nodes[i] by {
            assert(bodies[i]@ == crate::transaction::spec_body(v, nodes[i], chunk));
        }
    }
    let fee = match v.max_transaction_fee {
        Some(fee) => fee,
        None => v.data.spec_default_max_transaction_fee(),
    };
    let t = fee.tinybars;
    assert((t as u64) as i64 == t) by (bit_vector);
    lemma_payload_round_trip(bodies[0].data);
}

/// The round trip of an envelope through its wire bodies. Where `bodies` are the bodies
/// of the single request of an envelope with at least one node, reading them back
/// succeeds and gives a frozen, unsigned envelope with the same node list, identity and
/// memo, with the fee limit and valid duration that the bodies were rendered with, and
/// with a payload that renders as the payload of the envelope did. Signers are not part
/// of a body and do not come back.
pub proof fn lemma_wire_round_trip<D: TransactionExecute>(
    v: TransactionView<D>,
    chunk: Chunk,
    bodies: Seq<WireTransactionBody>,
)
    requires
        v.node_account_ids is Some,
        v.node_account_ids->Some_0.len() > 0,
        chunk.info.spec_is_single(),
        crate::transaction::are_bodies_of(bodies, v, chunk),
    ensures
        is_one_request(bodies),
        ({
            let back = spec_from_wire_bodies(bodies);
            &&& back.is_frozen
            &&& back.signers == Seq::<crate::signer::SignerEntry>::empty()
            &&& back.node_account_ids == v.node_account_ids
            &&& back.transaction_id == Some(chunk.info.base_id)
            &&& back.transaction_memo == v.transaction_memo
            &&& back.transaction_valid_duration == Some(
                Duration {
                    seconds: match v.transaction_valid_duration {
                        Some(duration) => duration.seconds,
                        None => crate::duration::DEFAULT_TRANSACTION_VALID_SECONDS,
                    },
                    nanoseconds: 0,
                },
            )
            &&& back.max_transaction_fee == Some(
                match v.max_transaction_fee {
                    Some(fee) => fee,
                    None => v.data.spec_default_max_transaction_fee(),
                },
            )
            &&& back.data.spec_whole_body_data() == v.data.spec_body_data(chunk.data@)
        }),
{
    lemma_bodies_read_back(v, chunk, bodies);
}

/// The slices that the first `k` requests of an operation carry are the first `k`
/// slices of its plan.
proof fn lemma_joined_slices(
    v: TransactionView<AnyTransactionData>,
    plan: Seq<Chunk>,
    requests: Seq<Vec<WireTransactionBody>>,
    k: nat,
)
    requires
        v.data is FileAppend,
        v.node_account_ids is Some,
        v.node_account_ids->Some_0.len() > 0,
        requests.len() == plan.len(),
        k <= plan.len(),
        forall|c: int|
            0 <= c < requests.len() ==> crate::transaction::are_bodies_of(
                (#[trigger] requests[c])@,
                v,
                plan[c],
            ),
    ensures
        joined_contents(requests.take(k as int)) == crate::chunk::concat_slices(
            plan.take(k as int),
        ),
    decreases k,
{
    if k > 0 {
        let j = (k - 1) as int;
        lemma_joined_slices(v, plan, requests, j as nat);
        assert(requests.take(k as int).drop_last() =~= requests.take(j));
        assert(plan.take(k as int).drop_last() =~= plan.take(j));
        assert(requests.take(k as int).last() == requests[j]);
        assert(plan.take(k as int).last() == plan[j]);
        lemma_bodies_read_back(v, plan[j], requests[j]@);
    } else {
        assert(requests.take(0).len() == 0);
        assert(plan.take(0).len() == 0);
    }
}

/// The round trip of an operation through all of its requests. Where `requests` are
/// the requests of an envelope that has at least one node and at least one chunk, they
/// read back as one operation, and the envelope that comes back is frozen and unsigned,
/// has the same node list, identity and memo, the fee limit and valid duration that the
/// bodies were rendered with, and a payload that renders whole as the payload of the
/// envelope does: the slices of the chunks are the content again. The slice size is not
/// part of a body and does not come back, nor do signers.
pub proof fn lemma_operation_round_trip(
    v: TransactionView<AnyTransactionData>,
    id: TransactionId,
    requests: Seq<Vec<WireTransactionBody>>,
    back: TransactionView<AnyTransactionData>,
)
    requires
        v.node_account_ids is Some,
        v.node_account_ids->Some_0.len() > 0,
        crate::transaction::can_plan(v.data),
        requests.len() > 0,
        crate::transaction::are_requests_of(requests, v, id),
        is_envelope_of(back, requests),
    ensures
        is_operation(requests),
        back.is_frozen,
        back.signers == Seq::<crate::signer::SignerEntry>::empty(),
        back.node_account_ids == v.node_account_ids,
        back.transaction_id == Some(id),
        back.transaction_memo == v.transaction_memo,
        back.transaction_valid_duration == Some(
            Duration {
                seconds: match v.transaction_valid_duration {
                    Some(duration) => duration.seconds,
                    None => crate::duration::DEFAULT_TRANSACTION_VALID_SECONDS,
                },
                nanoseconds: 0,
            },
        ),
        back.max_transaction_fee == Some(
            match v.max_transaction_fee {
                Some(fee) => fee,
                None => v.data.spec_default_max_transaction_fee(),
            },
        ),
        back.data.spec_whole_body_data() == v.data.spec_whole_body_data(),
{
    let plan = choose|plan: Seq<Chunk>|
        {
            &&& #[trigger] crate::transaction::is_plan_for(plan, v.data, id)
            &&& requests.len() == plan.len()
            &&& forall|k: int|
                0 <= k < requests.len() ==> crate::transaction::are_bodies_of(
                    (#[trigger] requests[k])@,
                    v,
                    plan[k],
                )
        };
    let n = requests.len() as int;
    assert(crate::chunk::spec_chunk_id(id, 0) == id);
    assert forall|c: int| 0 <= c < n implies is_one_request((#[trigger] requests[c])@) by {
        lemma_bodies_read_back(v, plan[c], requests[c]@);
    }
    lemma_bodies_read_back(v, plan[0], requests[0]@);
    match v.data.spec_chunking() {
        None => {
            assert(plan[0].data@ == Seq::<u8>::empty());
        },
        Some((field, size)) => {
            assert(v.data is FileAppend);
            crate::chunk::lemma_plan_reconstructs(plan, field, size, id);
            assert(plan[0].info.total == n);
            assert forall|c: int| 0 < c < n implies body_nodes((#[trigger] requests[c])@)
                == body_nodes(requests[0]@) && spec_continues(
                requests[0]@[0]@,
                requests[c]@[0]@,
                c as u32,
            ) by {
                lemma_bodies_read_back(v, plan[c], requests[c]@);
                assert(plan[c].info.index == c);
            }
            lemma_joined_slices(v, plan, requests, n as nat);
            assert(requests.take(n) =~= requests);
            assert(plan.take(n) =~= plan);
            if n == 1 {
                assert(plan.drop_last().len() == 0);
                assert(crate::chunk::concat_slices(plan.drop_last()) =~= Seq::<u8>::empty());
                assert(plan.last() == plan[0]);
                assert(crate::chunk::concat_slices(plan) =~= plan[0].data@);
            }
        },
    }
}

} // verus!
