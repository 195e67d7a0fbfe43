//! The file append payload, whose content may span several requests.

use vstd::prelude::*;

use crate::bytes::copy_bytes;
use crate::chunk::Chunk;
use crate::entity_id::{EntityId, FileId};
use crate::error::Error;
use crate::hbar::Hbar;
use crate::transaction::{EmptyData, Transaction, TransactionExecute, TransactionView};
use crate::wire::{ServiceMethod, WireBodyData, WireBodyDataView, WireSchedulableData};

verus! {

/// The size of the slices that new content is divided into unless the caller sets
/// another.
pub const DEFAULT_CHUNK_SIZE: usize = 4096;

/// Append content to the end of a file. Content that does not fit one request is sent
/// as several, one slice each.
pub type FileAppendTransaction = Transaction<FileAppendTransactionData>;

/// What a file append carries: the file, the content to append, and the size of the
/// slices the content is divided into.
#[derive(Clone, Debug, PartialEq, Eq)]
pub struct FileAppendTransactionData {
    pub file_id: Option<FileId>,
    pub contents: Vec<u8>,
    pub chunk_size: usize,
}

impl EmptyData for FileAppendTransactionData {
    open spec fn spec_is_empty(&self) -> bool {
        &&& self.file_id is None
        &&& self.contents@ == Seq::<u8>::empty()
        &&& self.chunk_size == 4096
    }

    fn empty() -> (data: Self) {
        FileAppendTransactionData { file_id: None, contents: Vec::new(), chunk_size: DEFAULT_CHUNK_SIZE }
    }
}

impl TransactionExecute for FileAppendTransactionData {
    open spec fn spec_default_max_transaction_fee(&self) -> Hbar {
        Hbar { tinybars: 500_000_000 }
    }

    open spec fn spec_entity_ids(&self) -> Seq<EntityId> {
        match self.file_id {
            Some(id) => seq![id],
            None => Seq::empty(),
        }
    }

    open spec fn spec_service_method(&self) -> ServiceMethod {
        ServiceMethod::AppendContent
    }

    open spec fn spec_chunking(&self) -> Option<(Seq<u8>, nat)> {
        Some((self.contents@, self.chunk_size as nat))
    }

    open spec fn spec_body_data(&self, slice: Seq<u8>) -> WireBodyDataView {
        WireBodyDataView::FileAppend { file_id: self.file_id, contents: slice }
    }

    open spec fn spec_schedulable_data(&self) -> Option<WireSchedulableData> {
        None
    }

    fn default_max_transaction_fee(&self) -> (fee: Hbar) {
        Hbar::from_tinybars(500_000_000)
    }

    fn entity_ids(&self) -> (ids: Vec<EntityId>) {
        let mut ids: Vec<EntityId> = Vec::new();
        match self.file_id {
            Some(id) => {
                ids.push(id);
                assert(ids@ =~= seq![id]);
            },
            None => {},
        }
        ids
    }

    fn service_method(&self) -> (method: ServiceMethod) {
        ServiceMethod::AppendContent
    }

    fn chunking(&self) -> (c: Option<(&Vec<u8>, usize)>) {
        Some((&self.contents, self.chunk_size))
    }

    fn to_transaction_data(&self, chunk: &Chunk) -> (r: Result<WireBodyData, Error>) {
        Ok(
            WireBodyData::FileAppend {
                file_id: self.file_id,
                contents: copy_bytes(chunk.data.as_slice()),
            },
        )
    }

    fn to_schedulable_transaction_data(&self) -> (r: Option<WireSchedulableData>) {
        None
    }
}

impl FileAppendTransactionData {
    /// Reads the payload back from its wire form: the content is the slice that the
    /// request carried, and the slice size is the default. Fails where `data` is the
    /// wire form of another payload kind.
    pub fn from_wire(data: WireBodyData) -> (r: Result<Self, Error>)
        ensures
            r is Ok <==> data is FileAppend,
            r is Ok ==> r->Ok_0 == (FileAppendTransactionData {
                file_id: data->FileAppend_file_id,
                contents: data->FileAppend_contents,
                chunk_size: 4096,
            }),
            r is Err ==> r->Err_0 == Error::SerializationError,
    {
        match data {
            WireBodyData::FileAppend { file_id, contents } => Ok(
                FileAppendTransactionData { file_id, contents, chunk_size: DEFAULT_CHUNK_SIZE },
            ),
            _ => Err(Error::SerializationError),
        }
    }
}

impl FileAppendTransaction {
    /// The file to append to, where one is set.
    pub fn get_file_id(&self) -> (id: Option<FileId>)
        ensures
            id == self@.data.file_id,
    {
        self.data.file_id
    }

    /// Sets the file to append to. Fails on a frozen envelope.
    pub fn file_id(&mut self, id: FileId) -> (r: Result<&mut Self, Error>)
        ensures
            old(self)@.is_frozen ==> r == Err::<&mut Self, Error>(Error::FrozenContractViolation)
                && final(self)@ == old(self)@,
            !old(self)@.is_frozen ==> r is Ok && (*r->Ok_0)@ == (TransactionView {
                data: FileAppendTransactionData { file_id: Some(id), ..old(self)@.data },
                ..old(self)@
            }) && *final(self) == *final(r->Ok_0),
    {
        if self.is_frozen() {
            return Err(Error::FrozenContractViolation);
        }
        self.data.file_id = Some(id);
        Ok(self)
    }

    /// The content to append.
    pub fn get_contents(&self) -> (contents: &[u8])
        ensures
            contents@ == self@.data.contents@,
    {
        self.data.contents.as_slice()
    }

    /// Sets the content to append. Fails on a frozen envelope.
    pub fn contents(&mut self, contents: Vec<u8>) -> (r: Result<&mut Self, Error>)
        ensures
            old(self)@.is_frozen ==> r == Err::<&mut Self, Error>(Error::FrozenContractViolation)
                && final(self)@ == old(self)@,
            !old(self)@.is_frozen ==> r is Ok && (*r->Ok_0)@ == (TransactionView {
                data: FileAppendTransactionData { contents: contents, ..old(self)@.data },
                ..old(self)@
            }) && *final(self) == *final(r->Ok_0),
    {
        if self.is_frozen() {
            return Err(Error::FrozenContractViolation);
        }
        self.data.contents = contents;
        Ok(self)
    }

    /// The size of the slices the content is divided into.
    pub fn get_chunk_size(&self) -> (size: usize)
        ensures
            size == self@.data.chunk_size,
    {
        self.data.chunk_size
    }

    /// Sets the size of the slices the content is divided into. Fails on a frozen envelope.
    pub fn chunk_size(&mut self, size: usize) -> (r: Result<&mut Self, Error>)
        ensures
            old(self)@.is_frozen ==> r == Err::<&mut Self, Error>(Error::FrozenContractViolation)
                && final(self)@ == old(self)@,
            !old(self)@.is_frozen ==> r is Ok && (*r->Ok_0)@ == (TransactionView {
                data: FileAppendTransactionData { chunk_size: size, ..old(self)@.data },
                ..old(self)@
            }) && *final(self) == *final(r->Ok_0),
    {
        if self.is_frozen() {
            return Err(Error::FrozenContractViolation);
        }
        self.data.chunk_size = size;
        Ok(self)
    }
}

} // verus!
