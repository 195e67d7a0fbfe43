//! The errors of this library.

use vstd::prelude::*;

use crate::entity_id::{Checksum, EntityId};

verus! {

/// Why a single submission attempt did not get the request accepted.
#[derive(Clone, Copy, Debug, PartialEq, Eq)]
pub enum Cause {
    /// The transport could not deliver the request or the response.
    Transport,
    /// The node answered with a status code of the retryable class.
    Status(i32),
}

/// Everything that can go wrong in this library, each kind distinct from the others.
#[derive(Clone, Copy, Debug, PartialEq, Eq)]
pub enum Error {
    /// Freezing found no explicit node list and was given no client context.
    MissingNodeList,
    /// Neither an explicit request identity nor a payer is known when one is needed.
    MissingPayer,
    /// A mutator was called on a frozen envelope.
    FrozenContractViolation,
    /// An entity identifier carries a checksum that belongs to another network.
    ChecksumMismatch { id: EntityId, expected: Checksum },
    /// A payload kind that fits one request only was asked to render a chunk of several.
    UnsupportedChunking,
    /// A node rejected the request with a status code that is not retried.
    FatalProtocolFailure { status: i32 },
    /// Every permitted attempt on one chunk failed transiently.
    MaxAttemptsExceeded { last: Cause },
    /// The overall time budget ran out.
    TimeoutExceeded { last_seen: Option<Cause> },
    /// Decoded wire values do not describe one well-formed request.
    SerializationError,
}

impl Error {
    /// Whether this error reports missing configuration rather than misuse or a network fault.
    pub open spec fn spec_is_configuration(self) -> bool {
        self is MissingNodeList || self is MissingPayer
    }

    /// Whether this error reports missing configuration rather than misuse or a network fault.
    pub fn is_configuration(&self) -> (b: bool)
        ensures
            b == self.spec_is_configuration(),
    {
        match self {
            Error::MissingNodeList => true,
            Error::MissingPayer => true,
            _ => false,
        }
    }
}

} // verus!
