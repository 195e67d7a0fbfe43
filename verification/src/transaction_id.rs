//! The identity of a request.

use vstd::prelude::*;

use crate::duration::Timestamp;
use crate::entity_id::AccountId;

verus! {

/// The identity of a request: who pays for it and from when it is valid. The nonce tells
/// apart the requests that one logical operation was split into.
#[derive(Clone, Copy, Debug, PartialEq, Eq)]
pub struct TransactionId {
    pub account_id: AccountId,
    pub valid_start: Timestamp,
    pub scheduled: bool,
    pub nonce: u32,
}

/// Reads the clock with `time::OffsetDateTime::now_utc` and returns its Unix timestamp
/// (`unix_timestamp`) and its nanosecond within the second (`nanosecond`). What the
/// clock says is not known in advance, and two readings may differ; the crate documents
/// only that the nanosecond is below one thousand million. The reading fails only where
/// the system clock stands outside the years that the crate can represent.
#[verifier::external_body]
fn unix_now() -> (now: (i64, u32))
    ensures
        now.1 < 1_000_000_000,
{
    let now = time::OffsetDateTime::now_utc();
    (now.unix_timestamp(), now.nanosecond())
}

impl TransactionId {
    /// Whether the two identities are equal.
    pub fn same_as(&self, other: &TransactionId) -> (same: bool)
        ensures
            same == (*self == *other),
    {
        self.account_id.same_as(&other.account_id) && self.valid_start.seconds
            == other.valid_start.seconds && self.valid_start.nanos == other.valid_start.nanos
            && self.scheduled == other.scheduled && self.nonce == other.nonce
    }

    /// The identity of a request that `account_id` pays for and that is valid from
    /// `valid_start` on, neither scheduled nor part of a split operation.
    pub fn with_valid_start(account_id: AccountId, valid_start: Timestamp) -> (id: TransactionId)
        ensures
            id == (TransactionId { account_id, valid_start, scheduled: false, nonce: 0 }),
    {
        TransactionId { account_id, valid_start, scheduled: false, nonce: 0 }
    }

    /// A fresh identity for a request that `account_id` pays for, valid from the moment
    /// the clock shows now.
    pub fn generate(account_id: AccountId) -> (id: TransactionId)
        ensures
            id.account_id == account_id,
            !id.scheduled,
            id.nonce == 0,
            0 <= id.valid_start.nanos < 1_000_000_000,
    {
        let (seconds, nanos) = unix_now();
        TransactionId::with_valid_start(account_id, Timestamp::new(seconds, nanos as i32))
    }
}

} // verus!
