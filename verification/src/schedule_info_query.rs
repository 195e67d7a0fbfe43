//! The schedule information query payload.

use vstd::prelude::*;

use crate::entity_id::{EntityId, ScheduleId};
use crate::query::Query;
use crate::wire::{ServiceMethod, WireQueryData};

verus! {

/// Get all the information about a schedule.
pub type ScheduleInfoQuery = Query<ScheduleInfoQueryData>;

/// What a schedule information query carries.
#[derive(Clone, Copy, Debug, PartialEq, Eq)]
pub struct ScheduleInfoQueryData {
    pub schedule_id: Option<ScheduleId>,
}

/// A query payload of any of the kinds that this library knows.
#[derive(Clone, Copy, Debug, PartialEq, Eq)]
pub enum AnyQueryData {
    ScheduleInfo(ScheduleInfoQueryData),
}

impl From<ScheduleInfoQueryData> for AnyQueryData {
    fn from(data: ScheduleInfoQueryData) -> (any: Self) {
        AnyQueryData::ScheduleInfo(data)
    }
}

impl vstd::std_specs::convert::FromSpecImpl<ScheduleInfoQueryData> for AnyQueryData {
    open spec fn obeys_from_spec() -> bool {
        true
    }

    open spec fn from_spec(data: ScheduleInfoQueryData) -> Self {
        AnyQueryData::ScheduleInfo(data)
    }
}

impl AnyQueryData {
    /// This payload as the wire schema has it.
    pub fn to_query_data(&self) -> (data: WireQueryData)
        ensures
            data == match *self {
                AnyQueryData::ScheduleInfo(query) => WireQueryData::ScheduleGetInfo {
                    schedule_id: query.schedule_id,
                },
            },
    {
        match self {
            AnyQueryData::ScheduleInfo(query) => query.to_query_data(),
        }
    }

    /// The network service method that answers this query.
    pub fn service_method(&self) -> (method: ServiceMethod)
        ensures
            method == ServiceMethod::GetScheduleInfo,
    {
        match self {
            AnyQueryData::ScheduleInfo(query) => query.service_method(),
        }
    }
}

impl ScheduleInfoQueryData {
    /// A query payload that names no schedule yet.
    pub fn empty() -> (data: Self)
        ensures
            data == (ScheduleInfoQueryData { schedule_id: None }),
    {
        ScheduleInfoQueryData { schedule_id: None }
    }

    /// This payload as the wire schema has it.
    pub fn to_query_data(&self) -> (data: WireQueryData)
        ensures
            data == (WireQueryData::ScheduleGetInfo { schedule_id: self.schedule_id }),
    {
        WireQueryData::ScheduleGetInfo { schedule_id: self.schedule_id }
    }

    /// The network service method that answers this query.
    pub fn service_method(&self) -> (method: ServiceMethod)
        ensures
            method == ServiceMethod::GetScheduleInfo,
    {
        ServiceMethod::GetScheduleInfo
    }

    /// The entity identifiers that this payload embeds.
    pub open spec fn spec_entity_ids(&self) -> Seq<EntityId> {
        match self.schedule_id {
            Some(id) => seq![id],
            None => Seq::empty(),
        }
    }

    /// The entity identifiers that this payload embeds.
    pub fn entity_ids(&self) -> (ids: Vec<EntityId>)
        ensures
            ids@ == self.spec_entity_ids(),
    {
        let mut ids: Vec<EntityId> = Vec::new();
        match self.schedule_id {
            Some(id) => {
                ids.push(id);
                assert(ids@ =~= seq![id]);
            },
            None => {},
        }
        ids
    }
}

impl ScheduleInfoQuery {
    /// A query that names no schedule yet.
    pub fn new() -> (query: Self)
        ensures
            query@ == (ScheduleInfoQueryData { schedule_id: None }),
    {
        Query::new_with(ScheduleInfoQueryData::empty())
    }

    /// Sets the schedule ID for which information is requested.
    pub fn schedule_id(&mut self, id: ScheduleId) -> (r: &mut Self)
        ensures
            (*r)@ == (ScheduleInfoQueryData { schedule_id: Some(id) }),
            *final(self) == *final(r),
    {
        self.data.schedule_id = Some(id);
        self
    }
}

} // verus!
