//! The envelope of a query.

use vstd::prelude::*;

verus! {

/// A request for information: one query payload. A query changes nothing on the
/// ledger and is never frozen.
pub struct Query<D> {
    pub(crate) data: D,
}

impl<D> View for Query<D> {
    type V = D;

    open(crate) spec fn view(&self) -> D {
        self.data
    }
}

impl<D> Query<D> {
    /// A query around `data`.
    pub fn new_with(data: D) -> (query: Self)
        ensures
            query@ == data,
    {
        Query { data }
    }

    /// The payload of this query.
    pub fn data(&self) -> (data: &D)
        ensures
            *data == self@,
    {
        &self.data
    }
}

} // verus!
