//! The chunk planner: dividing an oversized field into ordered slices that share an
//! identity.

use vstd::prelude::*;

use crate::bytes::copy_range;
use crate::transaction_id::TransactionId;

verus! {

/// Where one request stands among the requests that one logical operation was split
/// into. An operation that was not split is the case of one chunk out of one.
#[derive(Clone, Copy, Debug, PartialEq, Eq)]
pub struct ChunkInfo {
    pub index: u32,
    pub total: u32,
    pub base_id: TransactionId,
}

/// One planned request of a split operation: its place and its slice of the oversized
/// field.
#[derive(Clone, Debug, PartialEq, Eq)]
pub struct Chunk {
    pub info: ChunkInfo,
    pub data: Vec<u8>,
}

/// The number of slices of `size` bytes that `len` bytes are divided into: `len / size`,
/// rounded up.
pub open spec fn chunk_count(len: nat, size: nat) -> nat {
    ((len + size - 1) / (size as int)) as nat
}

/// Slice number `index` of `field` when it is divided into slices of `size` bytes.
pub open spec fn chunk_slice(field: Seq<u8>, size: nat, index: nat) -> Seq<u8> {
    let start = (index * size) as int;
    let end = if start + size <= field.len() {
        start + size
    } else {
        field.len() as int
    };
    field.subrange(start, end)
}

/// Whether `plan` is the division of `field` into slices of `size` bytes under the
/// identity `base_id`: one chunk per slice, in order, each knowing its index and the
/// total.
pub open spec fn is_plan_of(
    plan: Seq<Chunk>,
    field: Seq<u8>,
    size: nat,
    base_id: TransactionId,
) -> bool {
    &&& plan.len() == chunk_count(field.len(), size)
    &&& forall|i: int|
        0 <= i < plan.len() ==> {
            &&& (#[trigger] plan[i]).info.index == i
            &&& plan[i].info.total == plan.len()
            &&& plan[i].info.base_id == base_id
            &&& plan[i].data@ == chunk_slice(field, size, i as nat)
        }
}

/// The slices of `plan`, one after the other.
pub open spec fn concat_slices(plan: Seq<Chunk>) -> Seq<u8>
    decreases plan.len(),
{
    if plan.len() == 0 {
        Seq::empty()
    } else {
        concat_slices(plan.drop_last()) + plan.last().data@
    }
}

/// Slice `index` starts inside a field of `len` bytes exactly when `index` is below the
/// number of slices.
pub proof fn lemma_chunk_count(len: nat, size: nat, index: nat)
    requires
        size > 0,
    ensures
        index * size < len <==> index < chunk_count(len, size),
{
    let q = (len + size - 1) / (size as int);
    vstd::arithmetic::div_mod::lemma_fundamental_div_mod(len + size - 1, size as int);
    assert(0 <= (len + size - 1) % (size as int) < size);
    assert(index * size < len <==> index < q) by (nonlinear_arith)
        requires
            size > 0,
            size * q <= len + size - 1,
            len + size - 1 < size * q + size,
    ;
}

/// The number of slices without rounding: none for an empty field, else one more than
/// the slices that fit before the last byte.
pub proof fn lemma_chunk_count_of(len: nat, size: nat)
    requires
        size > 0,
    ensures
        chunk_count(len, size) == if len == 0 {
            0
        } else {
            (len - 1) / (size as int) + 1
        },
{
    if len == 0 {
        lemma_chunk_count(0, size, 0);
    } else {
        vstd::arithmetic::div_mod::lemma_div_plus_one(len - 1, size as int);
        assert(size + (len - 1) == len + size - 1);
    }
}

/// The identity of the request for chunk number `index` of the operation `base_id`:
/// that of the operation, with the nonce advanced by the index (wrapping at the end of
/// the 32-bit range).
pub open spec fn spec_chunk_id(base_id: TransactionId, index: u32) -> TransactionId {
    TransactionId { nonce: ((base_id.nonce + index) % 0x1_0000_0000) as u32, ..base_id }
}

impl ChunkInfo {
    /// The place of the only request of an operation that was not split.
    pub fn single(base_id: TransactionId) -> (info: ChunkInfo)
        ensures
            info == (ChunkInfo { index: 0, total: 1, base_id }),
    {
        ChunkInfo { index: 0, total: 1, base_id }
    }

    /// Whether this is the only request of its operation.
    pub open spec fn spec_is_single(&self) -> bool {
        self.index == 0 && self.total == 1
    }

    /// Whether this is the only request of its operation.
    pub fn is_single(&self) -> (b: bool)
        ensures
            b == self.spec_is_single(),
    {
        self.index == 0 && self.total == 1
    }

    /// The identity of this chunk's request: that of the operation, with the nonce
    /// advanced by the chunk's index (wrapping at the end of the 32-bit range).
    pub open spec fn spec_transaction_id(&self) -> TransactionId {
        spec_chunk_id(self.base_id, self.index)
    }

    /// The identity of this chunk's request.
    pub fn transaction_id(&self) -> (id: TransactionId)
        ensures
            id == self.spec_transaction_id(),
    {
        let sum: u64 = self.base_id.nonce as u64 + self.index as u64;
        TransactionId {
            account_id: self.base_id.account_id,
            valid_start: self.base_id.valid_start,
            scheduled: self.base_id.scheduled,
            nonce: (sum % 0x1_0000_0000) as u32,
        }
    }
}

/// Divides `field` into slices of `chunk_size` bytes, in order, and gives each its place
/// under the identity `base_id`.
pub fn plan_chunks(field: &[u8], chunk_size: usize, base_id: TransactionId) -> (plan: Vec<Chunk>)
    requires
        chunk_size > 0,
        chunk_count(field@.len(), chunk_size as nat) <= u32::MAX,
    ensures
        is_plan_of(plan@, field@, chunk_size as nat, base_id),
{
    let len = field.len();
    proof {
        lemma_chunk_count_of(len as nat, chunk_size as nat);
    }
    let total: u32 = if len == 0 {
        0
    } else {
        ((len - 1) / chunk_size + 1) as u32
    };
    let mut plan: Vec<Chunk> = Vec::new();
    let mut start: usize = 0;
    let mut index: u32 = 0;
    while start < len
        invariant
            chunk_size > 0,
            len == field@.len(),
            total == chunk_count(len as nat, chunk_size as nat),
            index <= total,
            start == index * chunk_size || (index == total && start >= len),
            start < len ==> start == index * chunk_size,
            start >= len ==> index == total,
            plan@.len() == index,
            forall|i: int|
                0 <= i < index ==> {
                    &&& (#[trigger] plan@[i]).info.index == i
                    &&& plan@[i].info.total == total
                    &&& plan@[i].info.base_id == base_id
                    &&& plan@[i].data@ == chunk_slice(field@, chunk_size as nat, i as nat)
                },
        decreases total - index,
    {
        proof {
            lemma_chunk_count(len as nat, chunk_size as nat, index as nat);
            lemma_chunk_count(len as nat, chunk_size as nat, (index + 1) as nat);
            assert((index + 1) * chunk_size == index * chunk_size + chunk_size) by (nonlinear_arith);
        }
        let end: usize = if len - start > chunk_size {
            start + chunk_size
        } else {
            len
        };
        let data = copy_range(field, start, end);
        plan.push(Chunk { info: ChunkInfo { index, total, base_id }, data });
        start = end;
        index = index + 1;
    }
    proof {
        lemma_chunk_count(len as nat, chunk_size as nat, 0);
    }
    plan
}

/// The first `k` slices of a plan of `field`, one after the other, are the first
/// `k * size` bytes of `field`, or all of it where it is shorter.
proof fn lemma_prefix_reconstructs(
    plan: Seq<Chunk>,
    field: Seq<u8>,
    size: nat,
    base_id: TransactionId,
    k: nat,
)
    requires
        size > 0,
        is_plan_of(plan, field, size, base_id),
        k <= plan.len(),
    ensures
        concat_slices(plan.take(k as int)) == field.subrange(
            0,
            if k * size <= field.len() {
                (k * size) as int
            } else {
                field.len() as int
            },
        ),
    decreases k,
{
    if k == 0 {
        assert(0 * size == 0) by (nonlinear_arith);
        assert(concat_slices(plan.take(0)) =~= field.subrange(0, 0));
    } else {
        let j = (k - 1) as nat;
        lemma_prefix_reconstructs(plan, field, size, base_id, j);
        lemma_chunk_count(field.len(), size, j);
        assert(plan.take(k as int).drop_last() =~= plan.take(j as int));
        assert(plan.take(k as int).last() == plan[j as int]);
        assert(k * size == j * size + size) by (nonlinear_arith)
            requires
                k == j + 1,
        ;
        assert(j * size < field.len());
        let end = if k * size <= field.len() {
            (k * size) as int
        } else {
            field.len() as int
        };
        assert(plan[j as int].data@ == field.subrange((j * size) as int, end));
        assert(field.subrange(0, (j * size) as int) + field.subrange((j * size) as int, end)
            =~= field.subrange(0, end));
    }
}

/// A plan has as many chunks as the field has slices (its length over the chunk size,
/// rounded up); every chunk states the same total; the indices count up from zero; and
/// the slices, one after the other, are the field again.
pub proof fn lemma_plan_reconstructs(
    plan: Seq<Chunk>,
    field: Seq<u8>,
    size: nat,
    base_id: TransactionId,
)
    requires
        size > 0,
        is_plan_of(plan, field, size, base_id),
    ensures
        plan.len() == chunk_count(field.len(), size),
        forall|i: int, j: int|
            0 <= i < plan.len() && 0 <= j < plan.len() ==> (#[trigger] plan[i]).info.total == (
            #[trigger] plan[j]).info.total,
        forall|i: int| 0 <= i < plan.len() ==> (#[trigger] plan[i]).info.index == i,
        forall|i: int, j: int|
            0 <= i < j < plan.len() ==> (#[trigger] plan[i]).info.index < (
            #[trigger] plan[j]).info.index,
        concat_slices(plan) == field,
{
    let n = plan.len();
    lemma_prefix_reconstructs(plan, field, size, base_id, n);
    lemma_chunk_count(field.len(), size, n);
    assert(plan.take(n as int) =~= plan);
    assert(field.subrange(0, field.len() as int) =~= field);
}

} // verus!
