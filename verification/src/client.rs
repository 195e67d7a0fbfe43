//! The snapshot of a client's configuration that freezing resolves defaults from.

use vstd::prelude::*;

use crate::entity_id::{AccountId, LedgerId};
use crate::hbar::Hbar;
use crate::signer::SignerEntry;

verus! {

/// The account that pays by default, and the signer that signs for it.
pub struct Operator {
    pub account_id: AccountId,
    pub signer: SignerEntry,
}

/// What a client knows at the moment a request is frozen, as one snapshot: the nodes it
/// drew for this request from those it considers healthy, its default fee limit, its
/// operator, and whether and against which network to validate checksums.
pub struct ClientContext {
    pub node_account_ids: Vec<AccountId>,
    pub max_transaction_fee: Option<Hbar>,
    pub operator: Option<Operator>,
    pub auto_validate_checksums: bool,
    pub ledger_id: Option<LedgerId>,
}

/// How many nodes are drawn from `healthy` nodes for one request: a third of them,
/// rounded up.
pub open spec fn spec_drawn_count(healthy: nat) -> nat {
    ((healthy + 2) / 3) as nat
}

/// The nodes that the number `seed` draws from `healthy`: a third of them, rounded up,
/// starting at position `seed` modulo their number and going round the list.
pub open spec fn spec_drawn(healthy: Seq<AccountId>, seed: u64) -> Seq<AccountId> {
    Seq::new(
        spec_drawn_count(healthy.len()),
        |i: int| healthy[(seed as int % healthy.len() as int + i) % healthy.len() as int],
    )
}

/// Draws the nodes for one request from the nodes that a client considers healthy.
/// Which nodes are drawn depends on `seed` alone, which the caller takes from a source
/// of chance.
pub fn draw_node_ids(healthy: &[AccountId], seed: u64) -> (drawn: Vec<AccountId>)
    ensures
        drawn@ == spec_drawn(healthy@, seed),
{
    let n = healthy.len();
    let mut drawn: Vec<AccountId> = Vec::new();
    if n == 0 {
        assert(drawn@ =~= spec_drawn(healthy@, seed));
        return drawn;
    }
    let count = (n - 1) / 3 + 1;
    assert(count == spec_drawn_count(n as nat));
    let start = (seed % (n as u64)) as usize;
    let mut i: usize = 0;
    while i < count
        invariant
            i <= count <= n,
            n == healthy@.len(),
            n > 0,
            start == seed as int % n as int,
            drawn@.len() == i,
            forall|j: int| 0 <= j < i ==> drawn@[j] == healthy@[(start + j) % n as int],
        decreases count - i,
    {
        let at = if i >= n - start {
            proof {
                vstd::arithmetic::div_mod::lemma_mod_sub_multiples_vanish(
                    start + i,
                    n as int,
                );
                vstd::arithmetic::div_mod::lemma_small_mod((start + i - n) as nat, n as nat);
            }
            i - (n - start)
        } else {
            proof {
                vstd::arithmetic::div_mod::lemma_small_mod((start + i) as nat, n as nat);
            }
            start + i
        };
        drawn.push(healthy[at]);
        i += 1;
    }
    assert(drawn@ =~= spec_drawn(healthy@, seed));
    drawn
}

impl Operator {
    /// The operator that pays from `account_id` and signs with `signer`.
    pub fn new(account_id: AccountId, signer: SignerEntry) -> (op: Operator)
        ensures
            op == (Operator { account_id, signer }),
    {
        Operator { account_id, signer }
    }
}

impl ClientContext {
    /// A snapshot that offers the given nodes and nothing else: no default fee, no
    /// operator, no checksum validation.
    pub fn new(node_account_ids: Vec<AccountId>) -> (ctx: ClientContext)
        ensures
            ctx == (ClientContext {
                node_account_ids,
                max_transaction_fee: None,
                operator: None,
                auto_validate_checksums: false,
                ledger_id: None,
            }),
    {
        ClientContext {
            node_account_ids,
            max_transaction_fee: None,
            operator: None,
            auto_validate_checksums: false,
            ledger_id: None,
        }
    }

    /// The network against which freezing is to validate checksums, where the snapshot
    /// asks for validation and names a network.
    pub open spec fn validation_ledger(&self) -> Option<Seq<u8>> {
        if self.auto_validate_checksums && self.ledger_id is Some {
            Some(self.ledger_id->Some_0.bytes@)
        } else {
            None
        }
    }
}

} // verus!
