//! The signature collector: signers without duplicates, and what each is asked to sign.

use vstd::prelude::*;

use crate::bytes::{copy_bytes, equal_bytes};

verus! {

/// The signature scheme a key belongs to.
#[derive(Clone, Copy, Debug, PartialEq, Eq, Structural)]
pub enum KeyKind {
    Ed25519,
    EcdsaSecp256k1,
}

/// The public half of a key: what identifies a signer.
#[derive(Clone, Debug, PartialEq, Eq)]
pub struct PublicKey {
    pub kind: KeyKind,
    pub bytes: Vec<u8>,
}

/// A public key as a value: its scheme and its bytes.
pub struct PublicKeyView {
    pub kind: KeyKind,
    pub bytes: Seq<u8>,
}

impl View for PublicKey {
    type V = PublicKeyView;

    open spec fn view(&self) -> PublicKeyView {
        PublicKeyView { kind: self.kind, bytes: self.bytes@ }
    }
}

/// The capability to sign: given a message, it returns a signature. The library never
/// looks inside a signature; it only fixes which message each capability is asked to sign.
pub trait SigningCapability {
    /// Whether `signature` is an answer this capability may give when asked to sign
    /// `message`. A capability that says nothing about its signatures leaves this as it
    /// is: every answer is then one it may give.
    open spec fn signs(&self, message: Seq<u8>, signature: Seq<u8>) -> bool {
        true
    }

    /// Signs `message`.
    fn sign_message(&self, message: &[u8]) -> (signature: Vec<u8>)
        ensures
            self.signs(message@, signature@),
    ;
}

/// A signing capability behind a pointer, so that capabilities of different kinds can
/// stand in one list.
pub type Signer = Box<dyn SigningCapability>;

/// A private key as this library sees it: the public key it answers to and the
/// capability to sign with it.
pub struct PrivateKey {
    pub public_key: PublicKey,
    pub capability: Signer,
}

/// One signer of a request: a public-key identity and the capability that signs for it.
pub struct SignerEntry {
    pub public_key: PublicKey,
    pub capability: Signer,
}

/// A signature together with the public key it was made for.
#[derive(Clone, Debug, PartialEq, Eq)]
pub struct SignaturePair {
    pub public_key: PublicKey,
    pub signature: Vec<u8>,
}

impl PublicKey {
    /// The public key of the given scheme and bytes.
    pub fn new(kind: KeyKind, bytes: Vec<u8>) -> (key: PublicKey)
        ensures
            key.kind == kind,
            key.bytes == bytes,
    {
        PublicKey { kind, bytes }
    }

    /// Whether the two keys are the same identity: same scheme, same bytes.
    pub fn same_as(&self, other: &PublicKey) -> (same: bool)
        ensures
            same == (self@ == other@),
    {
        self.kind == other.kind && equal_bytes(self.bytes.as_slice(), other.bytes.as_slice())
    }

    /// A copy of this key.
    pub fn duplicate(&self) -> (key: PublicKey)
        ensures
            key@ == self@,
    {
        PublicKey { kind: self.kind, bytes: copy_bytes(self.bytes.as_slice()) }
    }
}

impl PrivateKey {
    /// The private key that answers to `public_key` and signs with `capability`.
    pub fn new(public_key: PublicKey, capability: Signer) -> (key: PrivateKey)
        ensures
            key == (PrivateKey { public_key, capability }),
    {
        PrivateKey { public_key, capability }
    }
}

impl SignerEntry {
    /// The signer that answers to `public_key` and signs with `capability`.
    pub fn new(public_key: PublicKey, capability: Signer) -> (entry: SignerEntry)
        ensures
            entry == (SignerEntry { public_key, capability }),
    {
        SignerEntry { public_key, capability }
    }

    /// Whether `pair` is an answer of this signer to `message`: it names this signer's
    /// key, and its signature is one that the capability gives for exactly that message.
    pub open spec fn answers(&self, message: Seq<u8>, pair: SignaturePair) -> bool {
        &&& pair.public_key@ == self.public_key@
        &&& self.capability.signs(message, pair.signature@)
    }

    /// Asks this signer for its signature over `message`.
    pub fn sign(&self, message: &[u8]) -> (pair: SignaturePair)
        ensures
            self.answers(message@, pair),
    {
        let signature = self.capability.sign_message(message);
        SignaturePair { public_key: self.public_key.duplicate(), signature }
    }
}

/// Whether no two of `signers` share a public-key identity.
pub open spec fn distinct_signers(signers: Seq<SignerEntry>) -> bool {
    forall|i: int, j: int|
        0 <= i < j < signers.len() ==> (#[trigger] signers[i]).public_key@ != (
        #[trigger] signers[j]).public_key@
}

/// Whether one of `signers` has the identity `key`.
pub open spec fn has_signer(signers: Seq<SignerEntry>, key: PublicKeyView) -> bool {
    exists|i: int| 0 <= i < signers.len() && (#[trigger] signers[i]).public_key@ == key
}

/// The signer list after `entry` asks to join: unchanged where its identity is already
/// present, else with `entry` appended.
pub open spec fn with_signer(signers: Seq<SignerEntry>, entry: SignerEntry) -> Seq<SignerEntry> {
    if has_signer(signers, entry.public_key@) {
        signers
    } else {
        signers.push(entry)
    }
}

/// Whether one of `signers` has the identity of `key`.
fn contains_key(signers: &Vec<SignerEntry>, key: &PublicKey) -> (found: bool)
    ensures
        found == has_signer(signers@, key@),
{
    let mut i: usize = 0;
    while i < signers.len()
        invariant
            i <= signers.len(),
            forall|j: int| 0 <= j < i ==> (#[trigger] signers@[j]).public_key@ != key@,
        decreases signers.len() - i,
    {
        if signers[i].public_key.same_as(key) {
            return true;
        }
        i += 1;
    }
    false
}

/// The signers of one request, in the order in which they were added. No two of them
/// share a public-key identity.
pub struct SignerSet {
    entries: Vec<SignerEntry>,
}

impl View for SignerSet {
    type V = Seq<SignerEntry>;

    closed spec fn view(&self) -> Seq<SignerEntry> {
        self.entries@
    }
}

impl SignerSet {
    #[verifier::type_invariant]
    spec fn inv(self) -> bool {
        distinct_signers(self.entries@)
    }

    /// No signers.
    pub fn new() -> (set: SignerSet)
        ensures
            set@ == Seq::<SignerEntry>::empty(),
    {
        SignerSet { entries: Vec::new() }
    }

    /// The number of signers.
    pub fn len(&self) -> (n: usize)
        ensures
            n == self@.len(),
    {
        self.entries.len()
    }

    /// The signers, in the order in which they were added.
    pub fn entries(&self) -> (entries: &[SignerEntry])
        ensures
            entries@ == self@,
            distinct_signers(entries@),
    {
        proof {
            use_type_invariant(self);
        }
        self.entries.as_slice()
    }

    /// Whether a signer with the identity of `key` is in the set.
    pub fn contains(&self, key: &PublicKey) -> (found: bool)
        ensures
            found == has_signer(self@, key@),
    {
        contains_key(&self.entries, key)
    }

    /// Adds `entry` unless a signer with the same public-key identity is already there;
    /// in that case nothing changes and `entry` is dropped.
    pub fn add_signer(&mut self, entry: SignerEntry)
        ensures
            final(self)@ == with_signer(old(self)@, entry),
    {
        proof {
            use_type_invariant(&*self);
        }
        let mut entries: Vec<SignerEntry> = Vec::new();
        core::mem::swap(&mut self.entries, &mut entries);
        if !contains_key(&entries, &entry.public_key) {
            entries.push(entry);
        }
        self.entries = entries;
    }

    /// Asks every signer, in order, for its signature over exactly `message`.
    pub fn sign_all(&self, message: &[u8]) -> (pairs: Vec<SignaturePair>)
        ensures
            answered_by(self@, message@, pairs@),
    {
        let mut pairs: Vec<SignaturePair> = Vec::new();
        let mut i: usize = 0;
        while i < self.entries.len()
            invariant
                i <= self.entries.len(),
                pairs@.len() == i,
                forall|j: int| 0 <= j < i ==> self.entries@[j].answers(message@, #[trigger] pairs@[j]),
            decreases self.entries.len() - i,
        {
            let pair = self.entries[i].sign(message);
            pairs.push(pair);
            i += 1;
        }
        pairs
    }
}

/// Whether `pairs` are the answers of `signers` to `message`: one pair per signer, in
/// signer order, each naming its signer's key and holding a signature that the signer's
/// capability gives for exactly that message.
pub open spec fn answered_by(
    signers: Seq<SignerEntry>,
    message: Seq<u8>,
    pairs: Seq<SignaturePair>,
) -> bool {
    &&& pairs.len() == signers.len()
    &&& forall|i: int| 0 <= i < pairs.len() ==> signers[i].answers(message, #[trigger] pairs[i])
}

/// The signers of `signers` whose identity is not `key`, in order.
pub open spec fn without_key(signers: Seq<SignerEntry>, key: PublicKeyView) -> Seq<SignerEntry>
    decreases signers.len(),
{
    if signers.len() == 0 {
        Seq::empty()
    } else if signers.last().public_key@ == key {
        without_key(signers.drop_last(), key)
    } else {
        without_key(signers.drop_last(), key).push(signers.last())
    }
}

/// Those who sign a request, in signing order: `first` (the operator), where there is
/// one, then the signers whose identity is not that of `first`. Without `first` these
/// are the signers as they stand.
pub open spec fn signing_order(first: Option<SignerEntry>, signers: Seq<SignerEntry>) -> Seq<
    SignerEntry,
> {
    match first {
        Some(entry) => seq![entry] + without_key(signers, entry.public_key@),
        None => signers,
    }
}

/// Asks `first`, where there is one, and then every one of `signers` whose identity is
/// not that of `first`, for a signature over exactly `message`.
pub fn sign_in_order(first: Option<&SignerEntry>, signers: &[SignerEntry], message: &[u8]) -> (pairs:
    Vec<SignaturePair>)
    ensures
        answered_by(
            signing_order(
                match first {
                    Some(entry) => Some(*entry),
                    None => None,
                },
                signers@,
            ),
            message@,
            pairs@,
        ),
{
    let mut pairs: Vec<SignaturePair> = Vec::new();
    let ghost mut order: Seq<SignerEntry> = Seq::empty();
    match first {
        Some(entry) => {
            pairs.push(entry.sign(message));
            proof {
                order = seq![*entry];
            }
        },
        None => {},
    }
    let ghost head = order;
    let mut i: usize = 0;
    while i < signers.len()
        invariant
            i <= signers.len(),
            first is Some ==> head == seq![*first->Some_0] && order == head + without_key(
                signers@.take(i as int),
                first->Some_0.public_key@,
            ),
            first is None ==> order == signers@.take(i as int),
            answered_by(order, message@, pairs@),
        decreases signers.len() - i,
    {
        let skip = match first {
            Some(entry) => signers[i].public_key.same_as(&entry.public_key),
            None => false,
        };
        proof {
            assert(signers@.take(i + 1).drop_last() =~= signers@.take(i as int));
            assert(signers@.take(i + 1).last() == signers@[i as int]);
        }
        if !skip {
            pairs.push(signers[i].sign(message));
            proof {
                let ghost before = order;
                order = order.push(signers@[i as int]);
                if first is Some {
                    assert(order =~= head + without_key(
                        signers@.take(i + 1),
                        first->Some_0.public_key@,
                    ));
                } else {
                    assert(order =~= signers@.take(i + 1));
                }
                assert forall|j: int| 0 <= j < pairs@.len() implies order[j].answers(
                    message@,
                    #[trigger] pairs@[j],
                ) by {
                    if j < before.len() {
                        assert(order[j] == before[j]);
                    }
                }
            }
        }
        i += 1;
    }
    proof {
        assert(signers@.take(signers.len() as int) =~= signers@);
    }
    pairs
}

/// Where no two signers share an identity, no two in signing order do either: the
/// operator's identity is taken out of the signers before they sign.
pub proof fn lemma_signing_order_distinct(first: Option<SignerEntry>, signers: Seq<SignerEntry>)
    requires
        distinct_signers(signers),
    ensures
        distinct_signers(signing_order(first, signers)),
{
    if first is Some {
        let key = first->Some_0.public_key@;
        lemma_without_key(signers, key);
        let rest = without_key(signers, key);
        let order = signing_order(first, signers);
        assert forall|i: int, j: int| 0 <= i < j < order.len() implies (
        #[trigger] order[i]).public_key@ != (#[trigger] order[j]).public_key@ by {
            assert(order[j] == rest[j - 1]);
            if i > 0 {
                assert(order[i] == rest[i - 1]);
            }
        }
    }
}

/// Taking an identity out of signers without duplicates leaves signers without
/// duplicates, none of whom has that identity, and each of whom was there before.
proof fn lemma_without_key(signers: Seq<SignerEntry>, key: PublicKeyView)
    requires
        distinct_signers(signers),
    ensures
        distinct_signers(without_key(signers, key)),
        forall|i: int|
            0 <= i < without_key(signers, key).len() ==> (#[trigger] without_key(
                signers,
                key,
            )[i]).public_key@ != key,
        forall|i: int|
            0 <= i < without_key(signers, key).len() ==> exists|k: int|
                0 <= k < signers.len() && signers[k] == #[trigger] without_key(signers, key)[i],
    decreases signers.len(),
{
    if signers.len() > 0 {
        let earlier = signers.drop_last();
        assert forall|i: int, j: int| 0 <= i < j < earlier.len() implies (
        #[trigger] earlier[i]).public_key@ != (#[trigger] earlier[j]).public_key@ by {
            assert(earlier[i] == signers[i]);
            assert(earlier[j] == signers[j]);
        }
        lemma_without_key(earlier, key);
        let before = without_key(earlier, key);
        let after = without_key(signers, key);
        assert forall|i: int| 0 <= i < after.len() implies exists|k: int|
            0 <= k < signers.len() && signers[k] == #[trigger] after[i] by {
            if i < before.len() {
                let k = choose|k: int| 0 <= k < earlier.len() && earlier[k] == before[i];
                assert(signers[k] == after[i]);
            } else {
                assert(signers[signers.len() - 1] == after[i]);
            }
        }
        assert forall|i: int| 0 <= i < after.len() implies (#[trigger] after[i]).public_key@ != key by {
            if i < before.len() {
                assert(after[i] == before[i]);
            }
        }
        if signers.last().public_key@ != key {
            assert forall|i: int, j: int| 0 <= i < j < after.len() implies (
            #[trigger] after[i]).public_key@ != (#[trigger] after[j]).public_key@ by {
                if j < before.len() {
                    assert(after[i] == before[i] && after[j] == before[j]);
                } else {
                    assert(after[i] == before[i]);
                    let k = choose|k: int| 0 <= k < earlier.len() && earlier[k] == before[i];
                    assert(signers[k] == before[i]);
                    assert(signers[signers.len() - 1] == after[j]);
                }
            }
        }
    }
}

/// A signer list without duplicates stays without duplicates when a signer asks to
/// join.
pub proof fn lemma_with_signer_distinct(signers: Seq<SignerEntry>, entry: SignerEntry)
    requires
        distinct_signers(signers),
    ensures
        distinct_signers(with_signer(signers, entry)),
{
    let after = with_signer(signers, entry);
    if !has_signer(signers, entry.public_key@) {
        assert forall|i: int, j: int| 0 <= i < j < after.len() implies (
        #[trigger] after[i]).public_key@ != (#[trigger] after[j]).public_key@ by {
            assert(after[i] == signers[i]);
            if j < signers.len() {
                assert(after[j] == signers[j]);
            }
        }
    }
}

/// Adding a signer whose identity is already present changes nothing, so adding the
/// same identity twice leaves as many signers as adding it once.
pub proof fn lemma_add_signer_twice(signers: Seq<SignerEntry>, first: SignerEntry, second: SignerEntry)
    requires
        first.public_key@ == second.public_key@,
    ensures
        with_signer(with_signer(signers, first), second) == with_signer(signers, first),
{
    let once = with_signer(signers, first);
    if has_signer(signers, first.public_key@) {
    } else {
        assert(once[signers.len() as int] == first);
    }
}

/// Adding two signers of different identities to an empty list yields both, in the
/// order in which they were added.
pub proof fn lemma_add_two_distinct(first: SignerEntry, second: SignerEntry)
    requires
        first.public_key@ != second.public_key@,
    ensures
        with_signer(with_signer(Seq::empty(), first), second) == seq![first, second],
{
    let none = Seq::<SignerEntry>::empty();
    let once = with_signer(none, first);
    assert(once =~= seq![first]);
    assert(!has_signer(once, second.public_key@));
    assert(once.push(second) =~= seq![first, second]);
}

} // verus!
