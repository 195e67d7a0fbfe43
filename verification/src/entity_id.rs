//! Entity identifiers and the checksums that tie them to a network.

use vstd::prelude::*;

use crate::error::Error;

verus! {

/// Five lowercase letters that tie an entity identifier to one network.
#[derive(Clone, Copy, Debug, PartialEq, Eq)]
pub struct Checksum {
    pub letters: [u8; 5],
}

/// The identity of a network, as the bytes its nodes agree on.
#[derive(Clone, Debug, PartialEq, Eq)]
pub struct LedgerId {
    pub bytes: Vec<u8>,
}

/// The address of an account, file, token, contract or schedule: three numbers and,
/// optionally, the checksum under which the caller wrote them down.
#[derive(Clone, Copy, Debug, PartialEq, Eq)]
pub struct EntityId {
    pub shard: u64,
    pub realm: u64,
    pub num: u64,
    pub checksum: Option<Checksum>,
}

pub type AccountId = EntityId;

pub type FileId = EntityId;

pub type TokenId = EntityId;

pub type ContractId = EntityId;

pub type ScheduleId = EntityId;

/// The decimal digits of `n`, most significant first.
pub open spec fn decimal_digits(n: nat) -> Seq<u8>
    decreases n,
{
    if n < 10 {
        seq![n as u8]
    } else {
        decimal_digits(n / 10).push((n % 10) as u8)
    }
}

/// The digits of `shard.realm.num` as the checksum reads them: each dot counts as ten.
pub open spec fn address_digits(shard: u64, realm: u64, num: u64) -> Seq<u8> {
    decimal_digits(shard as nat) + seq![10u8] + decimal_digits(realm as nat) + seq![10u8]
        + decimal_digits(num as nat)
}

/// All positions of `d`, each weighted by a power of 31, modulo 26^3.
pub open spec fn weighted_sum(d: Seq<u8>) -> nat
    decreases d.len(),
{
    if d.len() == 0 {
        0
    } else {
        ((31 * weighted_sum(d.drop_last()) + d.last() as nat) % 17576) as nat
    }
}

/// The sum modulo 11 of the digits of `d` at the positions whose index has the given parity.
pub open spec fn parity_sum(d: Seq<u8>, parity: int) -> nat
    decreases d.len(),
{
    if d.len() == 0 {
        0
    } else if (d.len() - 1) % 2 == parity {
        ((parity_sum(d.drop_last(), parity) + d.last() as nat) % 11) as nat
    } else {
        parity_sum(d.drop_last(), parity)
    }
}

/// The bytes of `h`, each weighted by a power of 31, modulo 26^5.
pub open spec fn byte_hash(h: Seq<u8>) -> nat
    decreases h.len(),
{
    if h.len() == 0 {
        0
    } else {
        ((31 * byte_hash(h.drop_last()) + h.last() as nat) % 11881376) as nat
    }
}

/// `count` zero bytes.
pub open spec fn zero_bytes(count: nat) -> Seq<u8> {
    Seq::new(count, |i: int| 0u8)
}

/// The checksum as one number below 26^5: the digit sums and the hash of the network
/// identity (followed by six zero bytes) are combined and then permuted by a prime factor.
pub open spec fn checksum_value(ledger: Seq<u8>, d: Seq<u8>) -> nat {
    let combined = ((((d.len() % 5) * 11 + parity_sum(d, 0)) * 11 + parity_sum(d, 1)) * 17576
        + weighted_sum(d) + byte_hash(ledger + zero_bytes(6))) % 11881376;
    ((combined * 1000003) % 11881376) as nat
}

/// The letter that stands for the base-26 digit `digit`.
pub open spec fn letter(digit: nat) -> u8 {
    (97 + digit % 26) as u8
}

/// The five base-26 digits of `v`, most significant first, as lowercase letters.
pub open spec fn checksum_letters(v: nat) -> Seq<u8> {
    seq![
        letter(v / 456976),
        letter(v / 17576),
        letter(v / 676),
        letter(v / 26),
        letter(v),
    ]
}

/// The checksum that `shard.realm.num` carries on the network `ledger`.
pub open spec fn spec_checksum(ledger: Seq<u8>, shard: u64, realm: u64, num: u64) -> Seq<u8> {
    checksum_letters(checksum_value(ledger, address_digits(shard, realm, num)))
}

/// Whether `id` may be used on the network `ledger`: it carries no checksum, or the right one.
pub open spec fn checksum_valid(id: EntityId, ledger: Seq<u8>) -> bool {
    id.checksum is Some ==> id.checksum->Some_0.letters@ == spec_checksum(
        ledger,
        id.shard,
        id.realm,
        id.num,
    )
}

/// The error that names `id` as the identifier whose checksum does not fit `ledger`.
pub open spec fn mismatch_of(id: EntityId, ledger: Seq<u8>, e: Error) -> bool {
    &&& e is ChecksumMismatch
    &&& e->ChecksumMismatch_id == id
    &&& e->ChecksumMismatch_expected.letters@ == spec_checksum(ledger, id.shard, id.realm, id.num)
}

/// Appends the decimal digits of `n` to `out`.
fn push_decimal_digits(out: &mut Vec<u8>, n: u64)
    ensures
        final(out)@ == old(out)@ + decimal_digits(n as nat),
    decreases n,
{
    if n >= 10 {
        push_decimal_digits(out, n / 10);
    }
    out.push((n % 10) as u8);
    assert(final(out)@ =~= old(out)@ + decimal_digits(n as nat));
}

proof fn lemma_sums_bounded(d: Seq<u8>)
    ensures
        weighted_sum(d) < 17576,
        parity_sum(d, 0) < 11,
        parity_sum(d, 1) < 11,
        byte_hash(d) < 11881376,
    decreases d.len(),
{
    if d.len() > 0 {
        lemma_sums_bounded(d.drop_last());
    }
}

/// The digits of `shard.realm.num`, each dot as ten.
fn address_digit_vec(shard: u64, realm: u64, num: u64) -> (d: Vec<u8>)
    ensures
        d@ == address_digits(shard, realm, num),
{
    let mut d: Vec<u8> = Vec::new();
    push_decimal_digits(&mut d, shard);
    d.push(10u8);
    push_decimal_digits(&mut d, realm);
    d.push(10u8);
    push_decimal_digits(&mut d, num);
    assert(d@ =~= address_digits(shard, realm, num));
    d
}

/// The three digit sums of `d`: weighted, even positions, odd positions.
fn digit_sums(d: &Vec<u8>) -> (sums: (u64, u64, u64))
    ensures
        sums.0 == weighted_sum(d@),
        sums.1 == parity_sum(d@, 0),
        sums.2 == parity_sum(d@, 1),
{
    let mut s: u64 = 0;
    let mut s0: u64 = 0;
    let mut s1: u64 = 0;
    let mut i: usize = 0;
    while i < d.len()
        invariant
            i <= d.len(),
            s == weighted_sum(d@.take(i as int)),
            s0 == parity_sum(d@.take(i as int), 0),
            s1 == parity_sum(d@.take(i as int), 1),
            s < 17576,
            s0 < 11,
            s1 < 11,
        decreases d.len() - i,
    {
        let digit: u64 = d[i] as u64;
        proof {
            assert(d@.take(i + 1).drop_last() =~= d@.take(i as int));
            assert(d@.take(i + 1).last() == d@[i as int]);
        }
        s = (31 * s + digit) % 17576;
        if i % 2 == 0 {
            s0 = (s0 + digit) % 11;
        } else {
            s1 = (s1 + digit) % 11;
        }
        i += 1;
    }
    assert(d@.take(d.len() as int) =~= d@);
    (s, s0, s1)
}

/// The hash of the network identity followed by six zero bytes.
fn ledger_hash(ledger_id: &LedgerId) -> (sh: u64)
    ensures
        sh == byte_hash(ledger_id.bytes@ + zero_bytes(6)),
{
    let mut sh: u64 = 0;
    let mut i: usize = 0;
    while i < ledger_id.bytes.len()
        invariant
            i <= ledger_id.bytes.len(),
            sh == byte_hash(ledger_id.bytes@.take(i as int)),
            sh < 11881376,
        decreases ledger_id.bytes.len() - i,
    {
        proof {
            assert(ledger_id.bytes@.take(i + 1).drop_last() =~= ledger_id.bytes@.take(i as int));
        }
        sh = (31 * sh + ledger_id.bytes[i] as u64) % 11881376;
        i += 1;
    }
    assert(ledger_id.bytes@.take(ledger_id.bytes.len() as int) =~= ledger_id.bytes@);
    assert(ledger_id.bytes@ + zero_bytes(0) =~= ledger_id.bytes@);
    let mut j: usize = 0;
    while j < 6
        invariant
            j <= 6,
            sh == byte_hash(ledger_id.bytes@ + zero_bytes(j as nat)),
            sh < 11881376,
        decreases 6 - j,
    {
        proof {
            let next = ledger_id.bytes@ + zero_bytes((j + 1) as nat);
            assert(next.drop_last() =~= ledger_id.bytes@ + zero_bytes(j as nat));
            assert(next.last() == 0u8);
        }
        sh = (31 * sh) % 11881376;
        j += 1;
    }
    sh
}

impl Checksum {
    /// Whether the two checksums hold the same five letters.
    pub fn same_as(&self, other: &Checksum) -> (b: bool)
        ensures
            b == (self.letters@ == other.letters@),
    {
        let b = self.letters[0] == other.letters[0] && self.letters[1] == other.letters[1]
            && self.letters[2] == other.letters[2] && self.letters[3] == other.letters[3]
            && self.letters[4] == other.letters[4];
        proof {
            if b {
                assert(self.letters@ =~= other.letters@);
            }
        }
        b
    }
}

impl LedgerId {
    /// The network identity made of the given bytes.
    pub fn from_bytes(bytes: Vec<u8>) -> (id: LedgerId)
        ensures
            id.bytes@ == bytes@,
    {
        LedgerId { bytes }
    }

    /// The main network, whose identity is the single byte 0.
    pub fn mainnet() -> (id: LedgerId)
        ensures
            id.bytes@ == seq![0u8],
    {
        LedgerId { bytes: vec![0u8] }
    }

    /// The test network, whose identity is the single byte 1.
    pub fn testnet() -> (id: LedgerId)
        ensures
            id.bytes@ == seq![1u8],
    {
        LedgerId { bytes: vec![1u8] }
    }

    /// The preview network, whose identity is the single byte 2.
    pub fn previewnet() -> (id: LedgerId)
        ensures
            id.bytes@ == seq![2u8],
    {
        LedgerId { bytes: vec![2u8] }
    }
}

/// Whether the two optional identifiers are equal: both absent, or both present and the
/// same.
pub fn same_optional_id(a: &Option<EntityId>, b: &Option<EntityId>) -> (same: bool)
    ensures
        same == (*a == *b),
{
    match (a, b) {
        (None, None) => true,
        (Some(x), Some(y)) => x.same_as(y),
        _ => false,
    }
}

impl EntityId {
    /// Whether the two identifiers are equal: the same numbers, and the same checksum
    /// or none.
    pub fn same_as(&self, other: &EntityId) -> (same: bool)
        ensures
            same == (*self == *other),
    {
        let same_checksum = match (self.checksum, other.checksum) {
            (None, None) => true,
            (Some(a), Some(b)) => {
                let same = a.same_as(&b);
                proof {
                    if same {
                        assert(a.letters =~= b.letters);
                    }
                }
                same
            },
            _ => false,
        };
        self.shard == other.shard && self.realm == other.realm && self.num == other.num
            && same_checksum
    }

    /// The identifier `shard.realm.num`, without a checksum.
    pub fn new(shard: u64, realm: u64, num: u64) -> (id: EntityId)
        ensures
            id == (EntityId { shard, realm, num, checksum: None }),
    {
        EntityId { shard, realm, num, checksum: None }
    }

    /// This identifier with the given checksum attached, whether or not it is the right one.
    pub fn with_checksum(&self, checksum: Checksum) -> (id: EntityId)
        ensures
            id == (EntityId { checksum: Some(checksum), ..*self }),
    {
        EntityId { shard: self.shard, realm: self.realm, num: self.num, checksum: Some(checksum) }
    }

    /// The checksum that this identifier carries on the network `ledger_id`.
    pub fn generate_checksum(&self, ledger_id: &LedgerId) -> (c: Checksum)
        ensures
            c.letters@ == spec_checksum(ledger_id.bytes@, self.shard, self.realm, self.num),
    {
        let d = address_digit_vec(self.shard, self.realm, self.num);
        let (s, s0, s1) = digit_sums(&d);
        let sh = ledger_hash(ledger_id);
        proof {
            lemma_sums_bounded(d@);
            lemma_sums_bounded(ledger_id.bytes@ + zero_bytes(6));
        }
        let len5: u64 = (d.len() % 5) as u64;
        let combined: u64 = ((((len5 * 11 + s0) * 11 + s1) * 17576) + s + sh) % 11881376;
        let v: u64 = (combined * 1000003) % 11881376;
        assert(v == checksum_value(ledger_id.bytes@, d@));
        let letters: [u8; 5] = [
            (97 + (v / 456976) % 26) as u8,
            (97 + (v / 17576) % 26) as u8,
            (97 + (v / 676) % 26) as u8,
            (97 + (v / 26) % 26) as u8,
            (97 + v % 26) as u8,
        ];
        assert(letters@ =~= checksum_letters(v as nat));
        Checksum { letters }
    }

    /// This identifier with the checksum of the network `ledger_id` attached.
    pub fn to_checksummed(&self, ledger_id: &LedgerId) -> (id: EntityId)
        ensures
            id.shard == self.shard,
            id.realm == self.realm,
            id.num == self.num,
            id.checksum is Some,
            checksum_valid(id, ledger_id.bytes@),
    {
        let c = self.generate_checksum(ledger_id);
        self.with_checksum(c)
    }

    /// Checks this identifier against the network `ledger_id`. An identifier without a
    /// checksum passes; one with a checksum passes exactly when it is the checksum that
    /// the identifier carries on that network.
    pub fn validate_checksum(&self, ledger_id: &LedgerId) -> (r: Result<(), Error>)
        ensures
            r is Ok <==> checksum_valid(*self, ledger_id.bytes@),
            r is Err ==> mismatch_of(*self, ledger_id.bytes@, r->Err_0),
    {
        match self.checksum {
            None => Ok(()),
            Some(present) => {
                let expected = self.generate_checksum(ledger_id);
                if present.same_as(&expected) {
                    Ok(())
                } else {
                    Err(Error::ChecksumMismatch { id: *self, expected })
                }
            },
        }
    }
}

/// Whether every identifier of `ids` may be used on the network `ledger`.
pub open spec fn all_checksums_valid(ids: Seq<EntityId>, ledger: Seq<u8>) -> bool {
    forall|i: int| 0 <= i < ids.len() ==> checksum_valid(#[trigger] ids[i], ledger)
}

/// Whether `e` names the first identifier of `ids` whose checksum does not fit `ledger`.
pub open spec fn first_mismatch(ids: Seq<EntityId>, ledger: Seq<u8>, e: Error) -> bool {
    exists|k: int|
        0 <= k < ids.len() && all_checksums_valid(ids.take(k), ledger) && !checksum_valid(
            #[trigger] ids[k],
            ledger,
        ) && mismatch_of(ids[k], ledger, e)
}

/// Checks every identifier of `ids` against the network `ledger_id`, in order, and stops
/// at the first whose checksum belongs to another network.
pub fn validate_checksums(ids: &Vec<EntityId>, ledger_id: &LedgerId) -> (r: Result<(), Error>)
    ensures
        r is Ok <==> all_checksums_valid(ids@, ledger_id.bytes@),
        r is Err ==> first_mismatch(ids@, ledger_id.bytes@, r->Err_0),
{
    let mut i: usize = 0;
    while i < ids.len()
        invariant
            i <= ids.len(),
            all_checksums_valid(ids@.take(i as int), ledger_id.bytes@),
        decreases ids.len() - i,
    {
        match ids[i].validate_checksum(ledger_id) {
            Ok(()) => {},
            Err(e) => {
                assert(!checksum_valid(ids@[i as int], ledger_id.bytes@));
                return Err(e);
            },
        }
        assert forall|j: int| 0 <= j < i + 1 implies checksum_valid(
            #[trigger] ids@.take(i + 1)[j],
            ledger_id.bytes@,
        ) by {
            if j < i {
                assert(ids@.take(i as int)[j] == ids@[j]);
            }
        }
        i += 1;
    }
    assert(ids@.take(ids.len() as int) =~= ids@);
    Ok(())
}

/// An identifier that carries the checksum of one network passes validation on that
/// network, and on another network exactly when both networks give it the same checksum.
pub proof fn lemma_checksum_binds_network(id: EntityId, a: Seq<u8>, b: Seq<u8>)
    requires
        id.checksum is Some,
        checksum_valid(id, a),
    ensures
        checksum_valid(id, b) <==> spec_checksum(b, id.shard, id.realm, id.num) == spec_checksum(
            a,
            id.shard,
            id.realm,
            id.num,
        ),
{
}

} // verus!
