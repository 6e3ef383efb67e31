//! Blinding factors and Pedersen commitments over the Ristretto group.
//!
//! Both are held as their canonical 32-byte encodings, so that they can be stored, compared
//! and reasoned about as plain values. The group arithmetic itself is done by `tari_crypto`;
//! the functions that call it are marked `external_body` and their contracts are believed,
//! not proved.

use tari_crypto::commitment::HomomorphicCommitmentFactory;
use tari_crypto::ristretto::pedersen::commitment_factory::PedersenCommitmentFactory;
use tari_crypto::ristretto::pedersen::PedersenCommitment;
use tari_crypto::ristretto::RistrettoSecretKey;
use tari_crypto::tari_utilities::ByteArray;
use vstd::prelude::*;

verus! {

/// The prime order of the Ristretto group, `2^252 + 27742317777372353535851937790883648493`.
/// Scalars are the integers modulo this number.
pub open spec fn group_order() -> nat {
    7237005577332262213973186563042994240857116359379907606001950938285454250989nat
}

/// The number that `bytes` writes in base 256, least significant byte first.
pub open spec fn le_value(bytes: Seq<u8>) -> nat
    decreases bytes.len(),
{
    if bytes.len() == 0 {
        0
    } else {
        bytes[0] as nat + 256 * le_value(bytes.skip(1))
    }
}

/// Whether `bytes` is the canonical encoding of an element of the Ristretto group: what
/// `PedersenCommitment::from_canonical_bytes` accepts.
pub uninterp spec fn is_point_encoding(bytes: Seq<u8>) -> bool;

/// The encoding of the sum of the two group elements that `a` and `b` encode.
pub uninterp spec fn point_sum(a: Seq<u8>, b: Seq<u8>) -> Seq<u8>;

/// The encoding of the Pedersen commitment `v.H + k.G` to the value `v` under the blinding
/// factor `k`, on the default generators `G` and `H`.
pub uninterp spec fn pedersen_commit(k: nat, v: nat) -> Seq<u8>;

/// Calls `RistrettoSecretKey::from_canonical_bytes`, which accepts 32 bytes exactly when
/// they write a number below the group order.
#[verifier::external_body]
fn scalar_is_canonical(bytes: &[u8; 32]) -> (r: bool)
    ensures
        r == (le_value(bytes@) < group_order()),
{
    RistrettoSecretKey::from_canonical_bytes(bytes).is_ok()
}

/// Calls `RistrettoSecretKey::from(u64)`: the scalar whose value is `value`, in its canonical
/// encoding.
#[verifier::external_body]
fn scalar_from_u64(value: u64) -> (r: [u8; 32])
    ensures
        le_value(r@) == value,
{
    let mut bytes = [0u8; 32];
    bytes.copy_from_slice(RistrettoSecretKey::from(value).as_bytes());
    bytes
}

/// Calls `+` on two `RistrettoSecretKey`s: addition modulo the group order. The keys are
/// decoded from `a` and `b` first, which does not fail on canonical encodings.
#[verifier::external_body]
fn scalar_add(a: &[u8; 32], b: &[u8; 32]) -> (r: [u8; 32])
    requires
        le_value(a@) < group_order(),
        le_value(b@) < group_order(),
    ensures
        le_value(r@) == (le_value(a@) + le_value(b@)) % group_order(),
{
    let ka = RistrettoSecretKey::from_canonical_bytes(a).unwrap();
    let kb = RistrettoSecretKey::from_canonical_bytes(b).unwrap();
    let mut bytes = [0u8; 32];
    bytes.copy_from_slice((&ka + &kb).as_bytes());
    bytes
}

/// Calls `PedersenCommitment::from_canonical_bytes` and says whether it accepted `bytes`.
#[verifier::external_body]
fn point_is_encoding(bytes: &[u8; 32]) -> (r: bool)
    ensures
        r == is_point_encoding(bytes@),
{
    PedersenCommitment::from_canonical_bytes(bytes).is_ok()
}

/// Calls `+` on two `PedersenCommitment`s. The sum of two group elements is a group element,
/// and `as_bytes` gives its canonical encoding. The commitments are decoded from `a` and `b`
/// first, which does not fail on encodings of group elements.
#[verifier::external_body]
fn point_add(a: &[u8; 32], b: &[u8; 32]) -> (r: [u8; 32])
    requires
        is_point_encoding(a@),
        is_point_encoding(b@),
    ensures
        r@ == point_sum(a@, b@),
        is_point_encoding(r@),
{
    let pa = PedersenCommitment::from_canonical_bytes(a).unwrap();
    let pb = PedersenCommitment::from_canonical_bytes(b).unwrap();
    let mut bytes = [0u8; 32];
    bytes.copy_from_slice((&pa + &pb).as_bytes());
    bytes
}

/// Calls `HomomorphicCommitmentFactory::commit` on the default `PedersenCommitmentFactory`,
/// with the blinding factor encoded by `k` and the value encoded by `v`. A commitment is a
/// group element, and `as_bytes` gives its canonical encoding.
#[verifier::external_body]
fn point_commit(k: &[u8; 32], v: &[u8; 32]) -> (r: [u8; 32])
    requires
        le_value(k@) < group_order(),
        le_value(v@) < group_order(),
    ensures
        r@ == pedersen_commit(le_value(k@), le_value(v@)),
        is_point_encoding(r@),
{
    let k = RistrettoSecretKey::from_canonical_bytes(k).unwrap();
    let v = RistrettoSecretKey::from_canonical_bytes(v).unwrap();
    let mut bytes = [0u8; 32];
    bytes.copy_from_slice(PedersenCommitmentFactory::default().commit(&k, &v).as_bytes());
    bytes
}

/// Calls `HomomorphicCommitmentFactory::commit_value` on the default
/// `PedersenCommitmentFactory`: the commitment, under the blinding factor encoded by `k`,
/// to the scalar whose value is `value`.
#[verifier::external_body]
fn point_commit_value(k: &[u8; 32], value: u64) -> (r: [u8; 32])
    requires
        le_value(k@) < group_order(),
    ensures
        r@ == pedersen_commit(le_value(k@), value as nat),
        is_point_encoding(r@),
{
    let k = RistrettoSecretKey::from_canonical_bytes(k).unwrap();
    let mut bytes = [0u8; 32];
    bytes.copy_from_slice(PedersenCommitmentFactory::default().commit_value(&k, value).as_bytes());
    bytes
}

/// A byte string of zeros writes the number zero.
proof fn lemma_le_value_of_zeros(bytes: Seq<u8>)
    requires
        forall|i: int| 0 <= i < bytes.len() ==> bytes[i] == 0,
    ensures
        le_value(bytes) == 0,
    decreases bytes.len(),
{
    if bytes.len() > 0 {
        lemma_le_value_of_zeros(bytes.skip(1));
    }
}

/// A scalar of the Ristretto group: a secret key, or the blinding factor of a commitment.
/// Its view is its value, a number below [`group_order`].
#[derive(Clone, Copy, Debug, PartialEq, Eq)]
pub struct PrivateKey {
    bytes: [u8; 32],
}

/// The scalar that hides the value in a commitment.
pub type BlindingFactor = PrivateKey;

impl View for PrivateKey {
    type V = nat;

    closed spec fn view(&self) -> nat {
        le_value(self.bytes@)
    }
}

impl PrivateKey {
    #[verifier::type_invariant]
    spec fn is_canonical(self) -> bool {
        le_value(self.bytes@) < group_order()
    }

    /// The scalar zero, the identity of addition.
    pub fn zero() -> (key: PrivateKey)
        ensures
            key@ == 0,
    {
        let bytes = [0u8; 32];
        proof {
            lemma_le_value_of_zeros(bytes@);
        }
        PrivateKey { bytes }
    }

    /// The scalar whose value is `value`.
    pub fn from_u64(value: u64) -> (key: PrivateKey)
        ensures
            key@ == value,
    {
        PrivateKey { bytes: scalar_from_u64(value) }
    }

    /// The scalar that `bytes` encodes; `None` unless `bytes` writes, least significant byte
    /// first, a number below the group order.
    pub fn from_bytes(bytes: [u8; 32]) -> (key: Option<PrivateKey>)
        ensures
            key is Some <==> le_value(bytes@) < group_order(),
            key matches Some(k) ==> k@ == le_value(bytes@),
    {
        if scalar_is_canonical(&bytes) {
            Some(PrivateKey { bytes })
        } else {
            None
        }
    }

    /// The canonical encoding: the value, least significant byte first.
    pub fn to_bytes(&self) -> (bytes: [u8; 32])
        ensures
            le_value(bytes@) == self@,
            le_value(bytes@) < group_order(),
    {
        proof {
            use_type_invariant(self);
        }
        self.bytes
    }

    /// The sum of the two scalars, modulo the group order.
    pub fn plus(&self, other: &PrivateKey) -> (sum: PrivateKey)
        ensures
            sum@ == (self@ + other@) % group_order(),
    {
        proof {
            use_type_invariant(self);
            use_type_invariant(other);
        }
        PrivateKey { bytes: scalar_add(&self.bytes, &other.bytes) }
    }
}

impl Default for PrivateKey {
    fn default() -> (key: PrivateKey)
        ensures
            key@ == 0,
    {
        PrivateKey::zero()
    }
}

/// A Pedersen commitment: an element of the Ristretto group. Its view is the canonical
/// encoding of that element, so two commitments are the same group element exactly when
/// their views are equal.
#[derive(Clone, Copy, Debug, PartialEq, Eq)]
pub struct Commitment {
    bytes: [u8; 32],
}

impl View for Commitment {
    type V = Seq<u8>;

    closed spec fn view(&self) -> Seq<u8> {
        self.bytes@
    }
}

impl Commitment {
    #[verifier::type_invariant]
    spec fn is_group_element(self) -> bool {
        is_point_encoding(self.bytes@)
    }

    /// The commitment that `bytes` encodes; `None` unless `bytes` is the canonical encoding
    /// of a group element.
    pub fn from_bytes(bytes: [u8; 32]) -> (commitment: Option<Commitment>)
        ensures
            commitment is Some <==> is_point_encoding(bytes@),
            commitment matches Some(c) ==> c@ == bytes@,
    {
        if point_is_encoding(&bytes) {
            Some(Commitment { bytes })
        } else {
            None
        }
    }

    /// The canonical encoding of the group element.
    pub fn to_bytes(&self) -> (bytes: [u8; 32])
        ensures
            bytes@ == self@,
            is_point_encoding(bytes@),
    {
        proof {
            use_type_invariant(self);
        }
        self.bytes
    }

    /// The sum of the two commitments, as group elements.
    pub fn plus(&self, other: &Commitment) -> (sum: Commitment)
        ensures
            sum@ == point_sum(self@, other@),
    {
        proof {
            use_type_invariant(self);
            use_type_invariant(other);
        }
        Commitment { bytes: point_add(&self.bytes, &other.bytes) }
    }

    /// Whether the two commitments are the same group element.
    pub fn equals(&self, other: &Commitment) -> (same: bool)
        ensures
            same == (self@ == other@),
    {
        let mut i: usize = 0;
        while i < 32
            invariant
                i <= 32,
                forall|j: int| 0 <= j < i ==> self.bytes@[j] == other.bytes@[j],
            decreases 32 - i,
        {
            if self.bytes[i] != other.bytes[i] {
                return false;
            }
            i = i + 1;
        }
        assert(self.bytes@ =~= other.bytes@);
        true
    }
}

/// Makes Pedersen commitments on the default generators of the Ristretto group.
#[derive(Clone, Copy, Debug, Default)]
pub struct CommitmentFactory {}

impl CommitmentFactory {
    /// The commitment `v.H + k.G` to the value `v` under the blinding factor `k`.
    pub fn commit(&self, k: &PrivateKey, v: &PrivateKey) -> (commitment: Commitment)
        ensures
            commitment@ == pedersen_commit(k@, v@),
    {
        proof {
            use_type_invariant(k);
            use_type_invariant(v);
        }
        Commitment { bytes: point_commit(&k.bytes, &v.bytes) }
    }

    /// The commitment to the integer `value` under the blinding factor `k`.
    pub fn commit_value(&self, k: &PrivateKey, value: u64) -> (commitment: Commitment)
        ensures
            commitment@ == pedersen_commit(k@, value as nat),
    {
        proof {
            use_type_invariant(k);
        }
        Commitment { bytes: point_commit_value(&k.bytes, value) }
    }

    /// The identity of the group: the commitment to zero under the blinding factor zero.
    pub fn zero(&self) -> (commitment: Commitment)
        ensures
            commitment@ == zero_commitment(),
    {
        let zero = PrivateKey::zero();
        self.commit(&zero, &zero)
    }

    /// The sum of `commitments`, added from left to right to the identity.
    pub fn sum(&self, commitments: &Vec<Commitment>) -> (total: Commitment)
        ensures
            total@ == commitment_total(commitment_views(commitments@)),
    {
        let mut total = self.zero();
        let mut i: usize = 0;
        while i < commitments.len()
            invariant
                i <= commitments.len(),
                total@ == commitment_total(commitment_views(commitments@.take(i as int))),
            decreases commitments.len() - i,
        {
            total = total.plus(&commitments[i]);
            proof {
                let longer = commitment_views(commitments@.take(i + 1));
                assert(longer.drop_last() =~= commitment_views(commitments@.take(i as int)));
                assert(longer.last() == commitments@[i as int]@);
            }
            i = i + 1;
        }
        proof {
            assert(commitments@.take(commitments.len() as int) =~= commitments@);
        }
        total
    }
}

/// The encodings of `commitments`, in order.
pub open spec fn commitment_views(commitments: Seq<Commitment>) -> Seq<Seq<u8>> {
    commitments.map_values(|commitment: Commitment| commitment@)
}

/// The encoding of the identity of the group.
pub open spec fn zero_commitment() -> Seq<u8> {
    pedersen_commit(0, 0)
}

/// The sum of a sequence of commitments, from left to right and starting from the identity.
pub open spec fn commitment_total(commitments: Seq<Seq<u8>>) -> Seq<u8>
    decreases commitments.len(),
{
    if commitments.len() == 0 {
        zero_commitment()
    } else {
        point_sum(commitment_total(commitments.drop_last()), commitments.last())
    }
}

/// The factories that the validators draw their cryptographic primitives from.
#[derive(Clone, Copy, Debug, Default)]
pub struct CryptoFactories {
    pub commitment: CommitmentFactory,
}

/// The laws of an abelian group, said of [`point_sum`] and [`zero_commitment`] on the
/// encodings of group elements. The Ristretto group obeys them; nothing in this crate
/// proves that of the arithmetic behind [`Commitment::plus`], so what is proved from them
/// is proved for an addition that obeys them.
pub open spec fn point_sum_obeys_group_laws() -> bool {
    &&& is_point_encoding(zero_commitment())
    &&& forall|a: Seq<u8>, b: Seq<u8>|
        is_point_encoding(a) && is_point_encoding(b) ==> is_point_encoding(#[trigger] point_sum(a, b))
    &&& forall|a: Seq<u8>, b: Seq<u8>|
        is_point_encoding(a) && is_point_encoding(b) ==> #[trigger] point_sum(a, b) == point_sum(b, a)
    &&& forall|a: Seq<u8>, b: Seq<u8>, c: Seq<u8>|
        is_point_encoding(a) && is_point_encoding(b) && is_point_encoding(c) ==> #[trigger] point_sum(
            point_sum(a, b),
            c,
        ) == point_sum(a, point_sum(b, c))
    &&& forall|a: Seq<u8>| is_point_encoding(a) ==> #[trigger] point_sum(a, zero_commitment()) == a
    &&& forall|a: Seq<u8>, b: Seq<u8>, c: Seq<u8>|
        is_point_encoding(a) && is_point_encoding(b) && is_point_encoding(c) && #[trigger] point_sum(a, b)
            == #[trigger] point_sum(a, c) ==> b == c
}

/// Whether every member of `commitments` encodes a group element.
pub open spec fn are_point_encodings(commitments: Seq<Seq<u8>>) -> bool {
    forall|i: int| 0 <= i < commitments.len() ==> is_point_encoding(#[trigger] commitments[i])
}

/// Under the group laws, the sum of group elements is a group element.
pub proof fn lemma_total_is_point_encoding(commitments: Seq<Seq<u8>>)
    requires
        point_sum_obeys_group_laws(),
        are_point_encodings(commitments),
    ensures
        is_point_encoding(commitment_total(commitments)),
    decreases commitments.len(),
{
    if commitments.len() > 0 {
        lemma_total_is_point_encoding(commitments.drop_last());
    }
}

/// Under the group laws, adding `amount` to one member of a sequence of commitments adds
/// `amount` to their sum.
pub proof fn lemma_total_of_perturbed(commitments: Seq<Seq<u8>>, index: int, amount: Seq<u8>)
    requires
        point_sum_obeys_group_laws(),
        are_point_encodings(commitments),
        is_point_encoding(amount),
        0 <= index < commitments.len(),
    ensures
        commitment_total(commitments.update(index, point_sum(commitments[index], amount))) == point_sum(
            commitment_total(commitments),
            amount,
        ),
    decreases commitments.len(),
{
    let perturbed = commitments.update(index, point_sum(commitments[index], amount));
    let rest = commitments.drop_last();
    let last = commitments.last();
    let rest_total = commitment_total(rest);
    lemma_total_is_point_encoding(rest);
    if index == commitments.len() - 1 {
        assert(perturbed.drop_last() =~= rest);
        assert(point_sum(point_sum(rest_total, last), amount) == point_sum(rest_total, point_sum(last, amount)));
    } else {
        assert(perturbed.drop_last() =~= rest.update(index, point_sum(rest[index], amount)));
        lemma_total_of_perturbed(rest, index, amount);
        assert(point_sum(point_sum(rest_total, amount), last) == point_sum(rest_total, point_sum(amount, last)));
        assert(point_sum(amount, last) == point_sum(last, amount));
        assert(point_sum(point_sum(rest_total, last), amount) == point_sum(rest_total, point_sum(last, amount)));
    }
}

} // verus!
