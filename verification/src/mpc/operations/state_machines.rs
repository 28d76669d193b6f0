//! The state machines and values of the threshold-signing crates as this
//! library uses them: what is built, what is handed on, and what is asked
//! of them.

use vstd::prelude::*;
use curv::arithmetic::Converter;
use curv::elliptic::curves::{Scalar, Secp256k1};
use curv::BigInt;
use multi_party_ecdsa::protocols::multi_party_ecdsa::gg_2020::party_i::SignatureRecid;
use multi_party_ecdsa::protocols::multi_party_ecdsa::gg_2020::state_machine::keygen::LocalKey;
use multi_party_ecdsa::protocols::multi_party_ecdsa::gg_2020::state_machine::sign::{
    CompletedOfflineStage, OfflineStage, PartialSignature, SignManual,
};

verus! {

/// The result of a finished offline stage, `CompletedOfflineStage` of
/// `multi_party_ecdsa`. The library stores it and hands it back; it never
/// looks inside.
#[verifier::external_type_specification]
#[verifier::external_body]
pub struct ExCompletedOfflineStage(CompletedOfflineStage);

/// The state machine of the offline stage, `OfflineStage` of
/// `multi_party_ecdsa`. The library builds it for the protocol driver.
#[verifier::external_type_specification]
#[verifier::external_body]
pub struct ExOfflineStage(OfflineStage);

/// One party's share of a signature, `PartialSignature` of
/// `multi_party_ecdsa`.
#[verifier::external_type_specification]
#[verifier::external_body]
pub struct ExPartialSignature(PartialSignature);

/// The state of the online stage, `SignManual` of `multi_party_ecdsa`.
#[verifier::external_type_specification]
#[verifier::external_body]
pub struct ExSignManual(SignManual);

/// A finished signature with its recovery id, `SignatureRecid` of
/// `multi_party_ecdsa`.
#[verifier::external_type_specification]
#[verifier::external_body]
pub struct ExSignatureRecid(SignatureRecid);

/// An integer of any size, `BigInt` of `curv`.
#[verifier::external_type_specification]
#[verifier::external_body]
pub struct ExBigInt(BigInt);

/// Why an offline state machine could not be built.
#[derive(Clone, Copy, Debug, PartialEq, Eq, Structural)]
pub enum MachineError {
    /// The key share is not the serialised form of a local key.
    CorruptShare,
    /// The state machine rejected the party index or the party list.
    Refused,
}

/// What `OfflineStage::new` makes of the party index, the list of parties
/// and the key share that the JSON text `local_share` holds: the state
/// machine, or why there is none.
pub uninterp spec fn offline_machine_of(
    party_index: u16,
    parties: Seq<u16>,
    local_share: Seq<char>,
) -> Result<OfflineStage, MachineError>;

/// Parses the stored key share with `serde_json::from_slice` and hands it
/// to `OfflineStage::new` together with the party index and the list of
/// parties.
///
/// `OfflineStage::new` refuses a list of fewer than two parties, a party
/// index outside `1..=parties.len()`, an identity that is zero or above the
/// number of parties of the key, and a list that names an identity twice;
/// the contract states these as what holds whenever a machine comes back.
/// The parsed key share is generic over the curve and never leaves this
/// function.
#[verifier::external_body]
pub(crate) fn new_offline_machine(
    party_index: u16,
    parties: Vec<u16>,
    local_share: &str,
) -> (built: Result<OfflineStage, MachineError>)
    ensures
        built == offline_machine_of(party_index, parties@, local_share@),
        built is Ok ==> {
            &&& parties@.len() >= 2
            &&& 1 <= party_index <= parties@.len()
            &&& parties@.no_duplicates()
            &&& forall|i: int| 0 <= i < parties@.len() ==> parties@[i] != 0
        },
{
    let key = match serde_json::from_slice::<LocalKey<Secp256k1>>(local_share.as_bytes()) {
        Ok(key) => key,
        Err(_) => return Err(MachineError::CorruptShare),
    };
    OfflineStage::new(party_index, parties, key).map_err(|_| MachineError::Refused)
}

/// The JSON text of a signature; `None` where it cannot be written.
pub uninterp spec fn signature_json(signature: SignatureRecid) -> Option<Seq<char>>;

/// The partial signature that a signing state counts as its own.
pub uninterp spec fn own_share_of(signing: SignManual) -> PartialSignature;

/// The scalar of a partial signature, as 32 bytes; `None` where it cannot
/// be read.
pub uninterp spec fn partial_scalar(partial_signature: PartialSignature) -> Option<Seq<u8>>;

/// The sum of two scalars of the curve, each given and returned as 32
/// bytes; `None` where one of the two is no scalar.
pub uninterp spec fn scalar_sum(a: Seq<u8>, b: Seq<u8>) -> Option<Seq<u8>>;

/// The number that the bytes `digest` spell, the most significant byte
/// first.
pub uninterp spec fn bigint_of(digest: Seq<u8>) -> BigInt;

/// The signing state and the partial signature that the online stage
/// starts from for the number `message` and the finished offline stage
/// `stage`; `None` where there is none.
pub uninterp spec fn manual_signing_of(
    message: BigInt,
    stage: CompletedOfflineStage,
) -> Option<(SignManual, PartialSignature)>;

/// Calls `BigInt::from_bytes`, which reads the bytes as a number, the most
/// significant byte first.
#[verifier::external_body]
pub(crate) fn bigint_from_bytes(digest: &Vec<u8>) -> (number: BigInt)
    ensures
        number == bigint_of(digest@),
{
    BigInt::from_bytes(digest)
}

/// Calls `clone` of a finished offline stage, which copies it field by
/// field.
#[verifier::external_body]
pub(crate) fn copy_of_stage(stage: &CompletedOfflineStage) -> (copy: CompletedOfflineStage)
    ensures
        copy == *stage,
{
    stage.clone()
}

/// Calls `SignManual::new`, which computes the partial signature of this
/// party from the message and the finished offline stage and returns the
/// signing state together with a copy of the partial signature that the
/// state holds as its own. The function has no failing path.
#[verifier::external_body]
pub(crate) fn sign_manual_new(
    message: BigInt,
    stage: CompletedOfflineStage,
) -> (made: Option<(SignManual, PartialSignature)>)
    ensures
        made == manual_signing_of(message, stage),
        made is Some,
        made matches Some((signing, partial_signature)) ==> own_share_of(signing)
            == partial_signature,
{
    SignManual::new(message, stage).ok()
}

/// Reads the scalar of a partial signature through its serialised form,
/// with `serde_json::to_value` and `serde_json::from_value`, and encodes it
/// with `Scalar::to_bytes`, which for this curve yields 32 bytes.
#[verifier::external_body]
pub(crate) fn partial_signature_bytes(
    partial_signature: &PartialSignature,
) -> (scalar: Option<Vec<u8>>)
    ensures
        match scalar {
            Some(bytes) => partial_scalar(*partial_signature) == Some(bytes@) && bytes@.len()
                == 32,
            None => partial_scalar(*partial_signature) is None,
        },
{
    let value = serde_json::to_value(partial_signature).ok()?;
    let scalar = serde_json::from_value::<Scalar<Secp256k1>>(value).ok()?;
    Some(scalar.to_bytes().to_vec())
}

/// Adds two scalars with the addition of `curv`, reading each with
/// `Scalar::from_bytes` and encoding the sum with `Scalar::to_bytes`, which
/// for this curve yields 32 bytes.
#[verifier::external_body]
pub(crate) fn add_scalars(a: &Vec<u8>, b: &Vec<u8>) -> (sum: Option<Vec<u8>>)
    ensures
        match sum {
            Some(bytes) => scalar_sum(a@, b@) == Some(bytes@) && bytes@.len() == 32,
            None => scalar_sum(a@, b@) is None,
        },
{
    let a = Scalar::<Secp256k1>::from_bytes(a).ok()?;
    let b = Scalar::<Secp256k1>::from_bytes(b).ok()?;
    Some((a + b).to_bytes().to_vec())
}

/// The sum of a first scalar and the scalars of `peers`, added one after
/// the other; `None` where one of them cannot be read.
pub open spec fn combined_scalar(
    first: Option<Seq<u8>>,
    peers: Seq<PartialSignature>,
) -> Option<Seq<u8>>
    decreases peers.len(),
{
    if peers.len() == 0 {
        first
    } else {
        match (combined_scalar(first, peers.drop_last()), partial_scalar(peers.last())) {
            (Some(sum), Some(next)) => scalar_sum(sum, next),
            _ => None,
        }
    }
}

/// Whether every byte of `scalar` is zero, which is how the zero scalar is
/// encoded.
pub open spec fn is_zero_scalar(scalar: Seq<u8>) -> bool {
    forall|i: int| 0 <= i < scalar.len() ==> scalar[i] == 0
}

/// Whether the partial signatures of the peers combine with the one of the
/// signing state: all can be read and their sum is not zero. A sum of zero
/// has no inverse, and the combination needs one.
pub open spec fn combinable(signing: SignManual, peers: Seq<PartialSignature>) -> bool {
    match combined_scalar(partial_scalar(own_share_of(signing)), peers) {
        Some(sum) => !is_zero_scalar(sum),
        None => false,
    }
}

/// Calls `serde_json::to_string` on a signature.
#[verifier::external_body]
pub(crate) fn signature_to_json(signature: &SignatureRecid) -> (text: Option<String>)
    ensures
        match text {
            Some(t) => signature_json(*signature) == Some(t@),
            None => signature_json(*signature) is None,
        },
{
    serde_json::to_string(signature).ok()
}

/// Produces the local partial signature on `digest`, read as a big-endian
/// number, from a copy of the finished offline stage: the signing state and
/// the partial signature that the online stage starts from.
pub(crate) fn new_manual_signing(
    digest: &Vec<u8>,
    stage: &CompletedOfflineStage,
) -> (made: Option<(SignManual, PartialSignature)>)
    ensures
        made == manual_signing_of(bigint_of(digest@), *stage),
        made is Some,
        made matches Some((signing, partial_signature)) ==> own_share_of(signing)
            == partial_signature,
{
    sign_manual_new(bigint_from_bytes(digest), copy_of_stage(stage))
}

/// Whether every byte of `scalar` is zero.
pub(crate) fn scalar_is_zero(scalar: &Vec<u8>) -> (zero: bool)
    ensures
        zero == is_zero_scalar(scalar@),
{
    let mut i: usize = 0;
    while i < scalar.len()
        invariant
            i <= scalar@.len(),
            forall|k: int| 0 <= k < i ==> scalar@[k] == 0,
        decreases scalar@.len() - i,
    {
        if scalar[i] != 0 {
            return false;
        }
        i += 1;
    }
    true
}

/// Adds up the scalars of the partial signatures, the own one first.
pub(crate) fn sum_of_partial_signatures(
    own: &PartialSignature,
    peers: &Vec<PartialSignature>,
) -> (sum: Option<Vec<u8>>)
    ensures
        match sum {
            Some(bytes) => combined_scalar(partial_scalar(*own), peers@) == Some(bytes@),
            None => combined_scalar(partial_scalar(*own), peers@) is None,
        },
{
    let mut sum = match partial_signature_bytes(own) {
        Some(bytes) => bytes,
        None => {
            proof {
                lemma_combined_scalar_needs_first(peers@);
            }
            return None;
        },
    };
    let mut i: usize = 0;
    proof {
        assert(peers@.take(0) =~= Seq::<PartialSignature>::empty());
    }
    while i < peers.len()
        invariant
            i <= peers@.len(),
            combined_scalar(partial_scalar(*own), peers@.take(i as int)) == Some(sum@),
        decreases peers@.len() - i,
    {
        proof {
            assert(peers@.take(i + 1).drop_last() =~= peers@.take(i as int));
            assert(peers@.take(i + 1).last() == peers@[i as int]);
        }
        let next = partial_signature_bytes(&peers[i]);
        let added = match next {
            Some(bytes) => add_scalars(&sum, &bytes),
            None => None,
        };
        match added {
            Some(bytes) => {
                sum = bytes;
            },
            None => {
                proof {
                    lemma_combined_scalar_stays_undefined(
                        partial_scalar(*own),
                        peers@,
                        i + 1,
                    );
                }
                return None;
            },
        }
        i += 1;
    }
    proof {
        assert(peers@.take(peers@.len() as int) =~= peers@);
    }
    Some(sum)
}

/// Without a first scalar there is no sum.
proof fn lemma_combined_scalar_needs_first(peers: Seq<PartialSignature>)
    ensures
        combined_scalar(None, peers) is None,
    decreases peers.len(),
{
    if peers.len() > 0 {
        lemma_combined_scalar_needs_first(peers.drop_last());
    }
}

/// Once the sum of the first partial signatures is undefined, so is the
/// sum of all.
proof fn lemma_combined_scalar_stays_undefined(
    first: Option<Seq<u8>>,
    peers: Seq<PartialSignature>,
    upto: int,
)
    requires
        0 <= upto <= peers.len(),
        combined_scalar(first, peers.take(upto)) is None,
    ensures
        combined_scalar(first, peers) is None,
    decreases peers.len() - upto,
{
    if upto == peers.len() {
        assert(peers.take(upto) =~= peers);
    } else {
        assert(peers.take(upto + 1).drop_last() =~= peers.take(upto));
        lemma_combined_scalar_stays_undefined(first, peers, upto + 1);
    }
}

} // verus!
