//! Checking a finished signature against a digest and the shared public
//! key.

use vstd::prelude::*;
use curv::elliptic::curves::{Point, Secp256k1};
use multi_party_ecdsa::protocols::multi_party_ecdsa::gg_2020::party_i::SignatureRecid;
use secp256k1::{Message, PublicKey, Signature, SECP256K1};
use serde_json::Value;
use crate::mpc::utils::json::{json_member, json_parsed, member, parse_json};

verus! {

/// A message to verify a signature on, `Message` of `secp256k1`.
#[verifier::external_type_specification]
#[verifier::external_body]
pub struct ExMessage(Message);

/// An ECDSA signature, `Signature` of `secp256k1`.
#[verifier::external_type_specification]
#[verifier::external_body]
pub struct ExSignature(Signature);

/// A public key, `PublicKey` of `secp256k1`.
#[verifier::external_type_specification]
#[verifier::external_body]
pub struct ExPublicKey(PublicKey);

/// The scalars `r` and `s`, 32 bytes each, of the signature that
/// `signature` holds as JSON text; `None` where the text is no signature.
pub uninterp spec fn signature_scalars(signature: Seq<char>) -> Option<(Seq<u8>, Seq<u8>)>;

/// The uncompressed encoding, 65 bytes, of the curve point that the JSON
/// value `value` denotes; `None` where it denotes none.
pub uninterp spec fn json_point(value: Value) -> Option<Seq<u8>>;

/// The message that the 32 bytes `data` are; `None` for any other length.
pub uninterp spec fn message_of(data: Seq<u8>) -> Option<Message>;

/// The signature that the 64 bytes `data` encode in compact form; `None`
/// where they encode none.
pub uninterp spec fn signature_of(data: Seq<u8>) -> Option<Signature>;

/// The public key that `data` encodes; `None` where it encodes none.
pub uninterp spec fn public_key_of(data: Seq<u8>) -> Option<PublicKey>;

/// Whether `signature` signs `message` under `public_key`.
pub uninterp spec fn ecdsa_verifies(
    message: Message,
    signature: Signature,
    public_key: PublicKey,
) -> bool;

/// Parses the text with `serde_json::from_str` as a signature with recovery
/// id and encodes its two scalars with `Scalar::to_bytes`, which for this
/// curve yields 32 bytes each.
#[verifier::external_body]
fn parse_signature_scalars(signature: &str) -> (rs: Option<(Vec<u8>, Vec<u8>)>)
    ensures
        match rs {
            Some((r, s)) => signature_scalars(signature@) == Some((r@, s@)) && r@.len() == 32
                && s@.len() == 32,
            None => signature_scalars(signature@) is None,
        },
{
    let parsed = serde_json::from_str::<SignatureRecid>(signature).ok()?;
    Some((parsed.r.to_bytes().to_vec(), parsed.s.to_bytes().to_vec()))
}

/// Reads the value as a curve point with `serde_json::from_value` and
/// encodes the point in uncompressed form with `Point::to_bytes`, which for
/// this curve yields 65 bytes.
#[verifier::external_body]
fn point_bytes(value: &Value) -> (key: Option<Vec<u8>>)
    ensures
        match key {
            Some(k) => json_point(*value) == Some(k@) && k@.len() == 65,
            None => json_point(*value) is None,
        },
{
    let point = serde_json::from_value::<Point<Secp256k1>>(value.clone()).ok()?;
    Some(point.to_bytes(false).to_vec())
}

/// Calls `Message::from_slice`, which accepts exactly the slices of 32
/// bytes.
#[verifier::external_body]
fn message_from_slice(data: &Vec<u8>) -> (message: Option<Message>)
    ensures
        message == message_of(data@),
        message is Some <==> data@.len() == 32,
{
    Message::from_slice(data).ok()
}

/// Calls `Signature::from_compact`, which refuses every slice that is not
/// 64 bytes long.
#[verifier::external_body]
fn signature_from_compact(data: &Vec<u8>) -> (signature: Option<Signature>)
    ensures
        signature == signature_of(data@),
        signature is Some ==> data@.len() == 64,
{
    Signature::from_compact(data).ok()
}

/// Calls `PublicKey::from_slice`, which refuses the empty slice.
#[verifier::external_body]
fn public_key_from_slice(data: &Vec<u8>) -> (public_key: Option<PublicKey>)
    ensures
        public_key == public_key_of(data@),
        public_key is Some ==> data@.len() > 0,
{
    PublicKey::from_slice(data).ok()
}

/// Calls `Secp256k1::verify` on the global context.
#[verifier::external_body]
fn ecdsa_verify(message: &Message, signature: &Signature, public_key: &PublicKey) -> (ok: bool)
    ensures
        ok == ecdsa_verifies(*message, *signature, *public_key),
{
    SECP256K1.verify(message, signature, public_key).is_ok()
}

/// Whether the three byte strings are a message, a compact signature and
/// a public key such that the signature signs the message under the key.
pub open spec fn secp256k1_accepts(
    message: Seq<u8>,
    compact: Seq<u8>,
    public_key: Seq<u8>,
) -> bool {
    match (message_of(message), signature_of(compact), public_key_of(public_key)) {
        (Some(m), Some(s), Some(k)) => ecdsa_verifies(m, s, k),
        _ => false,
    }
}

/// The uncompressed encoding of the public key that the JSON text of a key
/// share holds in its field `y_sum_s`; `None` where there is none.
pub open spec fn share_public_key(share: Seq<char>) -> Option<Seq<u8>> {
    match json_parsed(share) {
        Some(value) => json_point(json_member(value, "y_sum_s"@)),
        None => None,
    }
}

/// Parses the three byte strings and verifies the signature; anything that
/// does not parse is not accepted.
pub fn secp256k1_verify(message: &Vec<u8>, compact: &Vec<u8>, public_key: &Vec<u8>) -> (ok: bool)
    ensures
        ok == secp256k1_accepts(message@, compact@, public_key@),
        ok ==> message@.len() == 32 && compact@.len() == 64,
{
    let message = message_from_slice(message);
    let signature = signature_from_compact(compact);
    let public_key = public_key_from_slice(public_key);
    match (message, signature, public_key) {
        (Some(m), Some(s), Some(k)) => ecdsa_verify(&m, &s, &k),
        _ => false,
    }
}

/// `bytes` with as many zero bytes in front as it takes to reach `width`.
pub open spec fn left_padded(bytes: Seq<u8>, width: nat) -> Seq<u8> {
    Seq::new((width - bytes.len()) as nat, |i: int| 0u8) + bytes
}

/// The public key in the form the verifier expects: a bare pair of
/// coordinates gets the marker of the uncompressed form in front.
pub open spec fn tagged_public_key(pk: Seq<u8>) -> Seq<u8> {
    if pk.len() == 64 {
        seq![4u8] + pk
    } else {
        pk
    }
}

/// Whether `r` and `s` sign the digest `msg` under the public key `pk`:
/// each of the three numbers has at most 32 bytes and is brought to 32 by
/// zeros in front, and the verifier accepts the result.
pub open spec fn signature_checks(r: Seq<u8>, s: Seq<u8>, msg: Seq<u8>, pk: Seq<u8>) -> bool {
    &&& r.len() <= 32
    &&& s.len() <= 32
    &&& msg.len() <= 32
    &&& secp256k1_accepts(
        left_padded(msg, 32),
        left_padded(r, 32) + left_padded(s, 32),
        tagged_public_key(pk),
    )
}

/// Appends `bytes` to `out` behind enough zero bytes to fill `width`.
pub fn push_left_padded(out: &mut Vec<u8>, bytes: &Vec<u8>, width: usize)
    requires
        bytes@.len() <= width,
    ensures
        final(out)@ == old(out)@ + left_padded(bytes@, width as nat),
{
    let ghost start = out@;
    let pad = width - bytes.len();
    let mut i: usize = 0;
    while i < pad
        invariant
            i <= pad,
            out@ == start + Seq::new(i as nat, |k: int| 0u8),
        decreases pad - i,
    {
        out.push(0u8);
        i += 1;
    }
    let mut j: usize = 0;
    while j < bytes.len()
        invariant
            j <= bytes@.len(),
            out@ == start + Seq::new(pad as nat, |k: int| 0u8) + bytes@.take(j as int),
        decreases bytes@.len() - j,
    {
        out.push(bytes[j]);
        j += 1;
    }
    proof {
        assert(bytes@.take(bytes@.len() as int) == bytes@);
        assert(out@ =~= start + left_padded(bytes@, width as nat));
    }
}

/// The public key in the form the verifier expects.
pub fn tag_public_key(pk: &Vec<u8>) -> (key: Vec<u8>)
    ensures
        key@ == tagged_public_key(pk@),
{
    let mut key: Vec<u8> = Vec::new();
    if pk.len() == 64 {
        key.push(4u8);
    }
    let ghost head = key@;
    let mut i: usize = 0;
    while i < pk.len()
        invariant
            i <= pk@.len(),
            key@ == head + pk@.take(i as int),
        decreases pk@.len() - i,
    {
        key.push(pk[i]);
        i += 1;
    }
    proof {
        assert(pk@.take(pk@.len() as int) == pk@);
        assert(key@ =~= tagged_public_key(pk@));
    }
    key
}

/// Reads the scalars `r` and `s` of a signature from its JSON text.
pub fn extract_rs(signature: &str) -> (rs: Option<(Vec<u8>, Vec<u8>)>)
    ensures
        match rs {
            Some((r, s)) => signature_scalars(signature@) == Some((r@, s@)) && r@.len() == 32
                && s@.len() == 32,
            None => signature_scalars(signature@) is None,
        },
{
    parse_signature_scalars(signature)
}

/// Reads the shared public key from the JSON text of a key share.
pub fn get_public_key(json_str: &str) -> (key: Option<Vec<u8>>)
    ensures
        match key {
            Some(k) => share_public_key(json_str@) == Some(k@) && k@.len() == 65,
            None => share_public_key(json_str@) is None,
        },
{
    match parse_json(json_str) {
        Some(value) => point_bytes(member(&value, "y_sum_s")),
        None => None,
    }
}

/// Checks the signature `(r, s)` on the digest `msg` under the public key
/// `pk`. All four are big-endian byte strings; `r`, `s` and `msg` may be
/// shorter than 32 bytes, and anything longer is no signature.
pub fn check_sig(r: &Vec<u8>, s: &Vec<u8>, msg: &Vec<u8>, pk: &Vec<u8>) -> (valid: bool)
    ensures
        valid == signature_checks(r@, s@, msg@, pk@),
{
    if r.len() > 32 || s.len() > 32 || msg.len() > 32 {
        return false;
    }
    let mut message: Vec<u8> = Vec::new();
    push_left_padded(&mut message, msg, 32);
    let raw_pk = tag_public_key(pk);
    let mut compact: Vec<u8> = Vec::new();
    push_left_padded(&mut compact, r, 32);
    push_left_padded(&mut compact, s, 32);
    proof {
        assert(message@ =~= left_padded(msg@, 32));
        assert(compact@ =~= left_padded(r@, 32) + left_padded(s@, 32));
    }
    secp256k1_verify(&message, &compact, &raw_pk)
}

} // verus!
