//! What the endpoints of the service decide: which requests are accepted,
//! in which order the stages of a ceremony run, and what a caller is told.

use std::time::Duration;
use vstd::prelude::*;
use vstd::string::StringExecFns;
use vstd::utf8::{decode_utf8, valid_utf8};
use crate::communication::create_communication_channel::Db;
use crate::communication::envelope::envelope_addressing;
use crate::communication::room::{Delivery, Room};
use crate::mpc::operations::check_signature::{
    check_sig, extract_rs, get_public_key, share_public_key, signature_checks, signature_scalars,
};
use crate::mpc::operations::signing::Signer;
use crate::mpc::utils::check_timestamp::{
    accepted_at, since_unix_epoch, system_now, timestamp_accepted_at,
};
use crate::mpc::utils::digest::{sha256_digest, sha256_hex};
use crate::mpc::utils::hex2string::{
    hex_bytes, hex_decode, hex_text_meaning, string_from_utf8, try_hex_to_string,
};
use crate::mpc::utils::parse_signature_json::EndpointSignatureData;
use crate::mpc::utils::text::{parse_u64, parse_unsigned, split_commas, split_fields};

verus! {

/// Why a signing request is turned down.
#[derive(Clone, Copy, Debug, PartialEq, Eq, Structural)]
pub enum SignRefusal {
    /// The body of the request could not be read.
    UnreadableRequest,
    /// The data to sign is not the hexadecimal notation of a text.
    DataNotHex,
    /// The timestamp is not a number.
    TimestampBadFormat,
    /// The timestamp lies outside the accepted window.
    TimestampOutsideWindow,
    /// The participant set is not accepted.
    InvalidParticipants,
    /// The offline stage did not finish.
    OfflineStageFailed,
    /// The online stage did not produce a signature.
    SigningFailed,
    /// An event arrived that the ceremony was not waiting for.
    OutOfOrder,
}

impl SignRefusal {
    /// The text that goes back to the caller.
    pub open spec fn spec_message(self) -> Seq<char> {
        match self {
            SignRefusal::UnreadableRequest => "Unable to parse json data"@,
            SignRefusal::DataNotHex => "Decoding failed"@,
            SignRefusal::TimestampBadFormat => "TIMESTAMP IN BAD FORMAT"@,
            SignRefusal::TimestampOutsideWindow => "TIMESTAMP IS OLDER THAN 10 MINUTES"@,
            SignRefusal::InvalidParticipants => "Second participant is invalid"@,
            SignRefusal::OfflineStageFailed => "Offline stage failed"@,
            SignRefusal::SigningFailed => "Message could not be signed"@,
            SignRefusal::OutOfOrder => "Unexpected event"@,
        }
    }

    /// The text that goes back to the caller.
    pub fn message(&self) -> (text: &'static str)
        ensures
            text@ == self.spec_message(),
    {
        match self {
            SignRefusal::UnreadableRequest => "Unable to parse json data",
            SignRefusal::DataNotHex => "Decoding failed",
            SignRefusal::TimestampBadFormat => "TIMESTAMP IN BAD FORMAT",
            SignRefusal::TimestampOutsideWindow => "TIMESTAMP IS OLDER THAN 10 MINUTES",
            SignRefusal::InvalidParticipants => "Second participant is invalid",
            SignRefusal::OfflineStageFailed => "Offline stage failed",
            SignRefusal::SigningFailed => "Message could not be signed",
            SignRefusal::OutOfOrder => "Unexpected event",
        }
    }
}

/// A signing request that passed validation.
#[derive(Debug)]
pub struct SignRequest {
    /// The identities of the peers.
    pub participant_ids: Vec<u16>,
    /// The addresses of the peers, in the same order.
    pub participant_urls: Vec<String>,
    /// The digest to sign, in hexadecimal notation.
    pub hash: String,
}

/// The verdict on a request's data and timestamp for a given reading of
/// the clock: the digest to sign, or the reason for turning the request
/// down. The data is checked first, then the form of the timestamp, then
/// its freshness; the digest covers the decoded data followed by the
/// timestamp as it was sent.
pub open spec fn checked_request(
    data_to_sign: Seq<char>,
    timestamp: Seq<char>,
    now: Option<Duration>,
    window: Duration,
) -> Result<Seq<char>, SignRefusal> {
    match hex_text_meaning(data_to_sign) {
        None => Err(SignRefusal::DataNotHex),
        Some(decoded) => match parse_unsigned(timestamp) {
            None => Err(SignRefusal::TimestampBadFormat),
            Some(seconds) => if accepted_at(seconds, now, window) {
                Ok(sha256_hex(decoded + timestamp))
            } else {
                Err(SignRefusal::TimestampOutsideWindow)
            },
        },
    }
}

/// Whether `answer` is the validated form of `data` with the verdict
/// `verdict`.
pub open spec fn request_is(
    answer: Result<SignRequest, SignRefusal>,
    data: EndpointSignatureData,
    verdict: Result<Seq<char>, SignRefusal>,
) -> bool {
    match verdict {
        Ok(hash) => {
            &&& answer is Ok
            &&& answer->Ok_0.hash@ == hash
            &&& answer->Ok_0.participant_ids@ == data.spec_ids()
            &&& answer->Ok_0.participant_urls.deep_view() == data.spec_urls()
        },
        Err(refusal) => answer is Err && answer->Err_0 == refusal,
    }
}

/// Validates a signing request against the clock reading `now`.
pub fn check_sign_request_at(
    data: &EndpointSignatureData,
    now: &Option<Duration>,
    window: &Duration,
) -> (answer: Result<SignRequest, SignRefusal>)
    ensures
        request_is(
            answer,
            *data,
            checked_request(data.spec_data_to_sign(), data.spec_timestamp(), *now, *window),
        ),
{
    let mut signed_text = match try_hex_to_string(data.data_to_sign()) {
        Some(text) => text,
        None => {
            return Err(SignRefusal::DataNotHex);
        },
    };
    let timestamp = match parse_u64(data.timestamp()) {
        Some(v) => v,
        None => {
            return Err(SignRefusal::TimestampBadFormat);
        },
    };
    if !timestamp_accepted_at(timestamp, now, window) {
        return Err(SignRefusal::TimestampOutsideWindow);
    }
    signed_text.append(data.timestamp());
    let hash = sha256_digest(signed_text.as_str());
    Ok(
        SignRequest {
            participant_ids: data.get_ids(),
            participant_urls: data.get_urls(),
            hash,
        },
    )
}

/// Validates a signing request against the present: reads the clock, then
/// decides as `check_sign_request_at` does. Nothing but the clock is
/// touched.
pub fn check_sign_request(
    data: &EndpointSignatureData,
    window: &Duration,
) -> (answer: Result<SignRequest, SignRefusal>)
    ensures
        exists|now: Option<Duration>|
            request_is(
                answer,
                *data,
                checked_request(data.spec_data_to_sign(), data.spec_timestamp(), now, *window),
            ),
{
    let start = system_now();
    let now = since_unix_epoch(&start);
    let answer = check_sign_request_at(data, &now, window);
    assert(request_is(
        answer,
        *data,
        checked_request(data.spec_data_to_sign(), data.spec_timestamp(), now, *window),
    ));
    answer
}

/// The session identifier of the online stage of the ceremony that runs
/// its offline stage under `room_id`.
pub open spec fn spec_online_session(room_id: u16) -> u16 {
    if room_id == u16::MAX {
        0
    } else {
        (room_id + 1) as u16
    }
}

/// The session identifier of the online stage; it never equals the one of
/// the offline stage.
pub fn online_session(room_id: u16) -> (session: u16)
    ensures
        session == spec_online_session(room_id),
        session != room_id,
{
    if room_id == u16::MAX {
        0
    } else {
        room_id + 1
    }
}

/// Where a signing ceremony stands.
#[derive(Clone, Copy, Debug, PartialEq, Eq, Structural)]
pub enum SignPhase {
    /// Nothing has run yet.
    Start,
    /// The offline stage is running.
    Offline,
    /// The online stage is running.
    Online,
    /// The ceremony has ended.
    Done,
}

/// What happened outside since the last step of a ceremony.
#[derive(Debug, PartialEq, Eq)]
pub enum SignEvent {
    /// A validated request arrived.
    Requested,
    /// The offline stage ended; `true` when its result was recorded.
    OfflineFinished(bool),
    /// The online stage ended with the signature, or without one.
    OnlineFinished(Option<String>),
}

/// What the ceremony asks its driver to do next.
#[derive(Debug, PartialEq, Eq)]
pub enum SignAction {
    /// Open a room under `session` with `local_index` as the identity that
    /// inbound messages are filtered by, run the offline stage and report
    /// how it ended.
    RunOfflineStage { local_index: u16, session: u16 },
    /// Open a room under `session` with `local_index` as the identity that
    /// inbound messages are filtered by, run the online stage and report
    /// how it ended.
    RunOnlineStage { local_index: u16, session: u16 },
    /// Answer the request with the signature.
    Reply(String),
    /// Turn the request down.
    Refuse(SignRefusal),
}

/// The next phase and action of a ceremony. `complete` says whether the
/// offline stage of the participant set is already recorded, `index` is the
/// index the signer takes among the participants.
pub open spec fn sign_transition(
    server_id: u16,
    room_id: u16,
    phase: SignPhase,
    complete: bool,
    index: Option<u16>,
    event: SignEvent,
) -> (SignPhase, SignAction) {
    let online = SignAction::RunOnlineStage {
        local_index: server_id,
        session: spec_online_session(room_id),
    };
    match (phase, event) {
        (SignPhase::Start, SignEvent::Requested) => if complete {
            (SignPhase::Online, online)
        } else {
            match index {
                Some(local_index) => (
                    SignPhase::Offline,
                    SignAction::RunOfflineStage { local_index, session: room_id },
                ),
                None => (SignPhase::Done, SignAction::Refuse(SignRefusal::InvalidParticipants)),
            }
        },
        (SignPhase::Offline, SignEvent::OfflineFinished(recorded)) => if recorded {
            (SignPhase::Online, online)
        } else {
            (SignPhase::Done, SignAction::Refuse(SignRefusal::OfflineStageFailed))
        },
        (SignPhase::Online, SignEvent::OnlineFinished(Some(signature))) => (
            SignPhase::Done,
            SignAction::Reply(signature),
        ),
        (SignPhase::Online, SignEvent::OnlineFinished(None)) => (
            SignPhase::Done,
            SignAction::Refuse(SignRefusal::SigningFailed),
        ),
        _ => (SignPhase::Done, SignAction::Refuse(SignRefusal::OutOfOrder)),
    }
}

/// One signing ceremony as the endpoint sees it: the offline stage runs
/// only where its result is not recorded yet, the online stage runs after
/// it under a session identifier of its own, and every failure ends the
/// ceremony.
pub struct SignCeremony {
    server_id: u16,
    room_id: u16,
    phase: SignPhase,
}

impl SignCeremony {
    /// The identity of the local server.
    pub closed spec fn spec_server_id(&self) -> u16 {
        self.server_id
    }

    /// The session identifier the ceremony was requested under.
    pub closed spec fn spec_room_id(&self) -> u16 {
        self.room_id
    }

    /// Where the ceremony stands.
    pub closed spec fn spec_phase(&self) -> SignPhase {
        self.phase
    }

    /// A ceremony of server `server_id` that was requested under the
    /// session identifier `room_id`.
    pub fn new(server_id: u16, room_id: u16) -> (ceremony: SignCeremony)
        ensures
            ceremony.spec_server_id() == server_id,
            ceremony.spec_room_id() == room_id,
            ceremony.spec_phase() == SignPhase::Start,
    {
        SignCeremony { server_id, room_id, phase: SignPhase::Start }
    }

    /// Where the ceremony stands.
    pub fn phase(&self) -> (phase: SignPhase)
        ensures
            phase == self.spec_phase(),
    {
        self.phase
    }

    /// Takes the next event and says what to do.
    pub fn step(
        &mut self,
        signer: &Signer,
        participants: &Vec<u16>,
        event: SignEvent,
    ) -> (action: SignAction)
        ensures
            final(self).spec_server_id() == old(self).spec_server_id(),
            final(self).spec_room_id() == old(self).spec_room_id(),
            (final(self).spec_phase(), action) == sign_transition(
                old(self).spec_server_id(),
                old(self).spec_room_id(),
                old(self).spec_phase(),
                signer.completed().contains_key(signer.spec_all_parties(participants@)),
                signer.spec_arbitrary_index(participants@),
                event,
            ),
    {
        let online = SignAction::RunOnlineStage {
            local_index: self.server_id,
            session: online_session(self.room_id),
        };
        match (self.phase, event) {
            (SignPhase::Start, SignEvent::Requested) => {
                if signer.is_offline_stage_complete(participants) {
                    self.phase = SignPhase::Online;
                    online
                } else {
                    match signer.real_to_arbitrary_index(participants) {
                        Some(local_index) => {
                            self.phase = SignPhase::Offline;
                            SignAction::RunOfflineStage { local_index, session: self.room_id }
                        },
                        None => {
                            self.phase = SignPhase::Done;
                            SignAction::Refuse(SignRefusal::InvalidParticipants)
                        },
                    }
                }
            },
            (SignPhase::Offline, SignEvent::OfflineFinished(recorded)) => {
                if recorded {
                    self.phase = SignPhase::Online;
                    online
                } else {
                    self.phase = SignPhase::Done;
                    SignAction::Refuse(SignRefusal::OfflineStageFailed)
                }
            },
            (SignPhase::Online, SignEvent::OnlineFinished(Some(signature))) => {
                self.phase = SignPhase::Done;
                SignAction::Reply(signature)
            },
            (SignPhase::Online, SignEvent::OnlineFinished(None)) => {
                self.phase = SignPhase::Done;
                SignAction::Refuse(SignRefusal::SigningFailed)
            },
            _ => {
                self.phase = SignPhase::Done;
                SignAction::Refuse(SignRefusal::OutOfOrder)
            },
        }
    }
}

/// What a caller of the verification endpoint is told.
#[derive(Clone, Copy, Debug, PartialEq, Eq, Structural)]
pub enum VerifyReply {
    /// The signature is valid.
    Valid,
    /// The signature is not valid.
    Invalid,
    /// This server has no key share to take the public key from.
    MissingShare,
    /// The request or the stored key share cannot be read.
    Malformed,
}

impl VerifyReply {
    /// The text that goes back to the caller.
    pub open spec fn spec_message(self) -> Seq<char> {
        match self {
            VerifyReply::Valid => "Valid signature"@,
            VerifyReply::Invalid => "Invalid signature"@,
            VerifyReply::MissingShare =>
                "local-share.json is missing. Generate it first with the /keygen endpoint"@,
            VerifyReply::Malformed => "Malformed request"@,
        }
    }

    /// The text that goes back to the caller.
    pub fn message(&self) -> (text: &'static str)
        ensures
            text@ == self.spec_message(),
    {
        match self {
            VerifyReply::Valid => "Valid signature",
            VerifyReply::Invalid => "Invalid signature",
            VerifyReply::MissingShare =>
                "local-share.json is missing. Generate it first with the /keygen endpoint",
            VerifyReply::Malformed => "Malformed request",
        }
    }
}

/// The verdict on a verification request. The body holds three fields
/// separated by commas: the signature and the signed data, both as the
/// hexadecimal notation of a text, and the timestamp. The digest is taken
/// over the data followed by the timestamp, and the public key comes from
/// the stored key share.
pub open spec fn verify_outcome(body: Seq<char>, share: Option<Seq<char>>) -> VerifyReply {
    let fields = split_fields(body);
    if fields.len() < 3 {
        VerifyReply::Malformed
    } else {
        match (hex_text_meaning(fields[0]), hex_text_meaning(fields[1])) {
            (Some(signature), Some(data)) => match signature_scalars(signature) {
                None => VerifyReply::Malformed,
                Some((r, s)) => match share {
                    None => VerifyReply::MissingShare,
                    Some(share) => match share_public_key(share) {
                        None => VerifyReply::Malformed,
                        Some(pk) => if signature_checks(
                            r,
                            s,
                            hex_bytes(sha256_hex(data + fields[2])),
                            pk,
                        ) {
                            VerifyReply::Valid
                        } else {
                            VerifyReply::Invalid
                        },
                    },
                },
            },
            _ => VerifyReply::Malformed,
        }
    }
}

/// Decides a verification request. `share` is the stored key share of this
/// server as the caller read it, `None` where there is none.
pub fn verify(data: &str, share: Option<&str>) -> (reply: VerifyReply)
    ensures
        reply == verify_outcome(
            data@,
            match share {
                Some(text) => Some(text@),
                None => None,
            },
        ),
{
    let split_data = split_commas(data);
    if split_data.len() < 3 {
        return VerifyReply::Malformed;
    }
    proof {
        assert(split_data.deep_view()[0] == split_data@[0]@);
        assert(split_data.deep_view()[1] == split_data@[1]@);
        assert(split_data.deep_view()[2] == split_data@[2]@);
    }
    let signature = match try_hex_to_string(split_data[0].as_str()) {
        Some(text) => text,
        None => {
            return VerifyReply::Malformed;
        },
    };
    let mut signed_text = match try_hex_to_string(split_data[1].as_str()) {
        Some(text) => text,
        None => {
            return VerifyReply::Malformed;
        },
    };
    signed_text.append(split_data[2].as_str());
    let signed_data = sha256_digest(signed_text.as_str());
    let (r, s) = match extract_rs(signature.as_str()) {
        Some(rs) => rs,
        None => {
            return VerifyReply::Malformed;
        },
    };
    let msg = match hex_decode(signed_data.as_str()) {
        Some(bytes) => bytes,
        None => {
            return VerifyReply::Malformed;
        },
    };
    let file_contents = match share {
        Some(text) => text,
        None => {
            return VerifyReply::MissingShare;
        },
    };
    let public_key = match get_public_key(file_contents) {
        Some(key) => key,
        None => {
            return VerifyReply::Malformed;
        },
    };
    if check_sig(&r, &s, &msg, &public_key) {
        VerifyReply::Valid
    } else {
        VerifyReply::Invalid
    }
}

/// What a caller of the key-generation endpoint is told.
#[derive(Clone, Copy, Debug, PartialEq, Eq, Structural)]
pub enum KeyGenReply {
    Generated,
    NotGenerated,
}

impl KeyGenReply {
    /// The text that goes back to the caller.
    pub open spec fn spec_message(self) -> Seq<char> {
        match self {
            KeyGenReply::Generated => "Keys were successfully generated"@,
            KeyGenReply::NotGenerated => "Keys could NOT be generated"@,
        }
    }

    /// The text that goes back to the caller.
    pub fn message(&self) -> (text: &'static str)
        ensures
            text@ == self.spec_message(),
    {
        match self {
            KeyGenReply::Generated => "Keys were successfully generated",
            KeyGenReply::NotGenerated => "Keys could NOT be generated",
        }
    }
}

/// Reads the request of the key-generation endpoint: the addresses of the
/// peers, separated by commas.
pub fn key_gen(data: &str) -> (urls: Vec<String>)
    ensures
        urls.deep_view() == split_fields(data@),
{
    split_commas(data)
}

/// The reply of the key-generation endpoint for the way the generation
/// ended.
pub fn key_gen_reply(generated: bool) -> (reply: KeyGenReply)
    ensures
        reply == if generated {
            KeyGenReply::Generated
        } else {
            KeyGenReply::NotGenerated
        },
{
    if generated {
        KeyGenReply::Generated
    } else {
        KeyGenReply::NotGenerated
    }
}

/// The text of a posted body: the text its bytes encode, or a fixed
/// notice where they encode none.
pub open spec fn spec_body_text(data: Seq<u8>) -> Seq<char> {
    if valid_utf8(data) {
        decode_utf8(data)
    } else {
        "Invalid UTF-8"@
    }
}

/// Reads the body of a posted message as text.
pub fn body_text(data: Vec<u8>) -> (message: String)
    ensures
        message@ == spec_body_text(data@),
{
    match string_from_utf8(data) {
        Some(text) => text,
        None => String::from_str("Invalid UTF-8"),
    }
}

/// Takes a message that a peer posted under `room_id`. Where a room is
/// registered under that identifier the room decides on the message, and
/// the answer names what the transport keeps for that room; where none is
/// registered the message is dropped.
pub fn receive_broadcast<S>(
    db: &Db<S>,
    room_id: u16,
    data: Vec<u8>,
) -> (delivered: Option<(&S, Delivery)>)
    ensures
        match delivered {
            Some((handle, delivery)) => {
                &&& db.rooms().contains_key(room_id)
                &&& *handle == db.rooms()[room_id].spec_handle()
                &&& exists|message: String|
                    message@ == spec_body_text(data@) && delivery == Room::<S>::routed(
                        db.rooms()[room_id].spec_server_id(),
                        message,
                        envelope_addressing(message@),
                    )
            },
            None => !db.rooms().contains_key(room_id),
        },
{
    let message = body_text(data);
    match db.get_room(room_id) {
        Some(room) => {
            let ghost sent = message;
            let delivery = room.receive(message);
            assert(sent@ == spec_body_text(data@) && delivery == Room::<S>::routed(
                db.rooms()[room_id].spec_server_id(),
                sent,
                envelope_addressing(sent@),
            ));
            Some((room.handle(), delivery))
        },
        None => None,
    }
}

} // verus!
