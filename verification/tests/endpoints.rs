use mpc_signing::communication::create_communication_channel::Db;
use mpc_signing::communication::room::Delivery;
use mpc_signing::key_generation::{
    are_keys_already_generated, finish_key_generation, generate_keys, KeygenError, KeygenOutcome,
};
use mpc_signing::mpc::operations::signing::Signer;
use mpc_signing::mpc::utils::parse_signature_json::{EndpointSignatureData, Participant};
use mpc_signing::mpc_config::MPCconfig;
use mpc_signing::pub_endpoints::{
    body_text, check_sign_request, check_sign_request_at, key_gen, key_gen_reply, online_session,
    receive_broadcast, verify, KeyGenReply, SignAction, SignCeremony, SignEvent, SignPhase,
    SignRefusal, VerifyReply,
};
use mpc_signing::rocket_instances::{
    ca_cert_path, identity_path, private_key_path, public_cert_path, ServerConfigState, SharedDb,
};
use std::sync::Arc;
use std::time::{Duration, SystemTime, UNIX_EPOCH};

fn request(data: &str, timestamp: &str) -> EndpointSignatureData {
    EndpointSignatureData::new(
        vec![
            Participant::new(1, String::from("127.0.0.1:3001")),
            Participant::new(3, String::from("127.0.0.1:3003")),
        ],
        String::from(data),
        String::from(timestamp),
    )
}

#[test]
fn request_within_the_window_is_accepted() {
    let data = request("68656c6c6f", "1700000000");
    let now = Some(Duration::new(1_700_000_100, 0));
    let accepted = check_sign_request_at(&data, &now, &Duration::from_secs(300)).unwrap();
    assert_eq!(accepted.participant_ids, vec![1, 3]);
    assert_eq!(accepted.participant_urls, vec!["127.0.0.1:3001", "127.0.0.1:3003"]);
    // SHA-256 of "hello1700000000"
    assert_eq!(
        accepted.hash,
        "282f617a829202f1d2e4a99f35d3baca58f537f0389ef14e75be4f6fc8b42f2b"
    );
}

#[test]
fn digest_covers_data_and_timestamp() {
    let data = request("7b736f6d652c6172626974726172792c646174612c746f2c7369676e7d", "1681653339");
    let now = Some(Duration::new(1_681_653_339, 0));
    let accepted = check_sign_request_at(&data, &now, &Duration::from_secs(300)).unwrap();
    // SHA-256 of "{some,arbitrary,data,to,sign}1681653339"
    assert_eq!(
        accepted.hash,
        "a65fa847b3e392b59cd65420f1e1e4c881090bbcd70fa0caa6057832be235808"
    );
}

#[test]
fn request_outside_the_window_is_refused() {
    let window = Duration::from_secs(300);
    let now = Some(Duration::new(1_700_000_000, 0));
    for timestamp in ["1699999699", "1700000301", "0"] {
        let refused = check_sign_request_at(&request("68656c6c6f", timestamp), &now, &window);
        assert_eq!(refused.unwrap_err(), SignRefusal::TimestampOutsideWindow);
    }
    for timestamp in ["1699999700", "1700000300"] {
        assert!(check_sign_request_at(&request("68656c6c6f", timestamp), &now, &window).is_ok());
    }
    let refused = check_sign_request_at(&request("68656c6c6f", "1700000000"), &None, &window);
    assert_eq!(refused.unwrap_err(), SignRefusal::TimestampOutsideWindow);
}

#[test]
fn request_with_a_bad_timestamp_is_refused() {
    let now = Some(Duration::new(1_700_000_000, 0));
    let refused =
        check_sign_request_at(&request("68656c6c6f", "yesterday"), &now, &Duration::from_secs(300));
    assert_eq!(refused.unwrap_err(), SignRefusal::TimestampBadFormat);
    assert_eq!(SignRefusal::TimestampBadFormat.message(), "TIMESTAMP IN BAD FORMAT");
}

#[test]
fn request_with_bad_data_is_refused_first() {
    let now = Some(Duration::new(1_700_000_000, 0));
    let refused =
        check_sign_request_at(&request("xyz", "yesterday"), &now, &Duration::from_secs(300));
    assert_eq!(refused.unwrap_err(), SignRefusal::DataNotHex);
}

#[test]
fn request_is_checked_against_the_clock() {
    let now = SystemTime::now().duration_since(UNIX_EPOCH).unwrap().as_secs();
    let window = Duration::from_secs(300);
    assert!(check_sign_request(&request("68656c6c6f", &now.to_string()), &window).is_ok());
    let old = check_sign_request(&request("68656c6c6f", &(now - 310).to_string()), &window);
    assert_eq!(old.unwrap_err(), SignRefusal::TimestampOutsideWindow);
    let new = check_sign_request(&request("68656c6c6f", &(now + 310).to_string()), &window);
    assert_eq!(new.unwrap_err(), SignRefusal::TimestampOutsideWindow);
    assert_eq!(
        SignRefusal::TimestampOutsideWindow.message(),
        "TIMESTAMP IS OLDER THAN 10 MINUTES"
    );
}

#[test]
fn stages_use_different_sessions() {
    assert_eq!(online_session(0), 1);
    assert_eq!(online_session(41), 42);
    assert_eq!(online_session(65535), 0);
}

#[test]
fn ceremony_runs_offline_then_online() {
    let signer = Signer::new(3, 1, 3);
    let participants = vec![1];
    let mut ceremony = SignCeremony::new(3, 10);
    assert_eq!(ceremony.phase(), SignPhase::Start);
    assert_eq!(
        ceremony.step(&signer, &participants, SignEvent::Requested),
        SignAction::RunOfflineStage { local_index: 2, session: 10 }
    );
    assert_eq!(ceremony.phase(), SignPhase::Offline);
    assert_eq!(
        ceremony.step(&signer, &participants, SignEvent::OfflineFinished(true)),
        SignAction::RunOnlineStage { local_index: 3, session: 11 }
    );
    assert_eq!(ceremony.phase(), SignPhase::Online);
    assert_eq!(
        ceremony.step(
            &signer,
            &participants,
            SignEvent::OnlineFinished(Some(String::from("signature")))
        ),
        SignAction::Reply(String::from("signature"))
    );
    assert_eq!(ceremony.phase(), SignPhase::Done);
}

#[test]
fn ceremony_ends_on_every_failure() {
    let signer = Signer::new(3, 1, 3);
    let mut invalid = SignCeremony::new(3, 10);
    assert_eq!(
        invalid.step(&signer, &vec![3], SignEvent::Requested),
        SignAction::Refuse(SignRefusal::InvalidParticipants)
    );
    assert_eq!(invalid.phase(), SignPhase::Done);

    let mut offline = SignCeremony::new(3, 10);
    offline.step(&signer, &vec![1], SignEvent::Requested);
    assert_eq!(
        offline.step(&signer, &vec![1], SignEvent::OfflineFinished(false)),
        SignAction::Refuse(SignRefusal::OfflineStageFailed)
    );
    assert_eq!(offline.phase(), SignPhase::Done);

    let mut online = SignCeremony::new(3, 10);
    online.step(&signer, &vec![1], SignEvent::Requested);
    online.step(&signer, &vec![1], SignEvent::OfflineFinished(true));
    assert_eq!(
        online.step(&signer, &vec![1], SignEvent::OnlineFinished(None)),
        SignAction::Refuse(SignRefusal::SigningFailed)
    );
    assert_eq!(online.phase(), SignPhase::Done);
}

#[test]
fn ceremony_refuses_events_out_of_order() {
    let signer = Signer::new(3, 1, 3);
    let mut ceremony = SignCeremony::new(3, 10);
    assert_eq!(
        ceremony.step(&signer, &vec![1], SignEvent::OfflineFinished(true)),
        SignAction::Refuse(SignRefusal::OutOfOrder)
    );
    assert_eq!(ceremony.phase(), SignPhase::Done);
    assert_eq!(
        ceremony.step(&signer, &vec![1], SignEvent::Requested),
        SignAction::Refuse(SignRefusal::OutOfOrder)
    );
}

#[test]
fn every_refusal_has_its_text() {
    assert_eq!(SignRefusal::UnreadableRequest.message(), "Unable to parse json data");
    assert_eq!(SignRefusal::InvalidParticipants.message(), "Second participant is invalid");
    assert_eq!(SignRefusal::OfflineStageFailed.message(), "Offline stage failed");
    assert_eq!(SignRefusal::SigningFailed.message(), "Message could not be signed");
}

const SIGNATURE: &str = "{\"r\":{\"curve\":\"secp256k1\",\"scalar\":[10,220,76,129,129,115,200,211,20,231,213,128,218,23,186,111,92,165,38,8,69,209,254,206,204,30,239,226,132,136,230,154]},\"s\":{\"curve\":\"secp256k1\",\"scalar\":[91,75,36,116,47,138,116,142,176,14,240,250,3,184,215,0,168,218,133,14,158,179,170,80,136,117,115,228,189,186,37,149]},\"recid\":0}";

const SHARE: &str = "{\"y_sum_s\":{\"curve\":\"secp256k1\",\"point\":[3,183,191,143,211,92,155,44,130,59,29,152,124,146,233,81,9,70,219,20,100,4,243,31,227,146,20,116,205,145,227,57,0]}}";

fn hex(text: &str) -> String {
    text.bytes().map(|b| format!("{:02x}", b)).collect()
}

#[test]
fn verification_reads_three_fields() {
    assert_eq!(verify("", Some(SHARE)), VerifyReply::Malformed);
    assert_eq!(verify("00,00", Some(SHARE)), VerifyReply::Malformed);
    assert_eq!(verify("zz,00,1", Some(SHARE)), VerifyReply::Malformed);
    assert_eq!(verify(&format!("{},zz,1", hex(SIGNATURE)), Some(SHARE)), VerifyReply::Malformed);
    assert_eq!(verify(&format!("{},00,1", hex("no signature")), Some(SHARE)), VerifyReply::Malformed);
}

#[test]
fn verification_needs_the_key_share() {
    let body = format!("{},{},1681402350", hex(SIGNATURE), hex("sign_this_data"));
    assert_eq!(verify(&body, None), VerifyReply::MissingShare);
    assert_eq!(verify(&body, Some("{}")), VerifyReply::Malformed);
    assert_eq!(
        VerifyReply::MissingShare.message(),
        "local-share.json is missing. Generate it first with the /keygen endpoint"
    );
}

#[test]
fn verification_rejects_a_signature_on_other_data() {
    let body = format!("{},{},1681402350", hex(SIGNATURE), hex("sign_this_data"));
    assert_eq!(verify(&body, Some(SHARE)), VerifyReply::Invalid);
    assert_eq!(VerifyReply::Invalid.message(), "Invalid signature");
    assert_eq!(VerifyReply::Valid.message(), "Valid signature");
}

#[test]
fn key_generation_request_lists_the_peers() {
    assert_eq!(key_gen("127.0.0.1:3001,127.0.0.1:3002"), vec!["127.0.0.1:3001", "127.0.0.1:3002"]);
    assert_eq!(key_gen("one"), vec!["one"]);
    assert_eq!(key_gen_reply(true), KeyGenReply::Generated);
    assert_eq!(key_gen_reply(false), KeyGenReply::NotGenerated);
    assert_eq!(KeyGenReply::Generated.message(), "Keys were successfully generated");
    assert_eq!(KeyGenReply::NotGenerated.message(), "Keys could NOT be generated");
}

#[test]
fn keys_are_never_overwritten() {
    assert_eq!(are_keys_already_generated(2, false), Ok(String::from("local-share2.json")));
    assert_eq!(
        are_keys_already_generated(2, true),
        Err(String::from(
            "local-share2.json already exists. If you want to generate keys, remove already existing ones."
        ))
    );
    match generate_keys(2, 1, 3, true) {
        Err(e) => {
            assert_eq!(e, KeygenError::AlreadyGenerated { server_id: 2 });
            assert_eq!(
                e.message(),
                "local-share2.json already exists. If you want to generate keys, remove already existing ones."
            );
        }
        Ok(_) => panic!("a key generation was set up over an existing share"),
    }
}

#[test]
fn key_generation_checks_its_parameters() {
    for (i, t, n) in [(1, 1, 1), (1, 0, 3), (1, 3, 3), (0, 1, 3), (4, 1, 3)] {
        match generate_keys(i, t, n, false) {
            Err(e) => assert_eq!(e, KeygenError::InvalidParameters),
            Ok(_) => panic!("unacceptable parameters were accepted"),
        }
    }
}

#[test]
fn key_generation_result_follows_the_outcome() {
    assert_eq!(finish_key_generation(KeygenOutcome::Written), Ok(()));
    assert_eq!(
        finish_key_generation(KeygenOutcome::ProtocolFailed),
        Err(KeygenError::ProtocolFailed)
    );
    assert_eq!(finish_key_generation(KeygenOutcome::WriteFailed), Err(KeygenError::WriteFailed));
    assert_eq!(KeygenError::WriteFailed.message(), "Unable to generate file");
}

#[test]
fn posted_body_is_read_as_text() {
    assert_eq!(body_text(b"hello".to_vec()), "hello");
    assert_eq!(body_text(vec![0xff, 0xfe]), "Invalid UTF-8");
    assert_eq!(body_text(Vec::new()), "");
}

#[test]
fn posted_message_reaches_its_room_only() {
    let mut db: Db<u32> = Db::empty(2);
    db.create_room(2, 7, 100);
    let message = "{\"sender\":1,\"receiver\":2,\"body\":1}";
    match receive_broadcast(&db, 7, message.as_bytes().to_vec()) {
        Some((handle, delivery)) => {
            assert_eq!(*handle, 100);
            assert_eq!(delivery, Delivery::Forward(String::from(message)));
        }
        None => panic!("the room was not found"),
    }
    assert!(receive_broadcast(&db, 8, message.as_bytes().to_vec()).is_none());
    let other = "{\"sender\":1,\"receiver\":3,\"body\":1}";
    assert_eq!(
        receive_broadcast(&db, 7, other.as_bytes().to_vec()).unwrap().1,
        Delivery::Filtered { receiver: 3 }
    );
    assert_eq!(receive_broadcast(&db, 7, vec![0xff]).unwrap().1, Delivery::Malformed);
}

#[test]
fn late_message_never_reaches_a_replaced_room() {
    let mut db: Db<&'static str> = Db::empty(2);
    db.create_room(2, 7, "old round");
    db.create_room(2, 7, "new round");
    let message = "{\"sender\":1,\"body\":1}";
    let (handle, _) = receive_broadcast(&db, 7, message.as_bytes().to_vec()).unwrap();
    assert_eq!(*handle, "new round");
    db.delete_room(7);
    assert!(receive_broadcast(&db, 7, message.as_bytes().to_vec()).is_none());
}

#[test]
fn shared_state_is_reachable() {
    let state = ServerConfigState::new(MPCconfig::new(2, 1, 3));
    assert_eq!(state.config().lock().unwrap().server_id(), 2);
    assert_eq!(state.config().lock().unwrap().threshold(), 1);
    let mut db: Db<u32> = Db::empty(2);
    db.create_room(2, 7, 100);
    let shared = SharedDb(Arc::new(db));
    assert_eq!(*shared.db().get_room(7).unwrap().handle(), 100);
}

#[test]
fn certificates_are_named_after_the_server() {
    assert_eq!(ca_cert_path(), "certs/ca_cert.pem");
    assert_eq!(public_cert_path(2), "certs/public/cert_2.pem");
    assert_eq!(private_key_path(2), "certs/private/private_key_2.pem");
    assert_eq!(identity_path(12), "certs/private/cert_and_key_12.pem");
}
