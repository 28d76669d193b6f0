use mpc_signing::mpc::operations::participants::{canonical_key_of, count_ids_below, sorted_ids};
use mpc_signing::mpc::operations::signing::{Signer, SigningError};
use mpc_signing::mpc::operations::stage_cache::{ids_eq, StageCache};

#[test]
fn offline_stage_complete_no() {
    let s: Signer = Signer::new(1, 1, 3);

    assert!(!s.is_offline_stage_complete(&vec![2]));
}

#[test]
fn arbitrary_index_conversion() {
    let s: Signer = Signer::new(2, 1, 3);
    assert_eq!(s.real_to_arbitrary_index(&vec![1]), Some(2));
    assert_eq!(s.real_to_arbitrary_index(&vec![3]), Some(1));

    let s: Signer = Signer::new(3, 1, 3);
    assert_eq!(s.real_to_arbitrary_index(&vec![1]), Some(2));
    assert_eq!(s.real_to_arbitrary_index(&vec![2]), Some(2));

    let s: Signer = Signer::new(2, 2, 4);
    assert_eq!(s.real_to_arbitrary_index(&vec![3, 4]), Some(1));
    assert_eq!(s.real_to_arbitrary_index(&vec![1, 3]), Some(2));
}

#[test]
fn sign_without_offline_stage_is_refused() {
    let s: Signer = Signer::new(1, 1, 3);
    let digest = String::from("00ff");
    match s.sign_hash(&digest, vec![3]) {
        Err(e) => {
            assert_eq!(e, SigningError::OfflineStageNotCompleted);
            assert_eq!(e.message(), "Offline stage not completed");
        }
        Ok(_) => panic!("the online stage started without an offline stage"),
    }
}

#[test]
fn sign_with_invalid_participants_is_refused() {
    let s: Signer = Signer::new(1, 1, 3);
    let digest = String::from("00ff");
    for participants in vec![vec![], vec![2, 3], vec![1], vec![4]] {
        match s.sign_hash(&digest, participants) {
            Err(e) => assert_eq!(e, SigningError::InvalidParticipants),
            Ok(_) => panic!("an invalid participant set was accepted"),
        }
    }
}

#[test]
fn own_identity_among_the_participants_is_rejected() {
    let s: Signer = Signer::new(2, 2, 4);
    assert!(!s.are_participants_valid(&vec![1, 2]));
    assert_eq!(s.real_to_arbitrary_index(&vec![1, 2]), None);
    assert!(s.are_participants_valid(&vec![1, 3]));
}

#[test]
fn participant_set_of_wrong_size_is_rejected() {
    let s: Signer = Signer::new(2, 2, 4);
    assert_eq!(s.real_to_arbitrary_index(&vec![1]), None);
    assert_eq!(s.real_to_arbitrary_index(&vec![1, 3, 4]), None);
    assert_eq!(s.real_to_arbitrary_index(&vec![]), None);
}

#[test]
fn participant_beyond_the_number_of_parties_is_rejected() {
    let s: Signer = Signer::new(2, 2, 4);
    assert_eq!(s.real_to_arbitrary_index(&vec![1, 5]), None);
    assert_eq!(s.real_to_arbitrary_index(&vec![1, 4]), Some(2));
}

#[test]
fn indices_of_one_ceremony_are_a_bijection() {
    let all: Vec<u16> = vec![7, 2, 9, 4];
    let mut seen = vec![false; all.len()];
    for (k, me) in all.iter().enumerate() {
        let others: Vec<u16> = all.iter().copied().filter(|x| x != me).collect();
        let signer = Signer::new(*me, 3, 10);
        let index = signer.real_to_arbitrary_index(&others).unwrap();
        assert!(index >= 1 && (index as usize) <= all.len());
        assert!(!seen[index as usize - 1]);
        seen[index as usize - 1] = true;
        let parties = signer.get_participants(&others).unwrap();
        assert_eq!(parties, vec![2, 4, 7, 9]);
        assert_eq!(parties[index as usize - 1], all[k]);
    }
    assert!(seen.iter().all(|s| *s));
}

#[test]
fn index_does_not_depend_on_the_order_of_the_peers() {
    let signer = Signer::new(5, 3, 10);
    assert_eq!(signer.real_to_arbitrary_index(&vec![1, 9, 3]), Some(3));
    assert_eq!(signer.real_to_arbitrary_index(&vec![9, 3, 1]), Some(3));
    assert_eq!(signer.real_to_arbitrary_index(&vec![3, 1, 9]), Some(3));
}

#[test]
fn scenario_of_parties_one_and_three() {
    let one = Signer::new(1, 1, 3);
    let three = Signer::new(3, 1, 3);
    assert_eq!(one.real_to_arbitrary_index(&vec![3]), Some(1));
    assert_eq!(three.real_to_arbitrary_index(&vec![1]), Some(2));
    assert_eq!(one.get_participants(&vec![3]), Ok(vec![1, 3]));
    assert_eq!(three.get_participants(&vec![1]), Ok(vec![1, 3]));
}

#[test]
fn sorted_ids_sorts() {
    assert_eq!(sorted_ids(&vec![3, 1, 2]), vec![1, 2, 3]);
    assert_eq!(sorted_ids(&vec![]), Vec::<u16>::new());
    assert_eq!(sorted_ids(&vec![5, 5, 1]), vec![1, 5, 5]);
    assert_eq!(sorted_ids(&vec![65535, 0]), vec![0, 65535]);
}

#[test]
fn count_ids_below_counts() {
    assert_eq!(count_ids_below(&vec![1, 5, 3, 9], 5), 2);
    assert_eq!(count_ids_below(&vec![], 5), 0);
    assert_eq!(count_ids_below(&vec![5, 5], 5), 0);
}

#[test]
fn canonical_key_is_sorted_and_joined() {
    assert_eq!(canonical_key_of(&vec![3, 1]), "13");
    assert_eq!(canonical_key_of(&vec![1, 3]), "13");
    assert_eq!(canonical_key_of(&vec![]), "");
    assert_eq!(canonical_key_of(&vec![10, 2, 300]), "210300");
    assert_eq!(Signer::vec_to_string(&vec![2]), "2");
}

#[test]
fn joined_names_may_coincide() {
    assert_eq!(canonical_key_of(&vec![1, 234]), "1234");
    assert_eq!(canonical_key_of(&vec![34, 12]), "1234");
    let signer = Signer::new(5, 2, 2000);
    assert!(signer.are_participants_valid(&vec![6, 1234]));
    assert!(signer.are_participants_valid(&vec![61, 234]));
    assert_eq!(signer.cache_key(&vec![6, 1234]), "561234");
    assert_eq!(signer.cache_key(&vec![61, 234]), "561234");
    assert_ne!(signer.get_participants(&vec![6, 1234]), signer.get_participants(&vec![61, 234]));
}

#[test]
fn every_party_derives_the_same_key() {
    assert_eq!(Signer::new(1, 1, 3).cache_key(&vec![3]), "13");
    assert_eq!(Signer::new(3, 1, 3).cache_key(&vec![1]), "13");
    assert_eq!(Signer::new(2, 2, 3).cache_key(&vec![3, 1]), "123");
    assert_eq!(Signer::new(1, 2, 3).cache_key(&vec![2, 3]), "123");
    assert_eq!(Signer::new(3, 2, 3).cache_key(&vec![2, 1]), "123");
    assert_eq!(Signer::new(1, 1, 3).get_participants(&vec![3]), Ok(vec![1, 3]));
    assert_eq!(Signer::new(3, 1, 3).get_participants(&vec![1]), Ok(vec![1, 3]));
}

#[test]
fn cache_tells_sets_with_one_name_apart() {
    let mut cache: StageCache<u32> = StageCache::new();
    cache.insert(vec![1, 2, 345], 7);
    assert!(cache.contains_key(&vec![1, 2, 345]));
    assert!(!cache.contains_key(&vec![1, 23, 45]));
    assert!(!cache.contains_key(&vec![2, 1, 345]));
    cache.insert(vec![1, 23, 45], 8);
    assert_eq!(cache.get(&vec![1, 2, 345]), Some(&7));
    assert_eq!(cache.get(&vec![1, 23, 45]), Some(&8));
}

#[test]
fn peer_named_twice_is_rejected() {
    let s: Signer = Signer::new(2, 2, 4);
    assert!(!s.are_participants_valid(&vec![1, 1]));
    assert_eq!(s.real_to_arbitrary_index(&vec![1, 1]), None);
    assert_eq!(s.real_to_arbitrary_index(&vec![3, 3]), None);
    assert_eq!(s.real_to_arbitrary_index(&vec![1, 3]), Some(2));
    let three = Signer::new(9, 3, 10);
    assert_eq!(three.real_to_arbitrary_index(&vec![1, 2, 1]), None);
    assert_eq!(three.real_to_arbitrary_index(&vec![1, 2, 2]), None);
    assert_eq!(three.real_to_arbitrary_index(&vec![1, 2, 3]), Some(4));
    match s.sign_hash(&String::from("00"), vec![1, 1]) {
        Err(e) => assert_eq!(e, SigningError::InvalidParticipants),
        Ok(_) => panic!("a peer named twice was accepted"),
    }
    match s.begin_offline_stage(&vec![1, 1], Some("{}")) {
        Err(e) => assert_eq!(e, SigningError::InvalidParticipants),
        Ok(_) => panic!("a peer named twice was accepted"),
    }
}

#[test]
fn lists_of_identities_are_compared() {
    assert!(ids_eq(&vec![], &vec![]));
    assert!(ids_eq(&vec![1, 2], &vec![1, 2]));
    assert!(!ids_eq(&vec![1, 2], &vec![2, 1]));
    assert!(!ids_eq(&vec![1, 2], &vec![1]));
    assert!(!ids_eq(&vec![1, 23, 45], &vec![1, 2, 345]));
}

#[test]
fn failed_offline_stage_leaves_no_entry() {
    let mut s: Signer = Signer::new(1, 1, 3);
    assert_eq!(s.do_offline_stage(&vec![3], None), Err(SigningError::ProtocolFailed));
    assert!(!s.is_offline_stage_complete(&vec![3]));
    assert_eq!(s.do_offline_stage(&vec![1], None), Err(SigningError::InvalidParticipants));
}

#[test]
fn offline_stage_needs_a_key_share() {
    let s: Signer = Signer::new(2, 1, 3);
    match s.begin_offline_stage(&vec![3], None) {
        Err(e) => {
            assert_eq!(e, SigningError::MissingLocalShare { server_id: 2 });
            assert_eq!(
                e.message(),
                "local-share2.json is missing. Generate it with the /keygen endpoint first."
            );
        }
        Ok(_) => panic!("an offline stage was set up without a key share"),
    }
    match s.begin_offline_stage(&vec![2], None) {
        Err(e) => assert_eq!(e, SigningError::InvalidParticipants),
        Ok(_) => panic!("an invalid participant set was accepted"),
    }
}

#[test]
fn offline_stage_refuses_a_corrupt_key_share() {
    let s: Signer = Signer::new(2, 1, 3);
    match s.begin_offline_stage(&vec![3], Some("{\"not\": \"a key share\"}")) {
        Err(e) => assert_eq!(e, SigningError::CorruptLocalShare),
        Ok(_) => panic!("a corrupt key share was accepted"),
    }
}

#[test]
fn cache_is_complete_exactly_after_insert() {
    let mut cache: StageCache<u32> = StageCache::new();
    let key = sorted_ids(&vec![3, 1]);
    let other = sorted_ids(&vec![2, 1]);
    assert!(!cache.contains_key(&key));
    assert!(!cache.contains_key(&other));
    cache.insert(key.clone(), 7);
    assert!(cache.contains_key(&key));
    assert!(cache.contains_key(&sorted_ids(&vec![1, 3])));
    assert!(!cache.contains_key(&other));
    assert_eq!(cache.get(&key), Some(&7));
    assert_eq!(cache.get(&other), None);
}

#[test]
fn cache_insert_replaces() {
    let mut cache: StageCache<u32> = StageCache::new();
    cache.insert(vec![1, 3], 1);
    cache.insert(vec![1, 2], 2);
    cache.insert(vec![1, 3], 3);
    assert_eq!(cache.get(&vec![1, 3]), Some(&3));
    assert_eq!(cache.get(&vec![1, 2]), Some(&2));
    assert_eq!(cache.get(&vec![1]), None);
}

#[test]
fn every_signing_error_has_its_text() {
    assert_eq!(SigningError::InvalidParticipants.message(), "Invalid participants provided");
    assert_eq!(
        SigningError::ParticipantNotPresent { participant: 12 }.message(),
        "Participant 12 is not present"
    );
    assert_eq!(SigningError::OnlineStageFailed.message(), "online stage failed");
    assert_eq!(
        SigningError::ProtocolFailed.message(),
        "protocol execution terminated with error"
    );
}
