//! The signer of the pairwise service: three servers, any two of which
//! sign together. Peers are added one by one, and each peer has its own
//! offline stage.

use std::collections::HashMap;
use vstd::prelude::*;
use multi_party_ecdsa::protocols::multi_party_ecdsa::gg_2020::state_machine::sign::{
    CompletedOfflineStage,
};
use crate::mpc::operations::participants::rank_among;
use crate::mpc::operations::signing::{
    fails_with, OfflineSetup, OnlineSetup, Signer as ThresholdSigner, SigningError,
};
use crate::mpc::operations::state_machines::{
    bigint_of, manual_signing_of, new_manual_signing, new_offline_machine, offline_machine_of,
};
use crate::mpc::utils::decimal::{decimal, to_decimal};
use crate::mpc::utils::hex2string::{hex_bytes, hex_decode, is_hex_text};

verus! {

broadcast use vstd::std_specs::hash::group_hash_axioms;

/// The index that `my_index` takes in a ceremony with `other`, for the
/// identities 1, 2 and 3; 0 for any other identity.
pub open spec fn pairwise_index(my_index: u16, other: u16) -> u16 {
    if my_index == 1 {
        1
    } else if my_index == 2 && other == 3 {
        1
    } else if my_index == 2 && other == 1 {
        2
    } else if my_index == 3 {
        2
    } else {
        0
    }
}

/// Among the identities 1, 2 and 3 the pairwise index is the position of
/// the server once it and its peer are listed in ascending order.
pub proof fn law_pairwise_index_is_rank(my_index: u16, other: u16)
    requires
        1 <= my_index <= 3,
        1 <= other <= 3,
        my_index != other,
    ensures
        pairwise_index(my_index, other) == rank_among(my_index, seq![other]),
{
    let others = seq![other];
    assert(others.drop_last() =~= Seq::<u16>::empty());
    reveal_with_fuel(crate::mpc::operations::participants::count_below, 3);
}

/// The structure that holds current state for the offline stage with other
/// parties.
pub struct Signer {
    my_index: u16,
    completed_offline_stage: HashMap<u16, Option<CompletedOfflineStage>>,
}

impl Signer {
    /// The identity of the server that owns this signer.
    pub closed spec fn spec_my_index(&self) -> u16 {
        self.my_index
    }

    /// The peers that were added, each with the result of its offline
    /// stage once there is one.
    pub closed spec fn peers(&self) -> Map<u16, Option<CompletedOfflineStage>> {
        self.completed_offline_stage@
    }

    /// The index this server takes in a ceremony with `other`; 0 while
    /// `other` has not been added.
    pub open spec fn spec_arbitrary_index(&self, other: u16) -> u16 {
        if self.peers().contains_key(other) {
            pairwise_index(self.spec_my_index(), other)
        } else {
            0
        }
    }

    /// The two parties of a ceremony with `other`, in ascending order.
    pub open spec fn spec_parties(&self, other: u16) -> Seq<u16> {
        if self.spec_my_index() <= other {
            seq![self.spec_my_index(), other]
        } else {
            seq![other, self.spec_my_index()]
        }
    }

    /// The signer of server `mi`, with no peers yet.
    pub fn new(mi: u16) -> (signer: Signer)
        ensures
            signer.spec_my_index() == mi,
            signer.peers() == Map::<u16, Option<CompletedOfflineStage>>::empty(),
    {
        Signer { my_index: mi, completed_offline_stage: HashMap::new() }
    }

    /// Adds a peer to sign with. The server itself and a peer that is
    /// already there are refused, and the signer stays as it was.
    pub fn add_participant(&mut self, new_participant: u16) -> (added: Result<u16, &'static str>)
        ensures
            final(self).spec_my_index() == old(self).spec_my_index(),
            added is Err ==> final(self).peers() == old(self).peers(),
            added is Ok ==> final(self).peers() == old(self).peers().insert(new_participant, None),
            new_participant == old(self).spec_my_index() ==> added is Err && added->Err_0@
                == "New participant must have different index from current instance"@,
            new_participant != old(self).spec_my_index() && old(self).peers().contains_key(
                new_participant,
            ) ==> added is Err && added->Err_0@ == "Participant with that id is already present"@,
            new_participant != old(self).spec_my_index() && !old(self).peers().contains_key(
                new_participant,
            ) ==> added == Ok::<u16, &'static str>(new_participant),
    {
        if new_participant == self.my_index {
            return Err("New participant must have different index from current instance");
        }
        if self.completed_offline_stage.contains_key(&new_participant) {
            return Err("Participant with that id is already present");
        }
        self.completed_offline_stage.insert(new_participant, None);
        Ok(new_participant)
    }

    /// The index this server takes in a ceremony with `other_party_index`:
    /// 1 or 2 among the servers 1, 2 and 3, and 0 while the peer has not been
    /// added or for any other server.
    pub fn convert_my_real_index_to_arbitrary_one(&self, other_party_index: u16) -> (index: u16)
        ensures
            index == self.spec_arbitrary_index(other_party_index),
    {
        if !self.is_participant_present(other_party_index) {
            return 0;
        }
        if self.my_index == 1 {
            1
        } else if self.my_index == 2 && other_party_index == 3 {
            1
        } else if self.my_index == 2 && other_party_index == 1 {
            2
        } else if self.my_index == 3 {
            2
        } else {
            0
        }
    }

    /// The peers that were added, each with the result of its offline stage
    /// once there is one.
    pub fn completed_offline_stage(&self) -> (peers: &HashMap<u16, Option<CompletedOfflineStage>>)
        ensures
            peers@ == self.peers(),
    {
        &self.completed_offline_stage
    }

    /// Whether the peer `index` has been added.
    pub fn is_participant_present(&self, index: u16) -> (present: bool)
        ensures
            present == self.peers().contains_key(index),
    {
        self.completed_offline_stage.contains_key(&index)
    }

    /// Whether the offline stage with the peer `participant` is recorded.
    pub fn is_offline_stage_complete(&self, participant: u16) -> (complete: bool)
        ensures
            complete == (self.peers().contains_key(participant)
                && self.peers()[participant] is Some),
    {
        match self.completed_offline_stage.get(&participant) {
            Some(v) => v.is_some(),
            None => false,
        }
    }

    /// The two parties of a ceremony with `other_party_index`, in
    /// ascending order; refused while the peer has not been added.
    pub fn get_participants(
        &self,
        other_party_index: u16,
    ) -> (parties: Result<Vec<u16>, &'static str>)
        ensures
            match parties {
                Ok(list) => self.peers().contains_key(other_party_index) && list@
                    == self.spec_parties(other_party_index),
                Err(text) => !self.peers().contains_key(other_party_index) && text@
                    == "Participant is not present"@,
            },
    {
        if !self.is_participant_present(other_party_index) {
            return Err("Participant is not present");
        }
        let mut participants: Vec<u16> = Vec::new();
        if self.my_index <= other_party_index {
            participants.push(self.my_index);
            participants.push(other_party_index);
        } else {
            participants.push(other_party_index);
            participants.push(self.my_index);
        }
        assert(participants@ =~= self.spec_parties(other_party_index));
        Ok(participants)
    }

    /// First half of the offline stage with one peer: the peer must have
    /// been added and the key share must be there; then the state machine
    /// is built for the protocol driver to run.
    pub fn begin_offline_stage(
        &self,
        other_party_index: u16,
        local_share: Option<&str>,
    ) -> (answer: Result<OfflineSetup, SigningError>)
        ensures
            !self.peers().contains_key(other_party_index) ==> fails_with(
                answer,
                (SigningError::ParticipantNotPresent { participant: other_party_index }),
            ),
            self.peers().contains_key(other_party_index) && local_share is None ==> fails_with(
                answer,
                (SigningError::MissingLocalShare { server_id: self.spec_my_index() }),
            ),
            self.peers().contains_key(other_party_index) && local_share is Some
                ==> ThresholdSigner::offline_setup_matches(
                self.spec_arbitrary_index(other_party_index),
                self.spec_parties(other_party_index),
                decimal(other_party_index as nat),
                offline_machine_of(
                    self.spec_arbitrary_index(other_party_index),
                    self.spec_parties(other_party_index),
                    local_share.unwrap()@,
                ),
                answer,
            ),
    {
        let all = match self.get_participants(other_party_index) {
            Ok(all) => all,
            Err(_) => {
                return Err(SigningError::ParticipantNotPresent { participant: other_party_index });
            },
        };
        let local_share = match local_share {
            None => {
                return Err(SigningError::MissingLocalShare { server_id: self.my_index });
            },
            Some(share) => share,
        };
        let index = self.convert_my_real_index_to_arbitrary_one(other_party_index);
        let mut handed: Vec<u16> = Vec::new();
        handed.push(all[0]);
        handed.push(all[1]);
        assert(handed@ =~= all@);
        let built = new_offline_machine(index, handed, local_share);
        ThresholdSigner::offline_setup_from(
            index,
            all,
            to_decimal(other_party_index as u64),
            built,
        )
    }

    /// Second half of the offline stage with one peer: remembers what the
    /// protocol driver brought back. After a failure the signer is as it
    /// was.
    pub fn do_offline_stage(
        &mut self,
        other_party_index: u16,
        outcome: Option<CompletedOfflineStage>,
    ) -> (done: Result<(), SigningError>)
        ensures
            final(self).spec_my_index() == old(self).spec_my_index(),
            !old(self).peers().contains_key(other_party_index) ==> fails_with(
                done,
                (SigningError::ParticipantNotPresent { participant: other_party_index }),
            ),
            old(self).peers().contains_key(other_party_index) && outcome is None ==> fails_with(
                done,
                SigningError::ProtocolFailed,
            ),
            old(self).peers().contains_key(other_party_index) && outcome is Some ==> done is Ok,
            done is Err ==> final(self).peers() == old(self).peers(),
            done is Ok ==> final(self).peers() == old(self).peers().insert(
                other_party_index,
                outcome,
            ),
    {
        if !self.is_participant_present(other_party_index) {
            return Err(SigningError::ParticipantNotPresent { participant: other_party_index });
        }
        match outcome {
            None => Err(SigningError::ProtocolFailed),
            Some(stage) => {
                self.completed_offline_stage.insert(other_party_index, Some(stage));
                Ok(())
            },
        }
    }

    /// First half of the online stage with one peer: the offline stage
    /// with that peer must be complete and the digest must be hexadecimal
    /// text; then this server's partial signature is produced. One partial
    /// signature of the peer is expected in return.
    pub fn sign_hash(
        &self,
        hash_to_sign: &String,
        other_party_index: u16,
    ) -> (answer: Result<OnlineSetup, SigningError>)
        ensures
            !(self.peers().contains_key(other_party_index)
                && self.peers()[other_party_index] is Some) ==> fails_with(
                answer,
                SigningError::OfflineStageNotCompleted,
            ),
            self.peers().contains_key(other_party_index) && self.peers()[other_party_index] is Some
                && !is_hex_text(hash_to_sign@) ==> fails_with(answer, SigningError::InvalidDigest),
            self.peers().contains_key(other_party_index) && self.peers()[other_party_index] is Some
                && is_hex_text(hash_to_sign@) ==> answer is Ok
                && ThresholdSigner::online_setup_matches(
                self.spec_arbitrary_index(other_party_index),
                1,
                manual_signing_of(
                    bigint_of(hex_bytes(hash_to_sign@)),
                    self.peers()[other_party_index].unwrap(),
                ),
                answer,
            ),
    {
        let offline_stage = match self.completed_offline_stage.get(&other_party_index) {
            Some(Some(stage)) => stage,
            _ => {
                return Err(SigningError::OfflineStageNotCompleted);
            },
        };
        let digest = match hex_decode(hash_to_sign.as_str()) {
            None => {
                return Err(SigningError::InvalidDigest);
            },
            Some(bytes) => bytes,
        };
        let index = self.convert_my_real_index_to_arbitrary_one(other_party_index);
        let made = new_manual_signing(&digest, offline_stage);
        ThresholdSigner::online_setup_from(index, 1, made)
    }
}

} // verus!
