//! The signer of one server: which participant sets it accepts, the index
//! it takes among them, and the offline-stage results it keeps for the
//! online stage.

use vstd::prelude::*;
use vstd::string::StringExecFns;
use multi_party_ecdsa::protocols::multi_party_ecdsa::gg_2020::party_i::SignatureRecid;
use multi_party_ecdsa::protocols::multi_party_ecdsa::gg_2020::state_machine::sign::{
    CompletedOfflineStage, OfflineStage, PartialSignature, SignManual,
};
use vstd::seq_lib::lemma_multiset_commutative;
use crate::mpc::operations::participants::{
    canonical_key, canonical_key_of, canonical_order, count_ids_below,
    law_canonical_order_tells_sets_apart, law_rank_is_position, lemma_count_below_bounded,
    rank_among, sorted_ids,
};
use crate::mpc::operations::stage_cache::StageCache;
use crate::mpc::operations::state_machines::{
    bigint_of, combinable, manual_signing_of, new_manual_signing, new_offline_machine,
    offline_machine_of, own_share_of, scalar_is_zero, signature_json, signature_to_json,
    sum_of_partial_signatures, MachineError,
};
use crate::mpc::utils::decimal::{decimal, push_decimal};
use crate::mpc::utils::hex2string::{hex_bytes, hex_decode, is_hex_text};
use crate::mpc::utils::local_share_utils::{local_share_file_name, spec_local_share_file_name};

verus! {

/// Why a signing step was refused or failed.
#[derive(Clone, Copy, Debug, PartialEq, Eq, Structural)]
pub enum SigningError {
    /// The participant set has the wrong size, names this server, or names
    /// an identity beyond the number of parties.
    InvalidParticipants,
    /// No key share has been generated for this server yet.
    MissingLocalShare { server_id: u16 },
    /// The stored key share cannot be read back.
    CorruptLocalShare,
    /// The offline state machine does not accept the party index and list.
    MachineRefused,
    /// The offline protocol ended with an error.
    ProtocolFailed,
    /// The online stage was asked for before the offline stage finished.
    OfflineStageNotCompleted,
    /// The peer has not been added to the signer.
    ParticipantNotPresent { participant: u16 },
    /// The digest to sign is not hexadecimal text.
    InvalidDigest,
    /// The local partial signature could not be produced.
    LocalSigningFailed,
    /// The partial signatures do not combine into a signature.
    OnlineStageFailed,
}

impl SigningError {
    /// The text that describes the error to a caller.
    pub open spec fn spec_message(self) -> Seq<char> {
        match self {
            SigningError::InvalidParticipants => "Invalid participants provided"@,
            SigningError::MissingLocalShare { server_id } => spec_local_share_file_name(server_id)
                + " is missing. Generate it with the /keygen endpoint first."@,
            SigningError::CorruptLocalShare => "parse local share"@,
            SigningError::MachineRefused => "Invalid participants"@,
            SigningError::ProtocolFailed => "protocol execution terminated with error"@,
            SigningError::OfflineStageNotCompleted => "Offline stage not completed"@,
            SigningError::ParticipantNotPresent { participant } => "Participant "@ + decimal(
                participant as nat,
            ) + " is not present"@,
            SigningError::InvalidDigest => "Decoding failed"@,
            SigningError::LocalSigningFailed => "signing message locally"@,
            SigningError::OnlineStageFailed => "online stage failed"@,
        }
    }

    /// The text that describes the error to a caller.
    pub fn message(&self) -> (text: String)
        ensures
            text@ == self.spec_message(),
    {
        match self {
            SigningError::InvalidParticipants => String::from_str("Invalid participants provided"),
            SigningError::MissingLocalShare { server_id } => {
                let mut text = local_share_file_name(*server_id);
                text.append(" is missing. Generate it with the /keygen endpoint first.");
                text
            },
            SigningError::CorruptLocalShare => String::from_str("parse local share"),
            SigningError::MachineRefused => String::from_str("Invalid participants"),
            SigningError::ProtocolFailed => String::from_str(
                "protocol execution terminated with error",
            ),
            SigningError::OfflineStageNotCompleted => String::from_str(
                "Offline stage not completed",
            ),
            SigningError::ParticipantNotPresent { participant } => {
                let mut text = String::from_str("Participant ");
                push_decimal(&mut text, *participant as u64);
                text.append(" is not present");
                text
            },
            SigningError::InvalidDigest => String::from_str("Decoding failed"),
            SigningError::LocalSigningFailed => String::from_str("signing message locally"),
            SigningError::OnlineStageFailed => String::from_str("online stage failed"),
        }
    }
}

/// Whether `result` is the failure `error`.
pub open spec fn fails_with<T>(result: Result<T, SigningError>, error: SigningError) -> bool {
    result is Err && result->Err_0 == error
}

/// What the protocol driver needs to run the offline stage.
pub struct OfflineSetup {
    /// This server's position among the parties, counted from 1.
    pub party_index: u16,
    /// All parties of the ceremony, this server included, in ascending order.
    pub parties: Vec<u16>,
    /// The parties written in decimal and joined, as the ceremony is named
    /// in messages to the operator.
    pub cache_key: String,
    /// The state machine of the offline stage.
    pub machine: OfflineStage,
}

/// What the transport needs to run the online stage: the partial signature
/// of this server, the index to send it under, the number of partial
/// signatures to wait for, and the state that combines them.
pub struct OnlineSetup {
    sender: u16,
    partial_signature: PartialSignature,
    expected: usize,
    signing: SignManual,
}

impl OnlineSetup {
    /// The partial signature is the one that the signing state counts as
    /// its own.
    #[verifier::type_invariant]
    spec fn own_share_kept(self) -> bool {
        self.partial_signature == own_share_of(self.signing)
    }

    /// The sender index to put on the broadcast of the partial signature.
    pub closed spec fn spec_sender(&self) -> u16 {
        self.sender
    }

    /// This server's partial signature, to be sent to every peer.
    pub closed spec fn spec_partial_signature(&self) -> PartialSignature {
        self.partial_signature
    }

    /// How many partial signatures of peers must be collected.
    pub closed spec fn spec_expected(&self) -> usize {
        self.expected
    }

    /// The state that turns the collected partial signatures into a signature.
    pub closed spec fn spec_signing(&self) -> SignManual {
        self.signing
    }

    /// The sender index to put on the broadcast of the partial signature.
    pub fn sender(&self) -> (sender: u16)
        ensures
            sender == self.spec_sender(),
    {
        self.sender
    }

    /// This server's partial signature, to be sent to every peer.
    pub fn partial_signature(&self) -> (partial_signature: &PartialSignature)
        ensures
            *partial_signature == self.spec_partial_signature(),
    {
        &self.partial_signature
    }

    /// How many partial signatures of peers must be collected.
    pub fn expected(&self) -> (expected: usize)
        ensures
            expected == self.spec_expected(),
    {
        self.expected
    }
}

/// The structure that holds current state for the offline stage with other
/// parties.
pub struct Signer {
    my_index: u16,
    offline_stage: StageCache<CompletedOfflineStage>,
    threshold: u16,
    n_of_participants: u16,
}

impl Signer {
    /// The identity of the server that owns this signer.
    pub closed spec fn spec_my_index(&self) -> u16 {
        self.my_index
    }

    /// The number of peers that a ceremony needs besides this server.
    pub closed spec fn spec_threshold(&self) -> u16 {
        self.threshold
    }

    /// The number of servers that hold a share of the key.
    pub closed spec fn spec_n_of_participants(&self) -> u16 {
        self.n_of_participants
    }

    /// The finished offline stages, each under the parties of its ceremony
    /// in ascending order.
    pub closed spec fn completed(&self) -> Map<Seq<u16>, CompletedOfflineStage> {
        self.offline_stage@
    }

    /// A list of peers is accepted when it has exactly `threshold` entries,
    /// no identity twice, none of them this server and none beyond the
    /// number of parties.
    pub open spec fn participants_valid(&self, participants: Seq<u16>) -> bool {
        &&& participants.len() == self.spec_threshold()
        &&& participants.no_duplicates()
        &&& forall|i: int|
            0 <= i < participants.len() ==> {
                &&& #[trigger] participants[i] != self.spec_my_index()
                &&& participants[i] <= self.spec_n_of_participants()
            }
    }

    /// The index this server takes in a ceremony with `participants`: its
    /// position, counted from 1, among all parties in ascending order.
    pub open spec fn spec_arbitrary_index(&self, participants: Seq<u16>) -> Option<u16> {
        if self.participants_valid(participants) && rank_among(
            self.spec_my_index(),
            participants,
        ) <= u16::MAX {
            Some(rank_among(self.spec_my_index(), participants) as u16)
        } else {
            None
        }
    }

    /// All parties of a ceremony with `participants`, in the agreed order.
    pub open spec fn spec_all_parties(&self, participants: Seq<u16>) -> Seq<u16> {
        canonical_order(seq![self.spec_my_index()] + participants)
    }

    /// The name of the ceremony with `participants`: the identities of all
    /// its parties, this server included, in ascending order, written in
    /// decimal and joined. Finished offline stages are remembered under the
    /// list of parties itself, which tells any two ceremonies apart.
    pub open spec fn spec_cache_key(&self, participants: Seq<u16>) -> Seq<char> {
        canonical_key(seq![self.spec_my_index()] + participants)
    }

    /// The signer of server `mi` for ceremonies with `t` peers among `n`
    /// servers. No offline stage is recorded yet.
    pub fn new(mi: u16, t: u16, n: u16) -> (signer: Signer)
        ensures
            signer.spec_my_index() == mi,
            signer.spec_threshold() == t,
            signer.spec_n_of_participants() == n,
            signer.completed() == Map::<Seq<u16>, CompletedOfflineStage>::empty(),
    {
        Signer {
            my_index: mi,
            offline_stage: StageCache::new(),
            threshold: t,
            n_of_participants: n,
        }
    }

    /// The identities of `participants` in ascending order, written in
    /// decimal and joined.
    pub fn vec_to_string(participants: &Vec<u16>) -> (key: String)
        ensures
            key@ == canonical_key(participants@),
    {
        canonical_key_of(participants)
    }

    /// Whether `participants` is accepted as the list of peers of a ceremony.
    pub fn are_participants_valid(&self, participants: &Vec<u16>) -> (valid: bool)
        ensures
            valid == self.participants_valid(participants@),
    {
        if participants.len() != self.threshold as usize {
            return false;
        }
        let mut i: usize = 0;
        while i < participants.len()
            invariant
                i <= participants.len(),
                forall|k: int|
                    0 <= k < i ==> {
                        &&& #[trigger] participants@[k] != self.my_index
                        &&& participants@[k] <= self.n_of_participants
                    },
                forall|k: int, l: int| 0 <= k < l < i ==> participants@[k] != participants@[l],
            decreases participants.len() - i,
        {
            if participants[i] == self.my_index || participants[i] > self.n_of_participants {
                return false;
            }
            let mut j: usize = 0;
            while j < i
                invariant
                    j <= i < participants.len(),
                    forall|k: int| 0 <= k < j ==> participants@[k] != participants@[i as int],
                decreases i - j,
            {
                if participants[j] == participants[i] {
                    return false;
                }
                j += 1;
            }
            i += 1;
        }
        true
    }

    /// The index this server takes in a ceremony with the peers
    /// `other_indices`: one more than the number of peers with a smaller
    /// identity. `None` where the list of peers is not accepted.
    pub fn real_to_arbitrary_index(&self, other_indices: &Vec<u16>) -> (index: Option<u16>)
        ensures
            index == self.spec_arbitrary_index(other_indices@),
    {
        if !self.are_participants_valid(other_indices) {
            return None;
        }
        let below = count_ids_below(other_indices, self.my_index);
        proof {
            lemma_count_below_bounded(other_indices@, self.my_index);
        }
        if below >= 65535 {
            return None;
        }
        Some((below + 1) as u16)
    }

    /// Whether the offline stage of the ceremony with `participants` is
    /// recorded.
    pub fn is_offline_stage_complete(&self, participants: &Vec<u16>) -> (complete: bool)
        ensures
            complete == self.completed().contains_key(self.spec_all_parties(participants@)),
    {
        let all = self.with_self(participants);
        let key = sorted_ids(&all);
        self.offline_stage.contains_key(&key)
    }

    /// This server followed by its peers.
    fn with_self(&self, participants: &Vec<u16>) -> (all: Vec<u16>)
        ensures
            all@ == seq![self.spec_my_index()] + participants@,
    {
        let mut all_participants: Vec<u16> = Vec::new();
        all_participants.push(self.my_index);
        let mut i: usize = 0;
        while i < participants.len()
            invariant
                i <= participants.len(),
                all_participants@ == seq![self.my_index] + participants@.take(i as int),
            decreases participants.len() - i,
        {
            all_participants.push(participants[i]);
            proof {
                assert(participants@.take(i + 1) == participants@.take(i as int).push(
                    participants@[i as int],
                ));
            }
            i += 1;
        }
        proof {
            assert(participants@.take(participants@.len() as int) == participants@);
        }
        all_participants
    }

    /// All parties of a ceremony, this server included, in the order that
    /// every party hands to the state machine.
    pub fn get_participants(
        &self,
        participants: &Vec<u16>,
    ) -> (all: Result<Vec<u16>, &'static str>)
        ensures
            all is Ok,
            all->Ok_0@ == self.spec_all_parties(participants@),
    {
        let all_participants = self.with_self(participants);
        Ok(sorted_ids(&all_participants))
    }

    /// The name of the ceremony with `participants`. Every party of the
    /// ceremony derives the same name.
    pub fn cache_key(&self, participants: &Vec<u16>) -> (key: String)
        ensures
            key@ == self.spec_cache_key(participants@),
    {
        let all_participants = self.with_self(participants);
        canonical_key_of(&all_participants)
    }

    /// What `begin_offline_stage` answers once the state machine has been
    /// asked for.
    pub open spec fn offline_setup_matches(
        party_index: u16,
        parties: Seq<u16>,
        cache_key: Seq<char>,
        built: Result<OfflineStage, MachineError>,
        answer: Result<OfflineSetup, SigningError>,
    ) -> bool {
        match built {
            Ok(machine) => {
                &&& answer is Ok
                &&& answer->Ok_0.party_index == party_index
                &&& answer->Ok_0.parties@ == parties
                &&& answer->Ok_0.cache_key@ == cache_key
                &&& answer->Ok_0.machine == machine
            },
            Err(MachineError::CorruptShare) => fails_with(answer, SigningError::CorruptLocalShare),
            Err(MachineError::Refused) => fails_with(answer, SigningError::MachineRefused),
        }
    }

    /// Turns the answer of the state machine's constructor into the setup
    /// of the offline stage.
    pub fn offline_setup_from(
        party_index: u16,
        parties: Vec<u16>,
        cache_key: String,
        built: Result<OfflineStage, MachineError>,
    ) -> (answer: Result<OfflineSetup, SigningError>)
        ensures
            Self::offline_setup_matches(party_index, parties@, cache_key@, built, answer),
    {
        match built {
            Ok(machine) => Ok(OfflineSetup { party_index, parties, cache_key, machine }),
            Err(MachineError::CorruptShare) => Err(SigningError::CorruptLocalShare),
            Err(MachineError::Refused) => Err(SigningError::MachineRefused),
        }
    }

    /// First half of the offline stage: checks the participant set, takes
    /// the stored key share as the caller read it, computes this server's
    /// index and the list of parties, and builds the state machine that the
    /// protocol driver then runs.
    pub fn begin_offline_stage(
        &self,
        participants: &Vec<u16>,
        local_share: Option<&str>,
    ) -> (answer: Result<OfflineSetup, SigningError>)
        ensures
            !self.participants_valid(participants@) ==> fails_with(
                answer,
                SigningError::InvalidParticipants,
            ),
            self.participants_valid(participants@) && local_share is None ==> fails_with(
                answer,
                (SigningError::MissingLocalShare { server_id: self.spec_my_index() }),
            ),
            self.participants_valid(participants@) && local_share is Some
                && self.spec_arbitrary_index(participants@) is None ==> fails_with(
                answer,
                SigningError::InvalidParticipants,
            ),
            self.participants_valid(participants@) && local_share is Some
                && self.spec_arbitrary_index(participants@) is Some
                ==> Self::offline_setup_matches(
                self.spec_arbitrary_index(participants@).unwrap(),
                self.spec_all_parties(participants@),
                self.spec_cache_key(participants@),
                offline_machine_of(
                    self.spec_arbitrary_index(participants@).unwrap(),
                    self.spec_all_parties(participants@),
                    local_share.unwrap()@,
                ),
                answer,
            ),
    {
        if !self.are_participants_valid(participants) {
            return Err(SigningError::InvalidParticipants);
        }
        let participants_string = self.cache_key(participants);
        let local_share = match local_share {
            None => {
                return Err(SigningError::MissingLocalShare { server_id: self.my_index });
            },
            Some(share) => share,
        };
        let arbitrary_index = match self.real_to_arbitrary_index(participants) {
            None => {
                return Err(SigningError::InvalidParticipants);
            },
            Some(ai) => ai,
        };
        let all = match self.get_participants(participants) {
            Ok(all) => all,
            Err(_) => {
                return Err(SigningError::InvalidParticipants);
            },
        };
        let ghost parties = all@;
        let mut handed: Vec<u16> = Vec::new();
        let mut i: usize = 0;
        while i < all.len()
            invariant
                i <= all.len(),
                handed@ == all@.take(i as int),
            decreases all.len() - i,
        {
            handed.push(all[i]);
            proof {
                assert(all@.take(i + 1) == all@.take(i as int).push(all@[i as int]));
            }
            i += 1;
        }
        proof {
            assert(all@.take(all@.len() as int) == all@);
        }
        let built = new_offline_machine(arbitrary_index, handed, local_share);
        Signer::offline_setup_from(arbitrary_index, all, participants_string, built)
    }

    /// Second half of the offline stage: remembers what the protocol driver
    /// brought back. A finished stage is stored under the parties of the
    /// ceremony; after a failure the cache is as it was.
    pub fn do_offline_stage(
        &mut self,
        participants: &Vec<u16>,
        outcome: Option<CompletedOfflineStage>,
    ) -> (done: Result<(), SigningError>)
        ensures
            final(self).spec_my_index() == old(self).spec_my_index(),
            final(self).spec_threshold() == old(self).spec_threshold(),
            final(self).spec_n_of_participants() == old(self).spec_n_of_participants(),
            !old(self).participants_valid(participants@) ==> fails_with(
                done,
                SigningError::InvalidParticipants,
            ),
            old(self).participants_valid(participants@) && outcome is None ==> fails_with(
                done,
                SigningError::ProtocolFailed,
            ),
            old(self).participants_valid(participants@) && outcome is Some ==> done is Ok,
            done is Err ==> final(self).completed() == old(self).completed(),
            done is Ok ==> final(self).completed() == old(self).completed().insert(
                old(self).spec_all_parties(participants@),
                outcome.unwrap(),
            ),
    {
        if !self.are_participants_valid(participants) {
            return Err(SigningError::InvalidParticipants);
        }
        match outcome {
            None => Err(SigningError::ProtocolFailed),
            Some(stage) => {
                let all = self.with_self(participants);
                let key = sorted_ids(&all);
                self.offline_stage.insert(key, stage);
                Ok(())
            },
        }
    }

    /// What `sign_hash` answers once the local partial signature has been
    /// asked for.
    pub open spec fn online_setup_matches(
        sender: u16,
        expected: usize,
        made: Option<(SignManual, PartialSignature)>,
        answer: Result<OnlineSetup, SigningError>,
    ) -> bool {
        match made {
            Some((signing, partial_signature)) => {
                &&& answer is Ok
                &&& answer->Ok_0.spec_sender() == sender
                &&& answer->Ok_0.spec_expected() == expected
                &&& answer->Ok_0.spec_signing() == signing
                &&& answer->Ok_0.spec_partial_signature() == partial_signature
            },
            None => fails_with(answer, SigningError::LocalSigningFailed),
        }
    }

    /// Turns the answer of the manual-signing constructor into the setup of
    /// the online stage.
    pub fn online_setup_from(
        sender: u16,
        expected: usize,
        made: Option<(SignManual, PartialSignature)>,
    ) -> (answer: Result<OnlineSetup, SigningError>)
        requires
            made matches Some((signing, partial_signature)) ==> own_share_of(signing)
                == partial_signature,
        ensures
            Self::online_setup_matches(sender, expected, made, answer),
    {
        match made {
            Some((signing, partial_signature)) => Ok(
                OnlineSetup { sender, partial_signature, expected, signing },
            ),
            None => Err(SigningError::LocalSigningFailed),
        }
    }

    /// First half of the online stage: checks the participant set, looks up
    /// the finished offline stage, reads the digest and produces this
    /// server's partial signature together with the index to send it under.
    /// With an accepted participant set, a recorded offline stage, a digest
    /// in hexadecimal notation and an index that fits, the setup comes back.
    pub fn sign_hash(
        &self,
        hash_to_sign: &String,
        participants: Vec<u16>,
    ) -> (answer: Result<OnlineSetup, SigningError>)
        ensures
            !self.participants_valid(participants@) ==> fails_with(
                answer,
                SigningError::InvalidParticipants,
            ),
            self.participants_valid(participants@) && !self.completed().contains_key(
                self.spec_all_parties(participants@),
            ) ==> fails_with(answer, SigningError::OfflineStageNotCompleted),
            self.participants_valid(participants@) && self.completed().contains_key(
                self.spec_all_parties(participants@),
            ) && !is_hex_text(hash_to_sign@) ==> fails_with(answer, SigningError::InvalidDigest),
            self.participants_valid(participants@) && self.completed().contains_key(
                self.spec_all_parties(participants@),
            ) && is_hex_text(hash_to_sign@) && self.spec_arbitrary_index(participants@) is None
                ==> fails_with(answer, SigningError::InvalidParticipants),
            self.participants_valid(participants@) && self.completed().contains_key(
                self.spec_all_parties(participants@),
            ) && is_hex_text(hash_to_sign@) && self.spec_arbitrary_index(participants@) is Some
                ==> answer is Ok && Self::online_setup_matches(
                self.spec_arbitrary_index(participants@).unwrap(),
                self.spec_threshold() as usize,
                manual_signing_of(
                    bigint_of(hex_bytes(hash_to_sign@)),
                    self.completed()[self.spec_all_parties(participants@)],
                ),
                answer,
            ),
    {
        if !self.are_participants_valid(&participants) {
            return Err(SigningError::InvalidParticipants);
        }
        let all = self.with_self(&participants);
        let key = sorted_ids(&all);
        let offline_stage = match self.offline_stage.get(&key) {
            None => {
                return Err(SigningError::OfflineStageNotCompleted);
            },
            Some(os) => os,
        };
        let digest = match hex_decode(hash_to_sign.as_str()) {
            None => {
                return Err(SigningError::InvalidDigest);
            },
            Some(bytes) => bytes,
        };
        let arbitrary_index = match self.real_to_arbitrary_index(&participants) {
            None => {
                return Err(SigningError::InvalidParticipants);
            },
            Some(ai) => ai,
        };
        let made = new_manual_signing(&digest, offline_stage);
        Signer::online_setup_from(arbitrary_index, self.threshold as usize, made)
    }

    /// Takes the partial signatures that the peers sent and hands out the
    /// signing state that combines them. Exactly as many partial signatures
    /// as the setup expects are needed, and they must not cancel out against
    /// the one of this server; otherwise nothing is handed out.
    pub fn accept_partial_signatures(
        setup: OnlineSetup,
        partial_signatures: &Vec<PartialSignature>,
    ) -> (signing: Result<SignManual, SigningError>)
        ensures
            partial_signatures@.len() == setup.spec_expected() && combinable(
                setup.spec_signing(),
                partial_signatures@,
            ) ==> signing == Ok::<SignManual, SigningError>(setup.spec_signing()),
            !(partial_signatures@.len() == setup.spec_expected() && combinable(
                setup.spec_signing(),
                partial_signatures@,
            )) ==> fails_with(signing, SigningError::OnlineStageFailed),
    {
        proof {
            use_type_invariant(&setup);
        }
        if partial_signatures.len() != setup.expected {
            return Err(SigningError::OnlineStageFailed);
        }
        let sum = sum_of_partial_signatures(&setup.partial_signature, partial_signatures);
        match sum {
            None => Err(SigningError::OnlineStageFailed),
            Some(bytes) => {
                if scalar_is_zero(&bytes) {
                    Err(SigningError::OnlineStageFailed)
                } else {
                    Ok(setup.signing)
                }
            },
        }
    }

    /// What `finish_signature` answers for a given outcome of the
    /// combination of the partial signatures.
    pub open spec fn signature_matches(
        combined: Option<SignatureRecid>,
        answer: Result<String, SigningError>,
    ) -> bool {
        match combined {
            Some(signature) => match signature_json(signature) {
                Some(text) => answer is Ok && answer->Ok_0@ == text,
                None => fails_with(answer, SigningError::OnlineStageFailed),
            },
            None => fails_with(answer, SigningError::OnlineStageFailed),
        }
    }

    /// Second half of the online stage: turns what the combination of the
    /// partial signatures gave into the result of the ceremony, the
    /// signature as JSON text.
    pub fn finish_signature(
        combined: Option<SignatureRecid>,
    ) -> (answer: Result<String, SigningError>)
        ensures
            Self::signature_matches(combined, answer),
    {
        match combined {
            Some(signature) => match signature_to_json(&signature) {
                Some(text) => Ok(text),
                None => Err(SigningError::OnlineStageFailed),
            },
            None => Err(SigningError::OnlineStageFailed),
        }
    }
}

/// The index that a signer takes names the signer itself: in a ceremony
/// with an accepted list of peers, the list of all parties in the agreed
/// order holds this server's identity at the position of its index.
pub proof fn law_index_names_self(signer: Signer, participants: Seq<u16>)
    requires
        signer.participants_valid(participants),
    ensures
        signer.spec_all_parties(participants).len() == participants.len() + 1,
        1 <= rank_among(signer.spec_my_index(), participants) <= participants.len() + 1,
        signer.spec_all_parties(participants)[rank_among(signer.spec_my_index(), participants)
            - 1] == signer.spec_my_index(),
{
    let all = seq![signer.spec_my_index()] + participants;
    assert(all.remove(0) =~= participants);
    assert(all.no_duplicates()) by {
        assert forall|i: int, j: int|
            0 <= i < all.len() && 0 <= j < all.len() && i != j implies all[i] != all[j] by {
            if i > 0 && j > 0 {
                assert(participants[i - 1] != participants[j - 1]);
            } else if i > 0 {
                assert(participants[i - 1] != signer.spec_my_index());
            } else {
                assert(participants[j - 1] != signer.spec_my_index());
            }
        }
    }
    law_rank_is_position(all, 0);
}

/// Two lists of peers belong to the same ceremony of a signer exactly when
/// they list the same peers: the parties in ascending order are the same
/// then, and only then.
pub proof fn law_ceremonies_told_apart(signer: Signer, a: Seq<u16>, b: Seq<u16>)
    ensures
        signer.spec_all_parties(a) == signer.spec_all_parties(b) <==> canonical_order(a)
            == canonical_order(b),
        signer.spec_all_parties(a) == signer.spec_all_parties(b) <==> a.to_multiset()
            == b.to_multiset(),
{
    let me = seq![signer.spec_my_index()];
    law_canonical_order_tells_sets_apart(me + a, me + b);
    law_canonical_order_tells_sets_apart(a, b);
    lemma_multiset_commutative(me, a);
    lemma_multiset_commutative(me, b);
    if (me + a).to_multiset() == (me + b).to_multiset() {
        assert forall|x: u16| a.to_multiset().count(x) == b.to_multiset().count(x) by {
            assert((me + a).to_multiset().count(x) == (me + b).to_multiset().count(x));
        }
        assert(a.to_multiset() =~= b.to_multiset());
    }
}

/// A ceremony counts as complete from the moment its offline stage is
/// recorded, and recording it changes the answer for no other ceremony:
/// for every list of peers that is not the same peers in another order the
/// answer stays as it was.
pub proof fn law_offline_stage_completion(
    before: Signer,
    after: Signer,
    participants: Seq<u16>,
    stage: CompletedOfflineStage,
    other: Seq<u16>,
)
    requires
        after.spec_my_index() == before.spec_my_index(),
        after.completed() == before.completed().insert(
            before.spec_all_parties(participants),
            stage,
        ),
    ensures
        after.completed().contains_key(after.spec_all_parties(participants)),
        canonical_order(other) != canonical_order(participants) ==> (
        after.completed().contains_key(after.spec_all_parties(other))
            <==> before.completed().contains_key(before.spec_all_parties(other))),
{
    law_ceremonies_told_apart(before, other, participants);
}

} // verus!
