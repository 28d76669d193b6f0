//! Key generation as this server sees it: when it may run, with which
//! parameters, and where the resulting share is kept.

use vstd::prelude::*;
use vstd::string::StringExecFns;
use multi_party_ecdsa::protocols::multi_party_ecdsa::gg_2020::state_machine::keygen::Keygen;
use crate::mpc::utils::local_share_utils::{local_share_file_name, spec_local_share_file_name};

verus! {

/// The state machine of the key generation, `Keygen` of
/// `multi_party_ecdsa`. The library builds it for the protocol driver.
#[verifier::external_type_specification]
#[verifier::external_body]
pub struct ExKeygen(Keygen);

/// The state machine that `Keygen::new` makes for a party index, a
/// threshold and a number of parties; `None` where it makes none.
pub uninterp spec fn keygen_machine_of(
    index: u16,
    threshold: u16,
    number_of_parties: u16,
) -> Option<Keygen>;

/// Calls `Keygen::new`, which refuses fewer than two parties, a threshold
/// outside `1..n` and a party index outside `1..=n` and nothing else: the
/// first round is left for the protocol driver to run.
#[verifier::external_body]
fn new_keygen(index: u16, threshold: u16, number_of_parties: u16) -> (machine: Option<Keygen>)
    ensures
        machine == keygen_machine_of(index, threshold, number_of_parties),
        machine is Some <==> keygen_parameters_valid(index, threshold, number_of_parties),
{
    Keygen::new(index, threshold, number_of_parties).ok()
}

/// The parameters that a key generation accepts: at least two parties, a
/// threshold of at least one and below the number of parties, and a party
/// index between one and the number of parties.
pub open spec fn keygen_parameters_valid(
    index: u16,
    threshold: u16,
    number_of_parties: u16,
) -> bool {
    &&& number_of_parties >= 2
    &&& 1 <= threshold < number_of_parties
    &&& 1 <= index <= number_of_parties
}

/// The notice that a key share is already there.
pub open spec fn spec_already_generated_notice(index: u16) -> Seq<char> {
    spec_local_share_file_name(index)
        + " already exists. If you want to generate keys, remove already existing ones."@
}

/// Decides whether keys may be generated for server `index`, given whether
/// the file of its key share exists: the name of the file to write where
/// it does not, a notice where it does.
pub fn are_keys_already_generated(index: u16, share_exists: bool) -> (file: Result<String, String>)
    ensures
        match file {
            Ok(name) => !share_exists && name@ == spec_local_share_file_name(index),
            Err(notice) => share_exists && notice@ == spec_already_generated_notice(index),
        },
{
    let mut file_name = local_share_file_name(index);
    if share_exists {
        file_name.append(
            " already exists. If you want to generate keys, remove already existing ones.",
        );
        return Err(file_name);
    }
    Ok(file_name)
}

/// Why no key share was generated.
#[derive(Clone, Copy, Debug, PartialEq, Eq, Structural)]
pub enum KeygenError {
    /// A key share exists already; generation never overwrites one.
    AlreadyGenerated { server_id: u16 },
    /// The party index, the threshold or the number of parties is not
    /// acceptable.
    InvalidParameters,
    /// The state machine of the key generation could not be built.
    MachineRefused,
    /// The protocol ended with an error.
    ProtocolFailed,
    /// The key share could not be written.
    WriteFailed,
}

impl KeygenError {
    /// The text that describes the error.
    pub open spec fn spec_message(self) -> Seq<char> {
        match self {
            KeygenError::AlreadyGenerated { server_id } => spec_already_generated_notice(
                server_id,
            ),
            KeygenError::InvalidParameters => "Invalid key generation parameters"@,
            KeygenError::MachineRefused => "Key generation could not be started"@,
            KeygenError::ProtocolFailed => "protocol execution terminated with error"@,
            KeygenError::WriteFailed => "Unable to generate file"@,
        }
    }

    /// The text that describes the error.
    pub fn message(&self) -> (text: String)
        ensures
            text@ == self.spec_message(),
    {
        match self {
            KeygenError::AlreadyGenerated { server_id } => {
                let mut text = local_share_file_name(*server_id);
                text.append(
                    " already exists. If you want to generate keys, remove already existing ones.",
                );
                text
            },
            KeygenError::InvalidParameters => String::from_str("Invalid key generation parameters"),
            KeygenError::MachineRefused => String::from_str("Key generation could not be started"),
            KeygenError::ProtocolFailed => String::from_str(
                "protocol execution terminated with error",
            ),
            KeygenError::WriteFailed => String::from_str("Unable to generate file"),
        }
    }
}

/// What the protocol driver needs to run the key generation.
pub struct KeygenSetup {
    /// The name of the file that takes the resulting key share.
    pub file_name: String,
    /// The state machine of the key generation.
    pub machine: Keygen,
}

/// How a key generation went on after it was set up.
#[derive(Clone, Copy, Debug, PartialEq, Eq, Structural)]
pub enum KeygenOutcome {
    /// The protocol ended with an error.
    ProtocolFailed,
    /// The protocol finished, but the key share could not be written.
    WriteFailed,
    /// The key share is written.
    Written,
}

/// What `generate_keys` answers once the state machine has been asked for.
pub open spec fn keygen_setup_matches(
    index: u16,
    machine: Option<Keygen>,
    answer: Result<KeygenSetup, KeygenError>,
) -> bool {
    match machine {
        Some(m) => {
            &&& answer is Ok
            &&& answer->Ok_0.file_name@ == spec_local_share_file_name(index)
            &&& answer->Ok_0.machine == m
        },
        None => answer is Err && answer->Err_0 == KeygenError::MachineRefused,
    }
}

/// Turns the answer of the state machine's constructor into the setup of
/// the key generation.
pub fn keygen_setup_from(
    index: u16,
    file_name: String,
    machine: Option<Keygen>,
) -> (answer: Result<KeygenSetup, KeygenError>)
    requires
        file_name@ == spec_local_share_file_name(index),
    ensures
        keygen_setup_matches(index, machine, answer),
{
    match machine {
        Some(machine) => Ok(KeygenSetup { file_name, machine }),
        None => Err(KeygenError::MachineRefused),
    }
}

/// Sets up the key generation of server `index`. It is refused where a key
/// share exists already, however the parameters are, and where the
/// parameters are not acceptable; otherwise the state machine is built for
/// the protocol driver to run.
pub fn generate_keys(
    index: u16,
    threshold: u16,
    number_of_parties: u16,
    share_exists: bool,
) -> (answer: Result<KeygenSetup, KeygenError>)
    ensures
        share_exists ==> answer is Err && answer->Err_0 == (KeygenError::AlreadyGenerated {
            server_id: index,
        }),
        !share_exists && !keygen_parameters_valid(index, threshold, number_of_parties)
            ==> answer is Err && answer->Err_0 == KeygenError::InvalidParameters,
        !share_exists && keygen_parameters_valid(index, threshold, number_of_parties)
            ==> answer is Ok && keygen_setup_matches(
            index,
            keygen_machine_of(index, threshold, number_of_parties),
            answer,
        ),
{
    let file = match are_keys_already_generated(index, share_exists) {
        Ok(f) => f,
        Err(_) => {
            return Err(KeygenError::AlreadyGenerated { server_id: index });
        },
    };
    if number_of_parties < 2 || threshold == 0 || threshold >= number_of_parties || index == 0
        || index > number_of_parties {
        return Err(KeygenError::InvalidParameters);
    }
    let machine = new_keygen(index, threshold, number_of_parties);
    keygen_setup_from(index, file, machine)
}

/// The result of a key generation for the way it went on.
pub fn finish_key_generation(outcome: KeygenOutcome) -> (done: Result<(), KeygenError>)
    ensures
        done == match outcome {
            KeygenOutcome::ProtocolFailed => Err::<(), KeygenError>(KeygenError::ProtocolFailed),
            KeygenOutcome::WriteFailed => Err::<(), KeygenError>(KeygenError::WriteFailed),
            KeygenOutcome::Written => Ok::<(), KeygenError>(()),
        },
{
    match outcome {
        KeygenOutcome::ProtocolFailed => Err(KeygenError::ProtocolFailed),
        KeygenOutcome::WriteFailed => Err(KeygenError::WriteFailed),
        KeygenOutcome::Written => Ok(()),
    }
}

} // verus!
