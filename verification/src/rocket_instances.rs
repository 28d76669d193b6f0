//! What the two HTTP servers of one signing server share: the
//! configuration, the registry of rooms, and the places of the
//! certificates.

use std::sync::{Arc, Mutex};
use vstd::prelude::*;
use vstd::string::StringExecFns;
use crate::communication::create_communication_channel::Db;
use crate::mpc::utils::decimal::{decimal, push_decimal};
use crate::mpc_config::MPCconfig;

verus! {

/// A lock around a value, `Mutex` of the standard library.
#[verifier::external_type_specification]
#[verifier::external_body]
#[verifier::reject_recursive_types(T)]
pub struct ExMutex<T: ?Sized>(Mutex<T>);

/// The configuration that a lock was made around.
pub uninterp spec fn locked_at_creation(lock: Mutex<MPCconfig>) -> MPCconfig;

/// Calls `Mutex::new`, which makes an unlocked lock around the value it is
/// given.
#[verifier::external_body]
fn new_mutex(config: MPCconfig) -> (guarded: Mutex<MPCconfig>)
    ensures
        locked_at_creation(guarded) == config,
{
    Mutex::new(config)
}

/// The configuration of the server, behind a lock.
pub struct ServerConfigState {
    config: Mutex<MPCconfig>,
}

impl ServerConfigState {
    /// The lock that guards the configuration.
    pub closed spec fn spec_config(&self) -> Mutex<MPCconfig> {
        self.config
    }

    /// Puts `config` behind a lock: the lock of the new state is made
    /// around `config`.
    pub fn new(config: MPCconfig) -> (state: ServerConfigState)
        ensures
            locked_at_creation(state.spec_config()) == config,
    {
        ServerConfigState { config: new_mutex(config) }
    }

    /// The lock that guards the configuration.
    pub fn config(&self) -> (config: &Mutex<MPCconfig>)
        ensures
            *config == self.spec_config(),
    {
        &self.config
    }
}

/// The registry of rooms, shared between the servers.
pub struct SharedDb<S>(pub Arc<Db<S>>);

impl<S> SharedDb<S> {
    /// The registry behind the handle.
    pub fn db(&self) -> (db: &Db<S>)
        ensures
            *db == *self.0,
    {
        &self.0
    }
}

/// The file that holds the public certificate of server `server_id`.
pub open spec fn spec_public_cert_path(server_id: u16) -> Seq<char> {
    "certs/public/cert_"@ + decimal(server_id as nat) + ".pem"@
}

/// The file that holds the private key of server `server_id`.
pub open spec fn spec_private_key_path(server_id: u16) -> Seq<char> {
    "certs/private/private_key_"@ + decimal(server_id as nat) + ".pem"@
}

/// The file that holds certificate and key of server `server_id` for its
/// outbound connections.
pub open spec fn spec_identity_path(server_id: u16) -> Seq<char> {
    "certs/private/cert_and_key_"@ + decimal(server_id as nat) + ".pem"@
}

/// The file that holds the certificate of the authority that signs the
/// certificates of all servers.
pub fn ca_cert_path() -> (path: &'static str)
    ensures
        path@ == "certs/ca_cert.pem"@,
{
    "certs/ca_cert.pem"
}

/// The file that holds the public certificate of server `server_id`.
pub fn public_cert_path(server_id: u16) -> (path: String)
    ensures
        path@ == spec_public_cert_path(server_id),
{
    let mut path = String::from_str("certs/public/cert_");
    push_decimal(&mut path, server_id as u64);
    path.append(".pem");
    path
}

/// The file that holds the private key of server `server_id`.
pub fn private_key_path(server_id: u16) -> (path: String)
    ensures
        path@ == spec_private_key_path(server_id),
{
    let mut path = String::from_str("certs/private/private_key_");
    push_decimal(&mut path, server_id as u64);
    path.append(".pem");
    path
}

/// The file that holds certificate and key of server `server_id` for its
/// outbound connections.
pub fn identity_path(server_id: u16) -> (path: String)
    ensures
        path@ == spec_identity_path(server_id),
{
    let mut path = String::from_str("certs/private/cert_and_key_");
    push_decimal(&mut path, server_id as u64);
    path.append(".pem");
    path
}

} // verus!
