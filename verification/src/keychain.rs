//! Facade over the OS-native credential store, scoped under one fixed
//! service name.
//!
//! The store itself is the operating system's; what it answers depends
//! on machine state, so the wrappers promise nothing about which
//! outcome comes back. Each outcome is first read into an enum of this
//! crate, and the step from outcome to caller-visible result carries
//! the exact contract: a missing entry reads as an absent value, and
//! deleting a missing entry succeeds.

use vstd::prelude::*;

verus! {

/// The fixed service namespace under which every secret is stored.
pub open spec fn spec_service_name() -> Seq<char> {
    "mac-agent"@
}

/// The fixed service namespace under which every secret is stored.
pub fn service_name() -> (r: &'static str)
    ensures
        r@ == spec_service_name(),
{
    "mac-agent"
}

/// What the store answered when asked for a secret.
pub enum SecretLookup {
    /// An entry exists and holds this value.
    Found(String),
    /// No entry exists under the key.
    Missing,
    /// The store failed for any other reason, with its message.
    Failed(String),
}

/// What the store answered when asked to remove a secret.
pub enum SecretRemoval {
    /// An entry existed and was removed.
    Removed,
    /// No entry existed under the key.
    Missing,
    /// The store failed for any other reason, with its message.
    Failed(String),
}

#[verifier::external_type_specification]
#[verifier::external_body]
pub struct ExEntry(keyring::Entry);

/// Relies on keyring's `Entry::new`: opens a handle scoped to the given
/// service and key. Which outcome comes back depends on the host's
/// credential store; the error case carries its display text.
#[verifier::external_body]
fn open_entry(service: &str, key: &str) -> (r: Result<keyring::Entry, String>) {
    keyring::Entry::new(service, key).map_err(|e| e.to_string())
}

/// Relies on keyring's `Entry::set_password`: stores or overwrites the
/// entry's value. Which outcome comes back depends on the host's
/// credential store; the error case carries its display text.
#[verifier::external_body]
fn store_password(entry: &keyring::Entry, value: &str) -> (r: Result<(), String>) {
    entry.set_password(value).map_err(|e| e.to_string())
}

/// Relies on keyring's `Entry::get_password`: reads the entry's value,
/// where a `NoEntry` error means no entry exists under the key. Which
/// outcome comes back depends on the host's credential store.
#[verifier::external_body]
fn read_password(entry: &keyring::Entry) -> (r: SecretLookup) {
    match entry.get_password() {
        Ok(password) => SecretLookup::Found(password),
        Err(keyring::Error::NoEntry) => SecretLookup::Missing,
        Err(e) => SecretLookup::Failed(e.to_string()),
    }
}

/// Relies on keyring's `Entry::delete_credential`: removes the entry,
/// where a `NoEntry` error means no entry existed under the key. Which
/// outcome comes back depends on the host's credential store.
#[verifier::external_body]
fn remove_credential(entry: &keyring::Entry) -> (r: SecretRemoval) {
    match entry.delete_credential() {
        Ok(()) => SecretRemoval::Removed,
        Err(keyring::Error::NoEntry) => SecretRemoval::Missing,
        Err(e) => SecretRemoval::Failed(e.to_string()),
    }
}

/// What a lookup outcome reads as: a found value, an absent value when
/// no entry exists — never an error for a missing entry — and the
/// store's message otherwise.
pub fn lookup_to_result(lookup: SecretLookup) -> (r: Result<Option<String>, String>)
    ensures
        lookup matches SecretLookup::Found(password) ==> r == Ok::<Option<String>, String>(
            Some(password),
        ),
        lookup is Missing ==> r == Ok::<Option<String>, String>(None),
        lookup matches SecretLookup::Failed(message) ==> r == Err::<Option<String>, String>(
            message,
        ),
{
    match lookup {
        SecretLookup::Found(password) => Ok(Some(password)),
        SecretLookup::Missing => Ok(None),
        SecretLookup::Failed(message) => Err(message),
    }
}

/// What a removal outcome reads as: success whether or not an entry
/// existed — deletion is idempotent — and the store's message
/// otherwise.
pub fn removal_to_result(removal: SecretRemoval) -> (r: Result<(), String>)
    ensures
        removal is Removed ==> r == Ok::<(), String>(()),
        removal is Missing ==> r == Ok::<(), String>(()),
        removal matches SecretRemoval::Failed(message) ==> r == Err::<(), String>(message),
{
    match removal {
        SecretRemoval::Removed => Ok(()),
        SecretRemoval::Missing => Ok(()),
        SecretRemoval::Failed(message) => Err(message),
    }
}

/// The secret-store facade: three pass-through operations against the
/// OS credential store, all under `service_name`.
pub struct KeychainService;

impl KeychainService {
    /// Stores or overwrites the secret under `key`; any store failure
    /// comes back as its message.
    pub fn set_secret(key: &str, value: &str) -> (r: Result<(), String>) {
        match open_entry(service_name(), key) {
            Ok(entry) => store_password(&entry, value),
            Err(message) => Err(message),
        }
    }

    /// Reads the secret under `key`. A key with no entry reads as
    /// `Ok(None)`, never as an error; any other store failure comes
    /// back as its message (see `lookup_to_result`).
    pub fn get_secret(key: &str) -> (r: Result<Option<String>, String>) {
        match open_entry(service_name(), key) {
            Ok(entry) => lookup_to_result(read_password(&entry)),
            Err(message) => Err(message),
        }
    }

    /// Removes the secret under `key`. Deleting a key with no entry
    /// succeeds; any other store failure comes back as its message
    /// (see `removal_to_result`).
    pub fn delete_secret(key: &str) -> (r: Result<(), String>) {
        match open_entry(service_name(), key) {
            Ok(entry) => removal_to_result(remove_credential(&entry)),
            Err(message) => Err(message),
        }
    }
}

/// Command surface: stores a secret under `key`.
pub fn settings_set_secret(key: String, value: String) -> (r: Result<(), String>) {
    KeychainService::set_secret(key.as_str(), value.as_str())
}

/// Command surface: reads the secret under `key`; absent entries read
/// as `Ok(None)`.
pub fn settings_get_secret(key: String) -> (r: Result<Option<String>, String>) {
    KeychainService::get_secret(key.as_str())
}

/// Command surface: removes the secret under `key`; absent entries are
/// removed successfully.
pub fn settings_delete_secret(key: String) -> (r: Result<(), String>) {
    KeychainService::delete_secret(key.as_str())
}

} // verus!
