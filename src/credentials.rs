//! The per-provider credential store, kept in the operating system's secret
//! store through `keyring`. What the store answers is taken as it comes; what
//! the gateway makes of each answer is decided here.
use vstd::prelude::*;
use crate::error::GatewayError;
use crate::provider::{normalize_provider, normalized, Provider};
use crate::text::{trim_text, trimmed};

verus! {

#[verifier::external_type_specification]
#[verifier::external_body]
pub struct ExEntry(keyring::Entry);

#[verifier::external_type_specification]
#[verifier::external_body]
pub struct ExKeyringError(keyring::Error);

/// The service under which every credential of the gateway is stored.
pub const KEYRING_SERVICE: &'static str = "thestorynexus";

/// How a call into the secret store failed.
#[derive(Debug)]
pub enum StoreFailure {
    /// The store holds no entry for the account.
    NoEntry,
    /// Any other failure, with the store's message.
    Other(String),
}

impl StoreFailure {
    pub open spec fn spec_detail(&self) -> Seq<char> {
        match self {
            StoreFailure::NoEntry => "no entry in the secret store"@,
            StoreFailure::Other(d) => d@,
        }
    }

    /// A description of the failure.
    pub fn detail(&self) -> (r: String)
        ensures
            r@ == self.spec_detail(),
    {
        match self {
            StoreFailure::NoEntry => String::from_str("no entry in the secret store"),
            StoreFailure::Other(d) => d.clone(),
        }
    }
}

/// Relies on `keyring::Error`: its `NoEntry` variant is told apart from the
/// others, which are kept as their `Display` text.
#[verifier::external_body]
fn store_failure(e: keyring::Error) -> StoreFailure {
    match e {
        keyring::Error::NoEntry => StoreFailure::NoEntry,
        other => StoreFailure::Other(other.to_string()),
    }
}

/// Relies on `keyring::Entry::new`: the entry of `account` under `service`.
#[verifier::external_body]
fn open_entry(service: &str, account: &str) -> Result<keyring::Entry, StoreFailure> {
    keyring::Entry::new(service, account).map_err(store_failure)
}

/// Relies on `keyring::Entry::get_password`: the secret stored in the entry.
#[verifier::external_body]
fn read_secret(entry: &keyring::Entry) -> Result<String, StoreFailure> {
    entry.get_password().map_err(store_failure)
}

/// Relies on `keyring::Entry::set_password`: stores the secret in the entry.
#[verifier::external_body]
fn write_secret(entry: &keyring::Entry, secret: &str) -> Result<(), StoreFailure> {
    entry.set_password(secret).map_err(store_failure)
}

/// Relies on `keyring::Entry::delete_credential`: removes the entry's secret.
#[verifier::external_body]
fn delete_secret(entry: &keyring::Entry) -> Result<(), StoreFailure> {
    entry.delete_credential().map_err(store_failure)
}

/// The account under which a provider's credential is stored.
pub open spec fn account_key(p: Provider) -> Seq<char> {
    "provider:"@ + p.spec_name()
}

pub fn account_name(p: Provider) -> (r: String)
    ensures
        r@ == account_key(p),
{
    String::from_str("provider:").concat(p.name())
}

/// The error for a failure of the store other than a missing entry.
pub open spec fn is_store_failure(e: GatewayError, p: Provider, f: StoreFailure) -> bool {
    e matches GatewayError::SecretStoreFailure { provider, detail } && provider == p
        && detail@ == f.spec_detail()
}

pub open spec fn is_unsupported(r: GatewayError, raw: Seq<char>) -> bool {
    r matches GatewayError::UnsupportedProvider { input } && input@ == raw
}

/// Whether a provider counts as configured, given what the store answered
/// to a read of its entry: a secret that is not only whitespace counts, a
/// missing entry does not, and any other failure is an error.
pub fn presence_from_lookup(provider: Provider, lookup: Result<String, StoreFailure>) -> (r: Result<
    bool,
    GatewayError,
>)
    ensures
        match lookup {
            Ok(v) => r == Ok::<bool, GatewayError>(trimmed(v@).len() > 0),
            Err(StoreFailure::NoEntry) => r == Ok::<bool, GatewayError>(false),
            Err(f) => r matches Err(e) && is_store_failure(e, provider, f),
        },
{
    match lookup {
        Ok(v) => Ok(trim_text(v.as_str()).unicode_len() > 0),
        Err(StoreFailure::NoEntry) => Ok(false),
        Err(f) => Err(GatewayError::SecretStoreFailure { provider, detail: f.detail() }),
    }
}

/// The outcome of a removal, given what the store answered: removing an
/// entry that is not there succeeds.
pub fn removal_outcome(provider: Provider, answer: Result<(), StoreFailure>) -> (r: Result<
    (),
    GatewayError,
>)
    ensures
        match answer {
            Ok(_) => r is Ok,
            Err(StoreFailure::NoEntry) => r is Ok,
            Err(f) => r matches Err(e) && is_store_failure(e, provider, f),
        },
{
    match answer {
        Ok(()) => Ok(()),
        Err(StoreFailure::NoEntry) => Ok(()),
        Err(f) => Err(GatewayError::SecretStoreFailure { provider, detail: f.detail() }),
    }
}

/// The outcome of storing a secret, given what the store answered.
pub fn store_outcome(provider: Provider, answer: Result<(), StoreFailure>) -> (r: Result<
    (),
    GatewayError,
>)
    ensures
        match answer {
            Ok(_) => r is Ok,
            Err(f) => r matches Err(e) && is_store_failure(e, provider, f),
        },
{
    match answer {
        Ok(()) => Ok(()),
        Err(f) => Err(GatewayError::SecretStoreFailure { provider, detail: f.detail() }),
    }
}

/// The credential of a provider, given what the store answered to a read:
/// any failure to read means that the credential is missing.
pub fn required_key_from_lookup(provider: Provider, lookup: Result<String, StoreFailure>) -> (r:
    Result<String, GatewayError>)
    ensures
        match lookup {
            Ok(v) => r matches Ok(k) && k@ == v@,
            Err(f) => r matches Err(GatewayError::MissingCredential { provider: p, detail })
                && p == provider && detail@ == f.spec_detail(),
        },
{
    match lookup {
        Ok(v) => Ok(v),
        Err(f) => Err(GatewayError::MissingCredential { provider, detail: f.detail() }),
    }
}

fn entry_for(provider: Provider) -> (r: Result<keyring::Entry, GatewayError>)
    ensures
        r matches Err(e) ==> e matches GatewayError::SecretStoreFailure { provider: p, .. }
            && p == provider,
{
    let account = account_name(provider);
    match open_entry(KEYRING_SERVICE, account.as_str()) {
        Ok(entry) => Ok(entry),
        Err(f) => Err(GatewayError::SecretStoreFailure { provider, detail: f.detail() }),
    }
}

/// The stored credential of a provider; fails where the store cannot be
/// opened or holds none for it.
pub fn get_required_api_key(provider: Provider) -> (r: Result<String, GatewayError>)
    ensures
        r matches Err(e) ==> (e matches GatewayError::SecretStoreFailure { provider: p, .. }
            && p == provider) || (e matches GatewayError::MissingCredential { provider: p, .. }
            && p == provider),
{
    let entry = entry_for(provider)?;
    required_key_from_lookup(provider, read_secret(&entry))
}

/// Stores the trimmed secret as the credential of the named provider,
/// replacing any earlier one.
pub fn set_provider_api_key(provider: &str, api_key: &str) -> (r: Result<(), GatewayError>)
    ensures
        normalized(provider@) is None <==> (r matches Err(e) && is_unsupported(e, provider@)),
        r matches Err(e) ==> is_unsupported(e, provider@)
            || e is SecretStoreFailure,
{
    let p = normalize_provider(provider)?;
    let entry = entry_for(p)?;
    store_outcome(p, write_secret(&entry, trim_text(api_key)))
}

/// Whether the named provider has a credential that is not only whitespace.
pub fn has_provider_api_key(provider: &str) -> (r: Result<bool, GatewayError>)
    ensures
        normalized(provider@) is None <==> (r matches Err(e) && is_unsupported(e, provider@)),
        r matches Err(e) ==> is_unsupported(e, provider@) || e is SecretStoreFailure,
{
    let p = normalize_provider(provider)?;
    let entry = entry_for(p)?;
    presence_from_lookup(p, read_secret(&entry))
}

/// Removes the credential of the named provider; succeeds where there was none.
pub fn remove_provider_api_key(provider: &str) -> (r: Result<(), GatewayError>)
    ensures
        normalized(provider@) is None <==> (r matches Err(e) && is_unsupported(e, provider@)),
        r matches Err(e) ==> is_unsupported(e, provider@) || e is SecretStoreFailure,
{
    let p = normalize_provider(provider)?;
    let entry = entry_for(p)?;
    removal_outcome(p, delete_secret(&entry))
}

} // verus!
