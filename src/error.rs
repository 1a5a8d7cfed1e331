//! The errors of the gateway's operations.
use vstd::prelude::*;
use crate::provider::Provider;

verus! {

/// Why an operation of the gateway stopped. Each is final for that operation.
#[derive(Debug)]
pub enum GatewayError {
    /// The provider name is none of the supported ones; holds the name as given.
    UnsupportedProvider { input: String },
    /// The OpenAI-compatible provider was used without a base URL.
    MissingBaseUrl,
    /// No credential could be read for the provider.
    MissingCredential { provider: Provider, detail: String },
    /// The secret store failed otherwise than by holding no entry.
    SecretStoreFailure { provider: Provider, detail: String },
    /// The request could not be sent or its answer not received.
    TransportFailure { detail: String },
    /// The provider answered with a status outside 200..=299.
    ProviderHttpError { status: u16, body: String },
    /// The provider's answer is not JSON.
    MalformedResponse { detail: String },
    /// The completion answer holds no text but whitespace.
    EmptyCompletion,
}

} // verus!
