//! A gateway over several chat-completion providers: provider names,
//! endpoints, request payloads, response normalisation and the credential
//! store, each with its contract.
pub mod text;
pub mod completion;
pub mod credentials;
pub mod endpoint;
pub mod error;
pub mod gateway;
pub mod json;
pub mod models;
pub mod provider;

pub use completion::{build_payload, extract_content, ChatCompletionRequest, ChatMessage, PayloadField};
pub use credentials::{
    account_name, get_required_api_key, has_provider_api_key, presence_from_lookup,
    remove_provider_api_key, removal_outcome, required_key_from_lookup, set_provider_api_key,
    store_outcome, StoreFailure, KEYRING_SERVICE,
};
pub use endpoint::{join_base_url, resolve_chat_endpoint, resolve_models_endpoint};
pub use error::GatewayError;
pub use gateway::{
    check_status, identification_headers, plan_completion_call, plan_models_call,
    prepare_completion_call, prepare_models_call, FetchModelsRequest, PreparedCall,
};
pub use json::Json;
pub use models::{parse_models, value_to_u32, ProviderModel};
pub use provider::{normalize_provider, provider_from_folded, Provider};
