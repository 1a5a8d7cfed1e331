//! The steps of the two provider calls that come before and after the
//! network: normalise the provider, fetch its credential, resolve the
//! endpoint, build the payload, and judge the answer's status.
use vstd::prelude::*;
use crate::completion::{build_payload, payload_fields, ChatCompletionRequest, PayloadField};
use crate::credentials::get_required_api_key;
use crate::endpoint::{
    chat_endpoint,
    models_endpoint,
    resolve_chat_endpoint,
    resolve_models_endpoint,
};
use crate::error::GatewayError;
use crate::provider::{normalize_provider, normalized, Provider};

verus! {

/// The `HTTP-Referer` header sent to OpenRouter.
pub const OPENROUTER_REFERER: &'static str = "http://localhost:1420";

/// The `X-Title` header sent to OpenRouter.
pub const OPENROUTER_TITLE: &'static str = "The Story Nexus";

/// A request to list a provider's models.
#[derive(Debug)]
pub struct FetchModelsRequest {
    pub provider: String,
    pub base_url: Option<String>,
    pub models_route: Option<String>,
}

/// An authenticated call that is ready to be sent.
#[derive(Debug)]
pub struct PreparedCall {
    pub provider: Provider,
    pub url: String,
    pub api_key: String,
}

pub open spec fn opt_string_view(o: Option<String>) -> Option<Seq<char>> {
    match o {
        Some(s) => Some(s@),
        None => None,
    }
}

fn opt_as_str(o: &Option<String>) -> (r: Option<&str>)
    ensures
        crate::endpoint::opt_view(r) == opt_string_view(*o),
{
    match o {
        Some(s) => Some(s.as_str()),
        None => None,
    }
}

/// The identification headers that a provider receives besides the bearer
/// token: two fixed ones for OpenRouter, none for the others.
pub fn identification_headers(provider: Provider) -> (r: Vec<(&'static str, &'static str)>)
    ensures
        provider == Provider::OpenRouter ==> r@.len() == 2 && r@[0].0@ == "HTTP-Referer"@
            && r@[0].1@ == OPENROUTER_REFERER@ && r@[1].0@ == "X-Title"@ && r@[1].1@
            == OPENROUTER_TITLE@,
        provider != Provider::OpenRouter ==> r@.len() == 0,
{
    let mut headers: Vec<(&'static str, &'static str)> = Vec::new();
    if provider == Provider::OpenRouter {
        headers.push(("HTTP-Referer", OPENROUTER_REFERER));
        headers.push(("X-Title", OPENROUTER_TITLE));
    }
    headers
}

/// Whether an HTTP status counts as success.
pub open spec fn is_success(status: u16) -> bool {
    200 <= status <= 299
}

/// Accepts a successful status; any other becomes `ProviderHttpError` with
/// the status and the body of the answer.
pub fn check_status(status: u16, body: String) -> (r: Result<(), GatewayError>)
    ensures
        is_success(status) <==> r is Ok,
        !is_success(status) ==> (r matches Err(GatewayError::ProviderHttpError { status: s, body: b })
            && s == status && b@ == body@),
{
    if 200 <= status && status <= 299 {
        Ok(())
    } else {
        Err(GatewayError::ProviderHttpError { status, body })
    }
}

/// The model-listing call of a provider whose credential is known.
pub fn plan_models_call(
    provider: Provider,
    api_key: String,
    base_url: Option<&str>,
    models_route: Option<&str>,
) -> (r: Result<PreparedCall, GatewayError>)
    ensures
        match models_endpoint(
            provider,
            crate::endpoint::opt_view(base_url),
            crate::endpoint::opt_view(models_route),
        ) {
            Some(url) => r matches Ok(c) && c.provider == provider && c.url@ == url && c.api_key@
                == api_key@,
            None => r matches Err(e) && e is MissingBaseUrl,
        },
{
    let url = resolve_models_endpoint(provider, base_url, models_route)?;
    Ok(PreparedCall { provider, url, api_key })
}

/// The chat-completion call of a provider whose credential is known, with
/// its payload.
pub fn plan_completion_call<F: Copy>(
    provider: Provider,
    api_key: String,
    request: ChatCompletionRequest<F>,
) -> (r: Result<(PreparedCall, Vec<PayloadField<F>>), GatewayError>)
    ensures
        match chat_endpoint(provider, opt_string_view(request.base_url)) {
            Some(url) => r matches Ok((c, payload)) && c.provider == provider && c.url@ == url
                && c.api_key@ == api_key@ && payload@ == payload_fields(request),
            None => r matches Err(e) && e is MissingBaseUrl,
        },
{
    let url = resolve_chat_endpoint(provider, opt_as_str(&request.base_url))?;
    let payload = build_payload(request);
    Ok((PreparedCall { provider, url, api_key }, payload))
}

/// Prepares the model-listing call: the provider is normalised, its
/// credential read, and the endpoint resolved, the first failure ending it.
pub fn prepare_models_call(request: &FetchModelsRequest) -> (r: Result<PreparedCall, GatewayError>)
    ensures
        match normalized(request.provider@) {
            None => r matches Err(GatewayError::UnsupportedProvider { input }) && input@
                == request.provider@,
            Some(p) => match r {
                Ok(c) => c.provider == p && models_endpoint(
                    p,
                    opt_string_view(request.base_url),
                    opt_string_view(request.models_route),
                ) == Some(c.url@),
                Err(e) => e is MissingCredential || e is SecretStoreFailure || (e is MissingBaseUrl
                    && models_endpoint(
                    p,
                    opt_string_view(request.base_url),
                    opt_string_view(request.models_route),
                ) is None),
            },
        },
{
    let provider = normalize_provider(request.provider.as_str())?;
    let api_key = get_required_api_key(provider)?;
    plan_models_call(
        provider,
        api_key,
        opt_as_str(&request.base_url),
        opt_as_str(&request.models_route),
    )
}

/// Prepares the chat-completion call: the provider is normalised, its
/// credential read, the endpoint resolved and the payload built, the first
/// failure ending it.
pub fn prepare_completion_call<F: Copy>(request: ChatCompletionRequest<F>) -> (r: Result<
    (PreparedCall, Vec<PayloadField<F>>),
    GatewayError,
>)
    ensures
        match normalized(request.provider@) {
            None => r matches Err(GatewayError::UnsupportedProvider { input }) && input@
                == request.provider@,
            Some(p) => match r {
                Ok((c, payload)) => c.provider == p && chat_endpoint(
                    p,
                    opt_string_view(request.base_url),
                ) == Some(c.url@) && payload@ == payload_fields(request),
                Err(e) => e is MissingCredential || e is SecretStoreFailure || (e is MissingBaseUrl
                    && chat_endpoint(p, opt_string_view(request.base_url)) is None),
            },
        },
{
    let provider = normalize_provider(request.provider.as_str())?;
    let api_key = get_required_api_key(provider)?;
    plan_completion_call(provider, api_key, request)
}

} // verus!
