//! Where the chat-completion and model-listing requests of each provider go.
use vstd::prelude::*;
use crate::error::GatewayError;
use crate::provider::Provider;
use crate::text::{has_prefix, starts_with};

verus! {

/// The base with one trailing `/` removed, if it has one.
pub open spec fn strip_one_slash(base: Seq<char>) -> Seq<char> {
    if base.len() > 0 && base.last() == '/' {
        base.drop_last()
    } else {
        base
    }
}

/// Whether a route is an absolute `http://` or `https://` URL.
pub open spec fn is_absolute_url(route: Seq<char>) -> bool {
    starts_with(route, "http://"@) || starts_with(route, "https://"@)
}

/// A route placed under a base URL: an absolute route stands alone, any
/// other is joined to the base with exactly the one `/` that it needs.
pub open spec fn joined(base: Seq<char>, route: Seq<char>) -> Seq<char> {
    if is_absolute_url(route) {
        route
    } else if route.len() > 0 && route[0] == '/' {
        strip_one_slash(base) + route
    } else {
        strip_one_slash(base) + seq!['/'] + route
    }
}

pub open spec fn opt_view(o: Option<&str>) -> Option<Seq<char>> {
    match o {
        Some(s) => Some(s@),
        None => None,
    }
}

/// The chat-completion URL of a provider, or `None` where a base URL is
/// needed and missing.
pub open spec fn chat_endpoint(p: Provider, base: Option<Seq<char>>) -> Option<Seq<char>> {
    match p {
        Provider::OpenAi => Some("https://api.openai.com/v1/chat/completions"@),
        Provider::OpenRouter => Some("https://openrouter.ai/api/v1/chat/completions"@),
        Provider::NanoGpt => Some("https://nano-gpt.com/api/v1/chat/completions"@),
        Provider::OpenAiCompatible => match base {
            Some(b) => Some(joined(b, "/chat/completions"@)),
            None => None,
        },
    }
}

/// The model-listing URL of a provider, or `None` where a base URL is
/// needed and missing. Without a route of its own `/models` is used.
pub open spec fn models_endpoint(
    p: Provider,
    base: Option<Seq<char>>,
    route: Option<Seq<char>>,
) -> Option<Seq<char>> {
    match p {
        Provider::OpenAi => Some("https://api.openai.com/v1/models"@),
        Provider::OpenRouter => Some("https://openrouter.ai/api/v1/models"@),
        Provider::NanoGpt => Some("https://nano-gpt.com/api/v1/models"@),
        Provider::OpenAiCompatible => match base {
            Some(b) => match route {
                Some(r) => Some(joined(b, r)),
                None => Some(joined(b, "/models"@)),
            },
            None => None,
        },
    }
}

/// Joins a route to a base URL; see [`joined`].
pub fn join_base_url(base_url: &str, route: &str) -> (r: String)
    ensures
        r@ == joined(base_url@, route@),
{
    if has_prefix(route, "http://") || has_prefix(route, "https://") {
        return String::from_str(route);
    }
    let n = base_url.unicode_len();
    let base = if n > 0 && base_url.get_char(n - 1) == '/' {
        base_url.substring_char(0, n - 1)
    } else {
        base_url
    };
    assert(base@ == strip_one_slash(base_url@));
    let starts_with_slash = route.unicode_len() > 0 && route.get_char(0) == '/';
    let mut out = String::from_str(base);
    if !starts_with_slash {
        out.append("/");
        proof {
            reveal_strlit("/");
        }
        assert("/"@ =~= seq!['/']);
    }
    out.append(route);
    out
}

pub fn resolve_chat_endpoint(provider: Provider, base_url: Option<&str>) -> (r: Result<
    String,
    GatewayError,
>)
    ensures
        match r {
            Ok(url) => chat_endpoint(provider, opt_view(base_url)) == Some(url@),
            Err(e) => chat_endpoint(provider, opt_view(base_url)) is None
                && e is MissingBaseUrl,
        },
{
    match provider {
        Provider::OpenAi => Ok(String::from_str("https://api.openai.com/v1/chat/completions")),
        Provider::OpenRouter => Ok(
            String::from_str("https://openrouter.ai/api/v1/chat/completions"),
        ),
        Provider::NanoGpt => Ok(String::from_str("https://nano-gpt.com/api/v1/chat/completions")),
        Provider::OpenAiCompatible => match base_url {
            Some(base) => Ok(join_base_url(base, "/chat/completions")),
            None => Err(GatewayError::MissingBaseUrl),
        },
    }
}

pub fn resolve_models_endpoint(
    provider: Provider,
    base_url: Option<&str>,
    models_route: Option<&str>,
) -> (r: Result<String, GatewayError>)
    ensures
        match r {
            Ok(url) => models_endpoint(provider, opt_view(base_url), opt_view(models_route))
                == Some(url@),
            Err(e) => models_endpoint(provider, opt_view(base_url), opt_view(models_route)) is None
                && e is MissingBaseUrl,
        },
{
    match provider {
        Provider::OpenAi => Ok(String::from_str("https://api.openai.com/v1/models")),
        Provider::OpenRouter => Ok(String::from_str("https://openrouter.ai/api/v1/models")),
        Provider::NanoGpt => Ok(String::from_str("https://nano-gpt.com/api/v1/models")),
        Provider::OpenAiCompatible => match base_url {
            Some(base) => match models_route {
                Some(route) => Ok(join_base_url(base, route)),
                None => Ok(join_base_url(base, "/models")),
            },
            None => Err(GatewayError::MissingBaseUrl),
        },
    }
}

/// An absolute route is used as it is, whatever the base.
pub proof fn lemma_absolute_route_wins(base: Seq<char>, route: Seq<char>)
    requires
        is_absolute_url(route),
    ensures
        joined(base, route) == route,
{
}

} // verus!
