//! The closed set of supported providers and the normalisation of a
//! free-form provider name into it.
use vstd::prelude::*;
use crate::error::GatewayError;
use crate::text::{lowercase_text, lowercased, same_text, trim_text, trimmed};

verus! {

/// A supported upstream API.
#[derive(Debug, Clone, Copy, PartialEq, Eq, Structural)]
pub enum Provider {
    OpenAi,
    OpenRouter,
    NanoGpt,
    OpenAiCompatible,
}

impl Provider {
    /// The canonical name of the provider.
    pub open spec fn spec_name(self) -> Seq<char> {
        match self {
            Provider::OpenAi => "openai"@,
            Provider::OpenRouter => "openrouter"@,
            Provider::NanoGpt => "nanogpt"@,
            Provider::OpenAiCompatible => "openai_compatible"@,
        }
    }

    pub fn name(&self) -> (r: &'static str)
        ensures
            r@ == self.spec_name(),
    {
        match self {
            Provider::OpenAi => "openai",
            Provider::OpenRouter => "openrouter",
            Provider::NanoGpt => "nanogpt",
            Provider::OpenAiCompatible => "openai_compatible",
        }
    }
}

/// The provider whose canonical name is exactly `s`.
pub open spec fn canonical_provider(s: Seq<char>) -> Option<Provider> {
    if s == "openai"@ {
        Some(Provider::OpenAi)
    } else if s == "openrouter"@ {
        Some(Provider::OpenRouter)
    } else if s == "nanogpt"@ {
        Some(Provider::NanoGpt)
    } else if s == "openai_compatible"@ {
        Some(Provider::OpenAiCompatible)
    } else {
        None
    }
}

/// The provider that a free-form name stands for: trimmed, then lower-cased.
pub open spec fn normalized(raw: Seq<char>) -> Option<Provider> {
    canonical_provider(lowercased(trimmed(raw)))
}

/// Looks up a name that has already been trimmed and lower-cased.
pub fn provider_from_folded(folded: &str) -> (r: Option<Provider>)
    ensures
        r == canonical_provider(folded@),
{
    if same_text(folded, "openai") {
        Some(Provider::OpenAi)
    } else if same_text(folded, "openrouter") {
        Some(Provider::OpenRouter)
    } else if same_text(folded, "nanogpt") {
        Some(Provider::NanoGpt)
    } else if same_text(folded, "openai_compatible") {
        Some(Provider::OpenAiCompatible)
    } else {
        None
    }
}

/// Maps a free-form provider name to a supported provider, ignoring
/// surrounding whitespace and letter case.
pub fn normalize_provider(raw: &str) -> (r: Result<Provider, GatewayError>)
    ensures
        match r {
            Ok(p) => normalized(raw@) == Some(p),
            Err(e) => {
                &&& normalized(raw@) is None
                &&& e matches GatewayError::UnsupportedProvider { input }
                &&& e->input@ == raw@
            },
        },
{
    let folded = lowercase_text(trim_text(raw));
    match provider_from_folded(folded.as_str()) {
        Some(p) => Ok(p),
        None => Err(GatewayError::UnsupportedProvider { input: String::from_str(raw) }),
    }
}

/// Two names that trim and lower-case to the same text stand for the same
/// provider, or both for none.
pub proof fn lemma_normalize_ignores_case_and_space(a: Seq<char>, b: Seq<char>)
    requires
        lowercased(trimmed(a)) == lowercased(trimmed(b)),
    ensures
        normalized(a) == normalized(b),
{
}

/// Each provider's canonical name stands for it, and a folded name stands
/// for a provider only if it is that provider's canonical name; every other
/// name is unsupported.
pub proof fn lemma_canonical_names(p: Provider, s: Seq<char>)
    ensures
        canonical_provider(p.spec_name()) == Some(p),
        canonical_provider(s) == Some(p) ==> s == p.spec_name(),
        canonical_provider(s) is None <==> (s != "openai"@ && s != "openrouter"@ && s
            != "nanogpt"@ && s != "openai_compatible"@),
{
    reveal_strlit("openai");
    reveal_strlit("openrouter");
    reveal_strlit("nanogpt");
    reveal_strlit("openai_compatible");
    assert("openai"@.len() == 6);
    assert("openrouter"@.len() == 10);
    assert("nanogpt"@.len() == 7);
    assert("openai_compatible"@.len() == 17);
}

} // verus!
