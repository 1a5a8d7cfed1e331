use story_gateway::{
    join_base_url, normalize_provider, provider_from_folded, resolve_chat_endpoint,
    resolve_models_endpoint, GatewayError, Provider,
};

#[test]
fn normalize_accepts_case_and_whitespace_variants() {
    for raw in ["openai", "OpenAI", "  OPENAI\t", "\nopenAI "] {
        assert_eq!(normalize_provider(raw).unwrap(), Provider::OpenAi);
    }
    assert_eq!(normalize_provider(" OpenRouter ").unwrap(), Provider::OpenRouter);
    assert_eq!(normalize_provider("NANOGPT").unwrap(), Provider::NanoGpt);
    assert_eq!(normalize_provider("OpenAI_Compatible  ").unwrap(), Provider::OpenAiCompatible);
}

#[test]
fn normalize_rejects_unknown_names() {
    for raw in ["anthropic", "", "open ai", "openai-compatible", "gpt"] {
        match normalize_provider(raw) {
            Err(GatewayError::UnsupportedProvider { input }) => assert_eq!(input, raw),
            other => panic!("unexpected result for {raw:?}: {other:?}"),
        }
    }
}

#[test]
fn folded_lookup_is_exact() {
    assert_eq!(provider_from_folded("nanogpt"), Some(Provider::NanoGpt));
    assert_eq!(provider_from_folded("NanoGPT"), None);
    assert_eq!(provider_from_folded(" nanogpt"), None);
}

#[test]
fn provider_names_are_canonical() {
    assert_eq!(Provider::OpenAi.name(), "openai");
    assert_eq!(Provider::OpenRouter.name(), "openrouter");
    assert_eq!(Provider::NanoGpt.name(), "nanogpt");
    assert_eq!(Provider::OpenAiCompatible.name(), "openai_compatible");
}

#[test]
fn compatible_chat_endpoint_needs_base_url() {
    let p = normalize_provider("openai_compatible").unwrap();
    assert!(matches!(resolve_chat_endpoint(p, None), Err(GatewayError::MissingBaseUrl)));
    assert_eq!(
        resolve_chat_endpoint(p, Some("https://x.test/v1")).unwrap(),
        "https://x.test/v1/chat/completions"
    );
}

#[test]
fn hosted_chat_endpoints_are_fixed() {
    assert_eq!(
        resolve_chat_endpoint(Provider::OpenAi, Some("https://ignored.test")).unwrap(),
        "https://api.openai.com/v1/chat/completions"
    );
    assert_eq!(
        resolve_chat_endpoint(Provider::OpenRouter, None).unwrap(),
        "https://openrouter.ai/api/v1/chat/completions"
    );
    assert_eq!(
        resolve_chat_endpoint(Provider::NanoGpt, None).unwrap(),
        "https://nano-gpt.com/api/v1/chat/completions"
    );
}

#[test]
fn join_keeps_exactly_one_slash() {
    assert_eq!(join_base_url("https://x.test/", "/models"), "https://x.test/models");
    assert_eq!(join_base_url("https://x.test", "models"), "https://x.test/models");
    assert_eq!(join_base_url("https://x.test", "/models"), "https://x.test/models");
    assert_eq!(join_base_url("https://x.test/", "models"), "https://x.test/models");
}

#[test]
fn join_absolute_route_wins() {
    assert_eq!(join_base_url("https://x.test/v1", "https://other.test/m"), "https://other.test/m");
    assert_eq!(join_base_url("", "http://other.test/m"), "http://other.test/m");
}

#[test]
fn join_strips_only_one_trailing_slash() {
    assert_eq!(join_base_url("https://x.test//", "models"), "https://x.test//models");
    assert_eq!(join_base_url("https://x.test//", "/models"), "https://x.test//models");
}

#[test]
fn models_endpoints() {
    assert_eq!(
        resolve_models_endpoint(Provider::OpenAi, None, None).unwrap(),
        "https://api.openai.com/v1/models"
    );
    assert_eq!(
        resolve_models_endpoint(Provider::OpenRouter, None, Some("/x")).unwrap(),
        "https://openrouter.ai/api/v1/models"
    );
    assert_eq!(
        resolve_models_endpoint(Provider::NanoGpt, None, None).unwrap(),
        "https://nano-gpt.com/api/v1/models"
    );
    assert_eq!(
        resolve_models_endpoint(Provider::OpenAiCompatible, Some("http://h.test/v1/"), None)
            .unwrap(),
        "http://h.test/v1/models"
    );
    assert_eq!(
        resolve_models_endpoint(Provider::OpenAiCompatible, Some("http://h.test"), Some("api/tags"))
            .unwrap(),
        "http://h.test/api/tags"
    );
    assert!(matches!(
        resolve_models_endpoint(Provider::OpenAiCompatible, None, Some("/m")),
        Err(GatewayError::MissingBaseUrl)
    ));
}
