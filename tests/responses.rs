use story_gateway::{extract_content, parse_models, value_to_u32, GatewayError, Json, Provider};

fn s(text: &str) -> Json {
    Json::Str(text.to_string())
}

fn obj(members: Vec<(&str, Json)>) -> Json {
    Json::Object(members.into_iter().map(|(k, v)| (k.to_string(), v)).collect())
}

#[test]
fn openai_models_are_filtered() {
    let payload = obj(vec![(
        "data",
        Json::Array(vec![
            obj(vec![("id", s("gpt-4"))]),
            obj(vec![("id", s("text-embed"))]),
            obj(vec![("id", s(""))]),
        ]),
    )]);
    let models = parse_models(Provider::OpenAi, &payload);
    assert_eq!(models.len(), 1);
    assert_eq!(models[0].id, "gpt-4");
    assert_eq!(models[0].name, "gpt-4");
    assert_eq!(models[0].provider, Provider::OpenAi);
    assert_eq!(models[0].context_length, None);
}

#[test]
fn payload_without_entries_lists_nothing() {
    for provider in [Provider::OpenAi, Provider::OpenRouter, Provider::NanoGpt, Provider::OpenAiCompatible] {
        assert!(parse_models(provider, &obj(vec![])).is_empty());
        assert!(parse_models(provider, &obj(vec![("data", s("x"))])).is_empty());
        assert!(parse_models(provider, &Json::Null).is_empty());
    }
}

#[test]
fn models_from_top_level_array_with_names_and_context() {
    let payload = Json::Array(vec![
        obj(vec![("id", s("  llama-3  ")), ("name", s("Llama 3")), ("context_length", Json::UInt(8192))]),
        obj(vec![("id", s("mistral")), ("context_length", Json::UInt(5_000_000_000)), ("max_context", Json::UInt(32768))]),
        obj(vec![("id", s("phi")), ("context_length", Json::OtherNumber), ("max_context", Json::UInt(5_000_000_000))]),
        obj(vec![("id", Json::UInt(3))]),
        obj(vec![("name", s("no id"))]),
        obj(vec![("id", s("   "))]),
    ]);
    let models = parse_models(Provider::OpenRouter, &payload);
    assert_eq!(models.len(), 3);
    assert_eq!(models[0].id, "llama-3");
    assert_eq!(models[0].name, "Llama 3");
    assert_eq!(models[0].context_length, Some(8192));
    assert_eq!(models[0].provider, Provider::OpenRouter);
    assert_eq!(models[1].id, "mistral");
    assert_eq!(models[1].name, "mistral");
    assert_eq!(models[1].context_length, Some(32768));
    assert_eq!(models[2].id, "phi");
    assert_eq!(models[2].context_length, None);
}

#[test]
fn data_field_takes_precedence_over_other_members() {
    let payload = obj(vec![
        ("object", s("list")),
        ("data", Json::Array(vec![obj(vec![("id", s("a")), ("max_context", Json::UInt(4096))])])),
    ]);
    let models = parse_models(Provider::NanoGpt, &payload);
    assert_eq!(models.len(), 1);
    assert_eq!(models[0].id, "a");
    assert_eq!(models[0].context_length, Some(4096));
}

#[test]
fn u32_conversion_bounds() {
    assert_eq!(value_to_u32(Some(7)), Some(7));
    assert_eq!(value_to_u32(Some(u32::MAX as u64)), Some(u32::MAX));
    assert_eq!(value_to_u32(Some(u32::MAX as u64 + 1)), None);
    assert_eq!(value_to_u32(None), None);
}

fn choices(first: Json) -> Json {
    obj(vec![("choices", Json::Array(vec![first]))])
}

#[test]
fn content_from_message() {
    let payload = choices(obj(vec![("message", obj(vec![("content", s("hi"))]))]));
    assert_eq!(extract_content(&payload).unwrap(), "hi");
}

#[test]
fn content_from_text() {
    let payload = choices(obj(vec![("text", s("hi"))]));
    assert_eq!(extract_content(&payload).unwrap(), "hi");
}

#[test]
fn empty_content_is_an_error() {
    let payload = choices(obj(vec![("message", obj(vec![("content", s(""))]))]));
    assert!(matches!(extract_content(&payload), Err(GatewayError::EmptyCompletion)));
    let blank = choices(obj(vec![("message", obj(vec![("content", s(" \n "))]))]));
    assert!(matches!(extract_content(&blank), Err(GatewayError::EmptyCompletion)));
    assert!(matches!(extract_content(&obj(vec![])), Err(GatewayError::EmptyCompletion)));
    let none = obj(vec![("choices", Json::Array(vec![]))]);
    assert!(matches!(extract_content(&none), Err(GatewayError::EmptyCompletion)));
}

#[test]
fn non_string_content_falls_back_to_text() {
    let payload = choices(obj(vec![
        ("message", obj(vec![("content", Json::Null)])),
        ("text", s(" padded ")),
    ]));
    assert_eq!(extract_content(&payload).unwrap(), " padded ");
}

#[test]
fn json_accessors() {
    let v = obj(vec![("a", s("x")), ("n", Json::UInt(3))]);
    assert_eq!(v.get_str("a"), Some("x"));
    assert_eq!(v.get_u64("n"), Some(3));
    assert_eq!(v.get_u64("a"), None);
    assert!(v.get("missing").is_none());
    assert!(s("x").get("a").is_none());
}
