//! Chat-completion requests: the outbound payload and the text of the answer.
use vstd::prelude::*;
use crate::error::GatewayError;
use crate::json::Json;
use crate::text::{trim_text, trimmed};

verus! {

/// One message of a conversation.
#[derive(Debug)]
pub struct ChatMessage {
    pub role: String,
    pub content: String,
}

/// A chat-completion request. Sampling parameters that are `None` are left
/// to the provider's defaults. `F` is the type of the fractional parameters.
#[derive(Debug)]
pub struct ChatCompletionRequest<F> {
    pub provider: String,
    pub model: String,
    pub messages: Vec<ChatMessage>,
    pub temperature: Option<F>,
    pub max_tokens: Option<u32>,
    pub top_p: Option<F>,
    pub top_k: Option<u32>,
    pub repetition_penalty: Option<F>,
    pub min_p: Option<F>,
    pub base_url: Option<String>,
}

/// One member of the outbound payload; [`PayloadField::key`] names it.
#[derive(Debug)]
pub enum PayloadField<F> {
    Model(String),
    Messages(Vec<ChatMessage>),
    Stream(bool),
    Temperature(F),
    MaxTokens(u32),
    TopP(F),
    TopK(u32),
    RepetitionPenalty(F),
    FrequencyPenalty(F),
    MinP(F),
}

impl<F> PayloadField<F> {
    pub open spec fn spec_key(&self) -> Seq<char> {
        match self {
            PayloadField::Model(_) => "model"@,
            PayloadField::Messages(_) => "messages"@,
            PayloadField::Stream(_) => "stream"@,
            PayloadField::Temperature(_) => "temperature"@,
            PayloadField::MaxTokens(_) => "max_tokens"@,
            PayloadField::TopP(_) => "top_p"@,
            PayloadField::TopK(_) => "top_k"@,
            PayloadField::RepetitionPenalty(_) => "repetition_penalty"@,
            PayloadField::FrequencyPenalty(_) => "frequency_penalty"@,
            PayloadField::MinP(_) => "min_p"@,
        }
    }

    /// The JSON member name of the field.
    pub fn key(&self) -> (r: &'static str)
        ensures
            r@ == self.spec_key(),
    {
        match self {
            PayloadField::Model(_) => "model",
            PayloadField::Messages(_) => "messages",
            PayloadField::Stream(_) => "stream",
            PayloadField::Temperature(_) => "temperature",
            PayloadField::MaxTokens(_) => "max_tokens",
            PayloadField::TopP(_) => "top_p",
            PayloadField::TopK(_) => "top_k",
            PayloadField::RepetitionPenalty(_) => "repetition_penalty",
            PayloadField::FrequencyPenalty(_) => "frequency_penalty",
            PayloadField::MinP(_) => "min_p",
        }
    }
}

pub open spec fn one_or_none<F>(field: Option<PayloadField<F>>) -> Seq<PayloadField<F>> {
    match field {
        Some(f) => seq![f],
        None => Seq::empty(),
    }
}

pub open spec fn temperature_field<F>(v: Option<F>) -> Option<PayloadField<F>> {
    match v {
        Some(x) => Some(PayloadField::Temperature(x)),
        None => None,
    }
}

pub open spec fn max_tokens_field<F>(v: Option<u32>) -> Option<PayloadField<F>> {
    match v {
        Some(x) => Some(PayloadField::MaxTokens(x)),
        None => None,
    }
}

pub open spec fn top_p_field<F>(v: Option<F>) -> Option<PayloadField<F>> {
    match v {
        Some(x) => Some(PayloadField::TopP(x)),
        None => None,
    }
}

pub open spec fn top_k_field<F>(v: Option<u32>) -> Option<PayloadField<F>> {
    match v {
        Some(x) => Some(PayloadField::TopK(x)),
        None => None,
    }
}

pub open spec fn min_p_field<F>(v: Option<F>) -> Option<PayloadField<F>> {
    match v {
        Some(x) => Some(PayloadField::MinP(x)),
        None => None,
    }
}

/// Both names under which a repetition penalty is sent.
pub open spec fn penalty_fields<F>(v: Option<F>) -> Seq<PayloadField<F>> {
    match v {
        Some(x) => seq![PayloadField::RepetitionPenalty(x), PayloadField::FrequencyPenalty(x)],
        None => Seq::empty(),
    }
}

/// The payload of a request: model, messages and `stream: false`, then each
/// sampling parameter that is present; a repetition penalty is sent both as
/// `repetition_penalty` and as `frequency_penalty`.
pub open spec fn payload_fields<F>(request: ChatCompletionRequest<F>) -> Seq<PayloadField<F>> {
    seq![
        PayloadField::Model(request.model),
        PayloadField::Messages(request.messages),
        PayloadField::Stream(false),
    ] + one_or_none(temperature_field(request.temperature)) + one_or_none(
        max_tokens_field(request.max_tokens),
    ) + one_or_none(top_p_field(request.top_p)) + one_or_none(top_k_field(request.top_k))
        + penalty_fields(request.repetition_penalty) + one_or_none(min_p_field(request.min_p))
}

/// Builds the outbound payload of a chat-completion request.
pub fn build_payload<F: Copy>(request: ChatCompletionRequest<F>) -> (r: Vec<PayloadField<F>>)
    ensures
        r@ == payload_fields(request),
{
    let ghost req = request;
    let ChatCompletionRequest {
        model,
        messages,
        temperature,
        max_tokens,
        top_p,
        top_k,
        repetition_penalty,
        min_p,
        ..
    } = request;
    let mut out: Vec<PayloadField<F>> = Vec::new();
    out.push(PayloadField::Model(model));
    out.push(PayloadField::Messages(messages));
    out.push(PayloadField::Stream(false));
    let ghost s0 = out@;
    assert(s0 =~= seq![
        PayloadField::Model(req.model),
        PayloadField::Messages(req.messages),
        PayloadField::Stream(false),
    ]);
    if let Some(v) = temperature {
        out.push(PayloadField::Temperature(v));
    }
    let ghost s1 = out@;
    assert(s1 =~= s0 + one_or_none(temperature_field(req.temperature)));
    if let Some(v) = max_tokens {
        out.push(PayloadField::MaxTokens(v));
    }
    let ghost s2 = out@;
    assert(s2 =~= s1 + one_or_none(max_tokens_field(req.max_tokens)));
    if let Some(v) = top_p {
        out.push(PayloadField::TopP(v));
    }
    let ghost s3 = out@;
    assert(s3 =~= s2 + one_or_none(top_p_field(req.top_p)));
    if let Some(v) = top_k {
        out.push(PayloadField::TopK(v));
    }
    let ghost s4 = out@;
    assert(s4 =~= s3 + one_or_none(top_k_field(req.top_k)));
    if let Some(v) = repetition_penalty {
        out.push(PayloadField::RepetitionPenalty(v));
        out.push(PayloadField::FrequencyPenalty(v));
    }
    let ghost s5 = out@;
    assert(s5 =~= s4 + penalty_fields(req.repetition_penalty));
    if let Some(v) = min_p {
        out.push(PayloadField::MinP(v));
    }
    assert(out@ =~= s5 + one_or_none(min_p_field(req.min_p)));
    out
}

/// A repetition penalty is sent under both of its names, with its value.
pub proof fn lemma_penalty_sent_twice<F>(request: ChatCompletionRequest<F>, v: F)
    requires
        request.repetition_penalty == Some(v),
    ensures
        payload_fields(request).contains(PayloadField::RepetitionPenalty(v)),
        payload_fields(request).contains(PayloadField::FrequencyPenalty(v)),
{
    let before = seq![
        PayloadField::Model(request.model),
        PayloadField::Messages(request.messages),
        PayloadField::Stream(false),
    ] + one_or_none(temperature_field(request.temperature)) + one_or_none(
        max_tokens_field(request.max_tokens),
    ) + one_or_none(top_p_field(request.top_p)) + one_or_none(top_k_field(request.top_k));
    let k = before.len() as int;
    let all = payload_fields(request);
    assert(all[k] == PayloadField::RepetitionPenalty(v));
    assert(all[k + 1] == PayloadField::FrequencyPenalty(v));
}

/// A request without sampling parameters has a payload of exactly model,
/// messages and `stream: false`.
pub proof fn lemma_minimal_payload<F>(request: ChatCompletionRequest<F>)
    requires
        request.temperature is None,
        request.max_tokens is None,
        request.top_p is None,
        request.top_k is None,
        request.repetition_penalty is None,
        request.min_p is None,
    ensures
        payload_fields(request) == seq![
            PayloadField::<F>::Model(request.model),
            PayloadField::Messages(request.messages),
            PayloadField::Stream(false),
        ],
{
    assert(payload_fields(request) =~= seq![
        PayloadField::<F>::Model(request.model),
        PayloadField::Messages(request.messages),
        PayloadField::Stream(false),
    ]);
}

/// The text that a completion answer offers: `choices[0].message.content`
/// where it is a string, else `choices[0].text` where that is one.
pub open spec fn offered_text(payload: Json) -> Option<Seq<char>> {
    match payload.field("choices"@) {
        Some(Json::Array(choices)) => if choices@.len() > 0 {
            let first = choices@[0];
            let content = match first.field("message"@) {
                Some(message) => message.str_field("content"@),
                None => None,
            };
            match content {
                Some(c) => Some(c),
                None => first.str_field("text"@),
            }
        } else {
            None
        },
        _ => None,
    }
}

/// The completion text of an answer; fails with `EmptyCompletion` where it
/// offers none or only whitespace.
pub fn extract_content(payload: &Json) -> (r: Result<String, GatewayError>)
    ensures
        match r {
            Ok(s) => offered_text(*payload) == Some(s@) && trimmed(s@).len() > 0,
            Err(e) => e is EmptyCompletion && match offered_text(*payload) {
                Some(c) => trimmed(c).len() == 0,
                None => true,
            },
        },
{
    let choices = match payload.get("choices") {
        Some(c) => match c.as_array() {
            Some(v) => v,
            None => return Err(GatewayError::EmptyCompletion),
        },
        None => return Err(GatewayError::EmptyCompletion),
    };
    if choices.len() == 0 {
        return Err(GatewayError::EmptyCompletion);
    }
    let first = &choices[0];
    let content = match first.get("message") {
        Some(message) => message.get_str("content"),
        None => None,
    };
    let text = match content {
        Some(c) => c,
        None => match first.get_str("text") {
            Some(t) => t,
            None => return Err(GatewayError::EmptyCompletion),
        },
    };
    if trim_text(text).unicode_len() == 0 {
        return Err(GatewayError::EmptyCompletion);
    }
    Ok(String::from_str(text))
}

} // verus!
