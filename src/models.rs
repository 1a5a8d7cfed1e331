//! Normalisation of the model lists that providers return.
use vstd::prelude::*;
use crate::json::Json;
use crate::provider::Provider;
use crate::text::{has_prefix, starts_with, trim_text, trimmed};

verus! {

/// One model offered by a provider.
#[derive(Debug)]
pub struct ProviderModel {
    pub id: String,
    pub name: String,
    pub provider: Provider,
    pub context_length: Option<u32>,
}

/// A model as its parts: id, display name, provider and context length.
pub type ModelParts = (Seq<char>, Seq<char>, Provider, Option<u32>);

impl View for ProviderModel {
    type V = ModelParts;

    open spec fn view(&self) -> ModelParts {
        (self.id@, self.name@, self.provider, self.context_length)
    }
}

/// The value, where it fits in 32 bits.
pub open spec fn fit_u32(value: Option<u64>) -> Option<u32> {
    match value {
        Some(v) => if v <= u32::MAX {
            Some(v as u32)
        } else {
            None
        },
        None => None,
    }
}

/// The entries of a model-list payload: its `data` array, else the payload
/// itself where it is an array, else none.
pub open spec fn model_entries(payload: Json) -> Seq<Json> {
    match payload.field("data"@) {
        Some(Json::Array(items)) => items@,
        _ => match payload {
            Json::Array(items) => items@,
            _ => Seq::empty(),
        },
    }
}

/// The context length of an entry: `context_length`, else `max_context`,
/// each only where it is an integer that fits in 32 bits.
pub open spec fn context_length_of(item: Json) -> Option<u32> {
    match fit_u32(item.u64_field("context_length"@)) {
        Some(n) => Some(n),
        None => fit_u32(item.u64_field("max_context"@)),
    }
}

/// Whether a provider lists a model of this (trimmed, non-empty) id.
pub open spec fn keeps_id(provider: Provider, id: Seq<char>) -> bool {
    id.len() > 0 && (provider != Provider::OpenAi || starts_with(id, "gpt"@))
}

/// The model that one entry describes, if it is kept.
pub open spec fn describe(provider: Provider, item: Json) -> Option<ModelParts> {
    match item.str_field("id"@) {
        Some(raw) => {
            let id = trimmed(raw);
            if keeps_id(provider, id) {
                let name = match item.str_field("name"@) {
                    Some(n) => n,
                    None => id,
                };
                Some((id, name, provider, context_length_of(item)))
            } else {
                None
            }
        },
        None => None,
    }
}

/// The models that a sequence of entries describes, in order.
pub open spec fn described(provider: Provider, items: Seq<Json>) -> Seq<ModelParts>
    decreases items.len(),
{
    if items.len() == 0 {
        Seq::empty()
    } else {
        let before = described(provider, items.drop_last());
        match describe(provider, items.last()) {
            Some(m) => before.push(m),
            None => before,
        }
    }
}

pub fn value_to_u32(value: Option<u64>) -> (r: Option<u32>)
    ensures
        r == fit_u32(value),
{
    match value {
        Some(v) => if v <= u32::MAX as u64 {
            Some(v as u32)
        } else {
            None
        },
        None => None,
    }
}

fn describe_entry(provider: Provider, item: &Json) -> (r: Option<ProviderModel>)
    ensures
        match r {
            Some(m) => describe(provider, *item) == Some(m@),
            None => describe(provider, *item) is None,
        },
{
    let raw = match item.get_str("id") {
        Some(raw) => raw,
        None => return None,
    };
    let id = trim_text(raw);
    if id.unicode_len() == 0 {
        return None;
    }
    if provider == Provider::OpenAi && !has_prefix(id, "gpt") {
        return None;
    }
    let name = match item.get_str("name") {
        Some(n) => String::from_str(n),
        None => String::from_str(id),
    };
    let context_length = match value_to_u32(item.get_u64("context_length")) {
        Some(n) => Some(n),
        None => value_to_u32(item.get_u64("max_context")),
    };
    Some(ProviderModel { id: String::from_str(id), name, provider, context_length })
}

/// The models listed in a provider's payload. Entries without an id, with an
/// empty one, or (for OpenAI) with one not starting with `gpt` are left out;
/// a payload of any other shape lists none.
pub fn parse_models(provider: Provider, payload: &Json) -> (r: Vec<ProviderModel>)
    ensures
        r@.map_values(|m: ProviderModel| m@) == described(provider, model_entries(*payload)),
{
    let empty: Vec<Json> = Vec::new();
    let top = match payload.as_array() {
        Some(v) => v,
        None => &empty,
    };
    let items = match payload.get("data") {
        Some(data) => match data.as_array() {
            Some(v) => v,
            None => top,
        },
        None => top,
    };
    assert(items@ == model_entries(*payload));
    let mut out: Vec<ProviderModel> = Vec::new();
    let mut i: usize = 0;
    assert(items@.subrange(0, 0) =~= Seq::<Json>::empty());
    while i < items.len()
        invariant
            i <= items@.len(),
            out@.map_values(|m: ProviderModel| m@) == described(provider, items@.subrange(0, i as int)),
        decreases items@.len() - i,
    {
        proof {
            let seen = items@.subrange(0, i + 1);
            assert(seen.drop_last() =~= items@.subrange(0, i as int));
            assert(seen.last() == items@[i as int]);
        }
        let ghost before = out@;
        match describe_entry(provider, &items[i]) {
            Some(m) => {
                out.push(m);
                assert(out@.map_values(|m: ProviderModel| m@) =~= before.map_values(
                    |m: ProviderModel| m@,
                ).push(m@));
            },
            None => {},
        }
        i = i + 1;
    }
    assert(items@.subrange(0, items@.len() as int) =~= items@);
    out
}

/// A payload with no `data` array that is not an array itself lists no
/// models, for every provider.
pub proof fn lemma_shapeless_payload_lists_nothing(provider: Provider, payload: Json)
    requires
        !(payload.field("data"@) matches Some(Json::Array(_))),
        !(payload is Array),
    ensures
        described(provider, model_entries(payload)) == Seq::<ModelParts>::empty(),
{
}

} // verus!
