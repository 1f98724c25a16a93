//! One chat exchange from request to record.
//!
//! A request that was received has its model selected and is dispatched
//! (`plan_chat`); the host sends it; what comes back completes the exchange
//! or fails it (`complete_chat`). A completed exchange is recorded, a failed
//! one leaves no trace.

use vstd::prelude::*;
use crate::gateway::{full_prompt, Client, GatewayError, GenerateRequest};
use crate::hardware::HardwareTier;
use crate::models::{ChatRequest, ChatResponse, MemoryEntry, Timestamp};
use crate::routing::{category_of, parse_category, Category, ModelCatalog};
use crate::store::{found, lemma_save_then_get, saved, Database};
use crate::text::{as_opt_str, clone_opt_string, opt_view};

verus! {

/// The persona that answers requests of `category`.
pub open spec fn persona(category: Category) -> Seq<char> {
    match category {
        Category::Chat => "You are a helpful AI assistant. Provide clear, concise, and accurate responses."@,
        Category::Reasoning => "You are an AI assistant specialized in logical reasoning and problem-solving. Break down complex problems step by step and provide detailed analysis."@,
        Category::Code => "You are an expert programming assistant. Provide clean, well-documented code with explanations. Consider best practices, error handling, and performance."@,
    }
}

/// The persona that answers requests of `category`.
pub fn system_prompt_for(category: Category) -> (prompt: &'static str)
    ensures
        prompt@ == persona(category),
{
    match category {
        Category::Chat => "You are a helpful AI assistant. Provide clear, concise, and accurate responses.",
        Category::Reasoning => "You are an AI assistant specialized in logical reasoning and problem-solving. Break down complex problems step by step and provide detailed analysis.",
        Category::Code => "You are an expert programming assistant. Provide clean, well-documented code with explanations. Consider best practices, error handling, and performance.",
    }
}

/// What is to be sent for a chat request: the model that serves it, and the
/// generation request with the persona of its category.
#[derive(Debug, Clone, PartialEq, Eq)]
pub struct Dispatch {
    pub model: String,
    pub request: GenerateRequest,
}

/// A served chat request: the answer for the caller, and the record of the
/// exchange for the history.
#[derive(Debug, Clone, PartialEq, Eq)]
pub struct Completed {
    pub response: ChatResponse,
    pub record: MemoryEntry,
}

/// `record` is the record of the exchange of `request` and `text`: it holds
/// the message, the generated text and the category label as they are.
pub open spec fn records(record: MemoryEntry, request: ChatRequest, text: String) -> bool {
    &&& record.message == request.message
    &&& record.response == text
    &&& record.message_type == request.message_type
}

/// Selects the model for `request` on a machine of `tier` by `catalog` and
/// builds the generation request: the persona of the request's category,
/// then the request's message.
pub fn plan_chat(client: &Client, catalog: &ModelCatalog, request: &ChatRequest, tier: HardwareTier) -> (dispatch:
    Dispatch)
    ensures
        dispatch.model@ == catalog.routed(*request, tier),
        dispatch.model@.len() > 0,
        dispatch.request.model@ == dispatch.model@,
        dispatch.request.prompt@ == full_prompt(
            persona(category_of(opt_view(request.message_type))),
            request.message@,
        ),
        !dispatch.request.stream,
{
    let model = catalog.select_for_request(request, tier);
    let category = parse_category(as_opt_str(&request.message_type));
    let generate = client.generate_request(
        model.as_str(),
        system_prompt_for(category),
        request.message.as_str(),
    );
    Dispatch { model, request: generate }
}

/// Concludes the exchange of `request`, which `model` served with `outcome`,
/// under the id `id` at the moment `now`. A generated text gives the answer
/// for the caller and the record of the exchange; a failure is handed on,
/// and there is nothing to record.
pub fn conclude_chat(
    request: &ChatRequest,
    model: String,
    outcome: Result<String, GatewayError>,
    id: String,
    now: Timestamp,
) -> (result: Result<Completed, GatewayError>)
    ensures
        match outcome {
            Ok(text) => result matches Ok(done) && done.response == (ChatResponse {
                response: text,
                model_used: model,
            }) && done.record.id == id && done.record.timestamp == now && records(
                done.record,
                *request,
                text,
            ),
            Err(error) => result == Err::<Completed, GatewayError>(error),
        },
{
    match outcome {
        Ok(text) => {
            let record = MemoryEntry {
                id,
                message: request.message.clone(),
                response: text.clone(),
                timestamp: now,
                message_type: clone_opt_string(&request.message_type),
            };
            Ok(Completed { response: ChatResponse { response: text, model_used: model }, record })
        },
        Err(error) => Err(error),
    }
}

/// A new id for a record.
///
/// Trusted: calls `uuid::Uuid::new_v4` and writes the value with its
/// `Display`, which is the hyphenated form: 32 hexadecimal digits and four
/// hyphens. Which digits they are is left open.
#[verifier::external_body]
fn fresh_id() -> (id: String)
    ensures
        id@.len() == 36,
{
    uuid::Uuid::new_v4().to_string()
}

/// The present moment.
///
/// Trusted: calls `chrono::Utc::now` and reads the value with `timestamp`
/// and `timestamp_subsec_nanos`. Nothing is claimed of the moment.
#[verifier::external_body]
fn current_time() -> (now: Timestamp) {
    let now = chrono::Utc::now();
    Timestamp { secs: now.timestamp(), nanos: now.timestamp_subsec_nanos() }
}

/// Concludes the exchange of `request`, which `model` served with `outcome`,
/// and records it in `history` under a new id at the present moment. On a
/// failure the history stays as it is and the failure is handed on.
pub fn complete_chat(
    history: &mut Database,
    request: &ChatRequest,
    model: String,
    outcome: Result<String, GatewayError>,
) -> (result: Result<Completed, GatewayError>)
    requires
        old(history).wf(),
    ensures
        final(history).wf(),
        match outcome {
            Ok(text) => result matches Ok(done) && done.response == (ChatResponse {
                response: text,
                model_used: model,
            }) && done.record.id@.len() > 0 && records(done.record, *request, text) && final(history)@
                == saved(old(history)@, done.record) && found(final(history)@, done.record.id@) == Some(
                done.record,
            ),
            Err(error) => result == Err::<Completed, GatewayError>(error) && final(history)@ == old(history)@,
        },
{
    let id = fresh_id();
    let now = current_time();
    let result = conclude_chat(request, model, outcome, id, now);
    match &result {
        Ok(done) => {
            proof {
                lemma_save_then_get(history@, done.record);
            }
            let written = history.save_memory(&done.record);
            assert(written.is_ok());
        },
        Err(_) => {},
    }
    result
}

} // verus!
