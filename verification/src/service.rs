//! What the service answers on each of its routes, given what the host
//! fetched for it.

use vstd::prelude::*;
use crate::chat::{complete_chat, records, Completed};
use crate::gateway::GatewayError;
use crate::hardware::{gpu_views, tier_label, tier_name, tier_of, max_known_vram, HardwareInfo};
use crate::models::{ChatRequest, ChatResponse, MemoryEntry, SearchRequest, SearchResponse, SearchResult};
use crate::probe::HardwareDetector;
use crate::store::{found, page, saved, Database};

verus! {

/// Records on a page of the history where the caller names no number.
pub const DEFAULT_LIMIT: u32 = 50;

/// Records that a page of the history skips where the caller names no number.
pub const DEFAULT_OFFSET: u32 = 0;

/// Why a route has no answer. The caller learns the kind and nothing else.
#[derive(Debug, Clone, Copy, PartialEq, Eq, Structural)]
pub enum ApiError {
    /// Nothing is recorded under the id.
    NotFound,
    /// The service failed.
    Internal,
}

/// The paging of a listing, as far as the caller names it.
#[derive(Debug, Clone, Copy, PartialEq, Eq, Structural)]
pub struct MemoryQuery {
    pub limit: Option<u32>,
    pub offset: Option<u32>,
}

/// The tier of the host by name, and its profile.
#[derive(Debug, Clone, PartialEq, Eq)]
pub struct HardwareReport {
    pub tier: String,
    pub details: HardwareInfo,
}

/// The status code that answers a failure.
pub open spec fn status_of(error: ApiError) -> u16 {
    match error {
        ApiError::NotFound => 404,
        ApiError::Internal => 500,
    }
}

impl ApiError {
    /// The status code that answers this failure.
    pub fn status_code(&self) -> (code: u16)
        ensures
            code == status_of(*self),
    {
        match self {
            ApiError::NotFound => 404,
            ApiError::Internal => 500,
        }
    }
}

impl MemoryQuery {
    /// The number of records on the page.
    pub open spec fn limit_or_default(&self) -> u32 {
        match self.limit {
            Some(n) => n,
            None => DEFAULT_LIMIT,
        }
    }

    /// The number of records that the page skips.
    pub open spec fn offset_or_default(&self) -> u32 {
        match self.offset {
            Some(n) => n,
            None => DEFAULT_OFFSET,
        }
    }
}

/// The answer to a liveness check.
pub fn health_check() -> (answer: &'static str)
    ensures
        answer@ == "OK"@,
{
    "OK"
}

/// The tier of the host and its profile, by the readings of `detector`.
pub fn get_hardware_info(detector: &HardwareDetector) -> (report: HardwareReport)
    ensures
        report.tier@ == tier_label(
            tier_of(
                detector.npu(),
                max_known_vram(detector.gpus()),
                detector.readings().total_memory_bytes as nat,
            ),
        ),
        report.details.total_memory_bytes == detector.readings().total_memory_bytes,
        report.details.cpu_count == detector.readings().cpu_count,
        report.details.cpu_brand@ == detector.readings().cpu_brand@,
        gpu_views(report.details.gpu_info@) == detector.gpus(),
        report.details.npu_detected == detector.npu(),
{
    let tier = detector.detect_tier();
    let details = detector.get_detailed_info();
    HardwareReport { tier: tier_name(tier).to_owned(), details }
}

/// One page of the history, newest first. Where the caller names no limit
/// the page holds up to 50 records; where it names no offset it skips none.
pub fn get_memory(history: &Database, query: &MemoryQuery) -> (entries: Vec<MemoryEntry>)
    ensures
        entries@ == page(history@, query.limit_or_default() as nat, query.offset_or_default() as nat),
{
    let limit = match query.limit {
        Some(n) => n,
        None => DEFAULT_LIMIT,
    };
    let offset = match query.offset {
        Some(n) => n,
        None => DEFAULT_OFFSET,
    };
    history.get_memory(limit, offset)
}

/// The record with `id`, or `NotFound` where there is none.
pub fn get_memory_by_id(history: &Database, id: &str) -> (result: Result<MemoryEntry, ApiError>)
    ensures
        match found(history@, id@) {
            Some(entry) => result == Ok::<MemoryEntry, ApiError>(entry),
            None => result == Err::<MemoryEntry, ApiError>(ApiError::NotFound),
        },
{
    match history.get_memory_by_id(id) {
        Some(entry) => Ok(entry),
        None => Err(ApiError::NotFound),
    }
}

/// Writes `entry` to the history and hands it back. A record without an id
/// is refused with `Internal`, and the history stays as it is.
pub fn save_memory(history: &mut Database, entry: MemoryEntry) -> (result: Result<MemoryEntry, ApiError>)
    requires
        old(history).wf(),
    ensures
        final(history).wf(),
        entry.id@.len() > 0 ==> result == Ok::<MemoryEntry, ApiError>(entry) && final(history)@ == saved(
            old(history)@,
            entry,
        ),
        entry.id@.len() == 0 ==> result == Err::<MemoryEntry, ApiError>(ApiError::Internal) && final(history)@ == old(history)@,
{
    match history.save_memory(&entry) {
        Ok(_) => Ok(entry),
        Err(_) => Err(ApiError::Internal),
    }
}

/// The answer to a search while no index exists: no hits, and the query
/// handed back as it came.
pub fn search_handler(request: SearchRequest) -> (response: SearchResponse)
    ensures
        response.results@ == Seq::<SearchResult>::empty(),
        response.query == request.query,
        response.total_results == 0,
{
    SearchResponse { results: Vec::new(), query: request.query, total_results: 0 }
}

/// Concludes the exchange of `request`, which `model` served with
/// `outcome`. A generated text is recorded in `history` and answered with
/// the model's name. A failure is answered with `Internal`, which tells
/// nothing of its cause, and nothing is recorded.
pub fn chat_handler(
    history: &mut Database,
    request: &ChatRequest,
    model: String,
    outcome: Result<String, GatewayError>,
) -> (result: Result<Completed, ApiError>)
    requires
        old(history).wf(),
    ensures
        final(history).wf(),
        match outcome {
            Ok(text) => result matches Ok(done) && done.response == (ChatResponse {
                response: text,
                model_used: model,
            }) && done.record.id@.len() > 0 && records(done.record, *request, text) && final(history)@
                == saved(old(history)@, done.record) && found(final(history)@, done.record.id@) == Some(
                done.record,
            ),
            Err(_) => result == Err::<Completed, ApiError>(ApiError::Internal) && final(history)@ == old(history)@,
        },
{
    match complete_chat(history, request, model, outcome) {
        Ok(done) => Ok(done),
        Err(_) => Err(ApiError::Internal),
    }
}

} // verus!
