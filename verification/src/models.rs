//! The values that travel between the client, the gateway and the history.

use vstd::prelude::*;
use crate::text::clone_opt_string;

verus! {

/// One turn of an earlier exchange.
#[derive(Debug, Clone, PartialEq, Eq)]
pub struct ChatMessage {
    pub role: String,
    pub content: String,
}

/// A request for a completion. `message_type` is "chat", "code" or "reasoning";
/// anything else, or nothing, counts as "chat".
#[derive(Debug, Clone, PartialEq, Eq)]
pub struct ChatRequest {
    pub message: String,
    pub message_type: Option<String>,
    pub context: Option<Vec<ChatMessage>>,
    pub model_override: Option<String>,
}

/// The generated text and the model that wrote it.
#[derive(Debug, Clone, PartialEq, Eq)]
pub struct ChatResponse {
    pub response: String,
    pub model_used: String,
}

/// A moment in time: seconds since the Unix epoch and the nanoseconds within
/// that second. Moments are ordered by seconds first, then nanoseconds.
#[derive(Debug, Clone, Copy, PartialEq, Eq, Structural)]
pub struct Timestamp {
    pub secs: i64,
    pub nanos: u32,
}

impl Timestamp {
    /// `self` is strictly earlier than `other`.
    pub open spec fn before(self, other: Timestamp) -> bool {
        self.secs < other.secs || (self.secs == other.secs && self.nanos < other.nanos)
    }

    /// Whether `self` is strictly earlier than `other`.
    pub fn is_before(self, other: Timestamp) -> (earlier: bool)
        ensures
            earlier == self.before(other),
    {
        self.secs < other.secs || (self.secs == other.secs && self.nanos < other.nanos)
    }
}

/// One recorded exchange.
#[derive(Debug, PartialEq, Eq)]
pub struct MemoryEntry {
    pub id: String,
    pub message: String,
    pub response: String,
    pub timestamp: Timestamp,
    pub message_type: Option<String>,
}

impl Clone for MemoryEntry {
    fn clone(&self) -> (copy: Self)
        ensures
            copy == *self,
    {
        MemoryEntry {
            id: self.id.clone(),
            message: self.message.clone(),
            response: self.response.clone(),
            timestamp: self.timestamp,
            message_type: clone_opt_string(&self.message_type),
        }
    }
}

/// Restrictions on a search.
#[derive(Debug, Clone, PartialEq, Eq)]
pub struct SearchFilters {
    pub message_type: Option<String>,
    pub date_from: Option<Timestamp>,
    pub date_to: Option<Timestamp>,
}

/// A search over the history.
#[derive(Debug, Clone, PartialEq, Eq)]
pub struct SearchRequest {
    pub query: String,
    pub limit: Option<u32>,
    pub filters: Option<SearchFilters>,
}

/// One hit of a search. The relevance is in thousandths, 1000 for a full match.
#[derive(Debug, Clone, PartialEq, Eq)]
pub struct SearchResult {
    pub id: String,
    pub message: String,
    pub response: String,
    pub timestamp: Timestamp,
    pub relevance_permille: u32,
}

/// The hits of a search, with the query that they answer.
#[derive(Debug, Clone, PartialEq, Eq)]
pub struct SearchResponse {
    pub results: Vec<SearchResult>,
    pub query: String,
    pub total_results: u32,
}

/// How a model is packaged.
#[derive(Debug, Clone, PartialEq, Eq)]
pub struct ModelDetails {
    pub format: String,
    pub family: String,
    pub families: Option<Vec<String>>,
    pub parameter_size: String,
    pub quantization_level: String,
}

/// A model that the inference server holds.
#[derive(Debug, Clone, PartialEq, Eq)]
pub struct ModelInfo {
    pub name: String,
    pub size: String,
    pub modified: Timestamp,
    pub digest: String,
    pub details: ModelDetails,
}

} // verus!
