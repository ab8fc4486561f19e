//! The records that travel to and from the service. They carry data and have
//! no behaviour of their own.

use serde_json::Value;
use std::collections::HashMap;
use vstd::prelude::*;

verus! {

/// An instant in UTC: whole seconds since the Unix epoch and the nanoseconds
/// into that second.
#[derive(Clone, Copy, Debug)]
pub struct Timestamp {
    pub seconds: i64,
    pub nanoseconds: u32,
}

/// A freshly issued token.
#[derive(Debug)]
pub struct GenerateResponse {
    pub success: bool,
    pub token: String,
}

/// Confirmation of a write.
#[derive(Debug)]
pub struct StoreResponse {
    pub success: bool,
    pub message: String,
    pub size: i32,
    pub tier: String,
    pub version: i32,
    pub updated_at: Timestamp,
    pub expires_at: Option<Timestamp>,
}

/// The stored document together with the version it was read at.
#[derive(Debug)]
pub struct RetrieveResponse {
    pub success: bool,
    pub data: Value,
    pub version: i32,
    pub updated_at: Timestamp,
    pub expires_at: Option<Timestamp>,
}

/// Confirmation of a removal.
#[derive(Debug)]
pub struct DeleteResponse {
    pub success: bool,
    pub message: String,
}

/// A partial update: fields to assign and fields to drop. Either part may be
/// absent, and an absent part does not appear on the wire.
#[derive(Debug)]
pub struct PatchOperations {
    pub set: Option<HashMap<String, Value>>,
    pub remove: Option<Vec<String>>,
}

/// The document after a partial update, with its new version.
#[derive(Debug)]
pub struct PatchResponse {
    pub success: bool,
    pub version: i32,
    pub updated_at: Timestamp,
    pub expires_at: Option<Timestamp>,
    pub data: Value,
    pub size: i32,
    pub tier: String,
}

/// What to ask of the event log. Each part is optional and is sent only where
/// it is present.
#[derive(Debug)]
pub struct HistoryOptions {
    pub limit: Option<i32>,
    pub before: Option<i32>,
    pub since: Option<String>,
    pub type_filter: Option<String>,
}

impl Default for HistoryOptions {
    /// Options that ask for nothing in particular.
    fn default() -> (r: HistoryOptions)
        ensures
            r.limit is None,
            r.before is None,
            r.since is None,
            r.type_filter is None,
    {
        HistoryOptions { limit: None, before: None, since: None, type_filter: None }
    }
}

/// One past event. The two measured numbers are binary64 values and travel as
/// their IEEE 754 bit patterns.
#[derive(Debug)]
pub struct HistoryEvent {
    pub seq: i32,
    pub created_at: Timestamp,
    pub expires_at: Option<Timestamp>,
    pub classified_type: Option<String>,
    pub numeric_value: Option<u64>,
    pub text_value: Option<String>,
    pub confidence: Option<u64>,
    pub payload: Value,
}

/// A page of the event log, in the order the service gave it.
#[derive(Debug)]
pub struct HistoryResponse {
    pub success: bool,
    pub events: Vec<HistoryEvent>,
    pub pagination: HistoryPagination,
}

/// Where a page of the event log stands.
#[derive(Debug)]
pub struct HistoryPagination {
    pub limit: i32,
    pub before: Option<i32>,
    pub since: Option<String>,
    pub has_more: bool,
}

/// One entry of a batch. It names its own token, so it is not bound to the
/// token of the client that submits it.
#[derive(Debug)]
pub struct BatchOperation {
    pub action: String,
    pub token: String,
    pub data: Option<Value>,
    pub ttl: Option<i32>,
    pub patch: Option<PatchOperations>,
    pub version: Option<i32>,
}

/// The outcome of one entry of a batch.
#[derive(Debug)]
pub struct BatchResult {
    pub success: bool,
    pub token: String,
    pub action: String,
    pub data: Option<Value>,
    pub version: Option<i32>,
    pub error: Option<String>,
}

/// The outcomes of a batch, in the order of its entries, and their summary.
#[derive(Debug)]
pub struct BatchResponse {
    pub success: bool,
    pub results: Vec<BatchResult>,
    pub summary: BatchSummary,
}

/// Counts over the outcomes of a batch.
#[derive(Debug)]
pub struct BatchSummary {
    pub total: i32,
    pub succeeded: i32,
    pub failed: i32,
    pub success_rate: String,
}

} // verus!
