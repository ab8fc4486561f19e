//! Client-side logic for a remote key-value store that is reached over HTTP.
//!
//! The crate decides, for every operation of the service, which request goes
//! out (method, URL, token header, body) and how a status code and a decoded
//! body become a typed result or a typed error. Sending the request and turning
//! bytes into values is left to the caller, so every function here is a total
//! function on plain values with a proved contract.

pub mod client;
pub mod error;
pub mod json;
pub mod request;
pub mod status;
pub mod text;
pub mod types;

pub use client::{Client, DEFAULT_BASE_URL, DEFAULT_TIMEOUT_SECS, MAX_BATCH_OPERATIONS};
pub use error::Error;
pub use request::{Body, Field, FieldValue, Method, Request, TOKEN_HEADER};
pub use status::StatusCode;
pub use types::{
    BatchOperation, BatchResponse, BatchResult, BatchSummary, DeleteResponse, GenerateResponse,
    HistoryEvent, HistoryOptions, HistoryPagination, HistoryResponse, PatchOperations,
    PatchResponse, RetrieveResponse, StoreResponse, Timestamp,
};
