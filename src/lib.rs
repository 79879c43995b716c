//! Typed HTTP client core: request bodies and response bodies that carry
//! their own content type and byte encoding, the mapping of status codes to
//! outcomes, and the per-request exchange that buffers a response body before
//! it is decoded.

pub mod body;
pub mod error;
pub mod outcome;
pub mod pipeline;
pub mod request;

pub use body::{decode_json, json_outcome, Json, MimeType, RequestBody, ResponseBody, TextPlain};
pub use error::{HError, HResult};
pub use outcome::{
    decode_outcome, decode_response, named_outcome, spec_named_outcome, Outcome, Response, STATUS_OK,
};
pub use pipeline::{complete, Event, Exchange, Step};
pub use request::{build_empty_request, build_request, prepare, Payload};
