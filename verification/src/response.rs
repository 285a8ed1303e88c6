//! Typed replies, and the exact bodies they carry.
//!
//! Every response the service can send is one of these records; the JSON
//! bodies are rendered here character by character, so the contract of each
//! renderer states the whole document — in particular, the bad-request body
//! echoes the offending dimensions exactly as requested.

use crate::errors::ApiError;
use crate::health::{HealthSnapshot, HealthStatus};
use crate::numfmt::{dec_digits, u32_to_string, u64_to_string};
use vstd::prelude::*;
use vstd::string::StringExecFns;

verus! {

/// The payload of a reply; the variant fixes the content type.
#[derive(Debug)]
pub enum ReplyBody {
    /// Encoded image bytes.
    Image(Vec<u8>),
    /// A JSON document.
    Json(String),
    /// A plain-text diagnostic.
    Text(String),
}

/// One HTTP response, ready for the transport to send.
#[derive(Debug)]
pub struct Reply {
    pub status: u16,
    pub body: ReplyBody,
}

impl ReplyBody {
    /// The content type each payload kind is served with.
    pub open spec fn spec_content_type(self) -> Seq<char> {
        match self {
            ReplyBody::Image(_) => "image/jpeg"@,
            ReplyBody::Json(_) => "application/json"@,
            ReplyBody::Text(_) => "text/plain"@,
        }
    }

    /// The content-type header value for this payload.
    pub fn content_type(&self) -> (s: &'static str)
        ensures
            s@ == self.spec_content_type(),
    {
        match self {
            ReplyBody::Image(_) => "image/jpeg",
            ReplyBody::Json(_) => "application/json",
            ReplyBody::Text(_) => "text/plain",
        }
    }
}

impl Reply {
    /// A success reply carrying exactly these image bytes.
    pub open spec fn is_image_with(self, bytes: Seq<u8>) -> bool {
        &&& self.status == 200
        &&& self.body matches ReplyBody::Image(b) && b@ == bytes
    }
}

/// The body sent with an admission refusal.
pub open spec fn spec_rate_limited_body() -> Seq<char> {
    "{\"error\":\"Too many requests\",\"retry_after\":\"1 second\"}"@
}

/// The body sent with a rejected dimension pair: the offending values are
/// echoed exactly.
pub open spec fn spec_invalid_dims_body(width: u32, height: u32) -> Seq<char> {
    "{\"error\":\"Invalid image dimensions\",\"message\":\"Width and height must be between 1 and 3000 pixels\",\"requested\":{\"width\":"@
        + dec_digits(width as int) + ",\"height\":"@ + dec_digits(height as int) + "}}"@
}

/// Renders the admission-refusal body.
pub fn rate_limited_body() -> (s: String)
    ensures
        s@ == spec_rate_limited_body(),
{
    String::from_str("{\"error\":\"Too many requests\",\"retry_after\":\"1 second\"}")
}

/// Renders the bad-request body for a rejected dimension pair.
pub fn invalid_dims_body(width: u32, height: u32) -> (s: String)
    ensures
        s@ == spec_invalid_dims_body(width, height),
{
    let mut s = String::from_str(
        "{\"error\":\"Invalid image dimensions\",\"message\":\"Width and height must be between 1 and 3000 pixels\",\"requested\":{\"width\":",
    );
    let w = u32_to_string(width);
    s.append(w.as_str());
    s.append(",\"height\":");
    let h = u32_to_string(height);
    s.append(h.as_str());
    s.append("}}");
    s
}

/// The reply each error is reported with. Admission refusals and rejected
/// dimensions carry their JSON documents; the rest carry a terse diagnostic,
/// never a broken image.
pub fn error_reply(e: &ApiError) -> (r: Reply)
    ensures
        r.status == e.spec_http_status(),
        e is AdmissionDenied ==> (r.body matches ReplyBody::Json(b) && b@
            == spec_rate_limited_body()),
        (*e) matches ApiError::InvalidDimensions { width, height } ==> (r.body
            matches ReplyBody::Json(b) && b@ == spec_invalid_dims_body(width, height)),
        e is AssetNotFound ==> (r.body matches ReplyBody::Text(b) && b@ == "Image not found"@),
        e is CodecFailed ==> (r.body matches ReplyBody::Text(b) && b@
            == "Failed to process image"@),
        e is CacheWriteFailed ==> (r.body matches ReplyBody::Text(b) && b@
            == "Cache write failed"@),
        e is ConfigurationError ==> (r.body matches ReplyBody::Text(b) && b@
            == "Server configuration error"@),
{
    match e {
        ApiError::AdmissionDenied => Reply {
            status: 429,
            body: ReplyBody::Json(rate_limited_body()),
        },
        ApiError::InvalidDimensions { width, height } => Reply {
            status: 400,
            body: ReplyBody::Json(invalid_dims_body(*width, *height)),
        },
        ApiError::AssetNotFound => Reply {
            status: 404,
            body: ReplyBody::Text(String::from_str("Image not found")),
        },
        ApiError::CodecFailed => Reply {
            status: 500,
            body: ReplyBody::Text(String::from_str("Failed to process image")),
        },
        ApiError::CacheWriteFailed => Reply {
            status: 500,
            body: ReplyBody::Text(String::from_str("Cache write failed")),
        },
        ApiError::ConfigurationError => Reply {
            status: 500,
            body: ReplyBody::Text(String::from_str("Server configuration error")),
        },
    }
}

/// The status word a snapshot reports.
pub open spec fn spec_status_text(st: HealthStatus) -> Seq<char> {
    match st {
        HealthStatus::Healthy => "healthy"@,
        HealthStatus::Unhealthy => "unhealthy"@,
    }
}

/// The health document: status word, sample time, and the raw metrics.
pub open spec fn spec_health_body(s: HealthSnapshot) -> Seq<char> {
    "{\"status\":\""@ + spec_status_text(s.status) + "\",\"timestamp\":"@ + dec_digits(
        s.timestamp_ms as int,
    ) + ",\"metrics\":{\"memory_usage_percent\":"@ + dec_digits(s.memory_usage_percent as int)
        + ",\"total_memory_kb\":"@ + dec_digits(s.total_memory_kb as int) + ",\"used_memory_kb\":"@
        + dec_digits(s.used_memory_kb as int) + ",\"cpu_usage_percent\":"@ + dec_digits(
        s.cpu_usage_percent as int,
    ) + "}}"@
}

/// Renders the health document for one snapshot.
pub fn health_body(s: &HealthSnapshot) -> (b: String)
    ensures
        b@ == spec_health_body(*s),
{
    let mut out = String::from_str("{\"status\":\"");
    let st = match s.status {
        HealthStatus::Healthy => "healthy",
        HealthStatus::Unhealthy => "unhealthy",
    };
    out.append(st);
    out.append("\",\"timestamp\":");
    let t = u64_to_string(s.timestamp_ms);
    out.append(t.as_str());
    out.append(",\"metrics\":{\"memory_usage_percent\":");
    let mp = u64_to_string(s.memory_usage_percent);
    out.append(mp.as_str());
    out.append(",\"total_memory_kb\":");
    let tm = u64_to_string(s.total_memory_kb);
    out.append(tm.as_str());
    out.append(",\"used_memory_kb\":");
    let um = u64_to_string(s.used_memory_kb);
    out.append(um.as_str());
    out.append(",\"cpu_usage_percent\":");
    let cp = u32_to_string(s.cpu_usage_percent);
    out.append(cp.as_str());
    out.append("}}");
    out
}

} // verus!
