use vstd::prelude::*;
use crate::method::HttpMethod;

verus! {

/// HTTP status of a request whose body is over the configured limit.
pub const PAYLOAD_TOO_LARGE: u16 = 413;

/// Seconds for which browsers may cache a CORS preflight answer.
pub const CORS_MAX_AGE_SECS: u64 = 86400;

/// One stage of the request pipeline.
#[derive(Clone, Copy, Debug, PartialEq, Eq, Structural)]
pub enum Stage {
    /// Marks the `Authorization` header so that its value is never logged.
    SensitiveHeaders,
    /// Opens one span per request, named by the matched route template.
    Trace,
    /// Compresses responses.
    Compression,
    /// Replaces method-not-allowed responses with the `Unrecognized` envelope.
    MethodCorrection,
    /// Applies the cross-origin policy.
    Cors,
    /// Rejects request bodies over `max_bytes`.
    BodyLimit { max_bytes: usize },
}

/// The stages from outermost to innermost.
pub open spec fn pipeline_stages(max_bytes: usize) -> Seq<Stage> {
    seq![
        Stage::SensitiveHeaders,
        Stage::Trace,
        Stage::Compression,
        Stage::MethodCorrection,
        Stage::Cors,
        Stage::BodyLimit { max_bytes },
    ]
}

/// The request pipeline, outermost stage first, with a body limit of `max_bytes`.
pub fn pipeline(max_bytes: usize) -> (r: Vec<Stage>)
    ensures
        r@ == pipeline_stages(max_bytes),
{
    let r = vec![
        Stage::SensitiveHeaders,
        Stage::Trace,
        Stage::Compression,
        Stage::MethodCorrection,
        Stage::Cors,
        Stage::BodyLimit { max_bytes },
    ];
    assert(r@ =~= pipeline_stages(max_bytes));
    r
}

/// The body limit in bytes for a configured maximum request size, if the
/// platform's sizes can hold it.
pub fn body_limit(max_request_size: u32) -> (r: Option<usize>)
    ensures
        r is Some <==> max_request_size as int <= usize::MAX as int,
        r matches Some(n) ==> n as int == max_request_size as int,
{
    if (max_request_size as u64) <= (usize::MAX as u64) {
        Some(max_request_size as usize)
    } else {
        None
    }
}

/// Admission of a request body of `len` bytes under a limit of `limit` bytes: bodies
/// over the limit are refused with a payload-too-large status before any handler runs.
pub fn check_body(limit: usize, len: usize) -> (r: Result<(), u16>)
    ensures
        r is Ok <==> len <= limit,
        r matches Err(s) ==> s == PAYLOAD_TOO_LARGE,
{
    if len <= limit {
        Ok(())
    } else {
        Err(PAYLOAD_TOO_LARGE)
    }
}

/// The path that a request's tracing span carries: the matched route template when
/// routing found one, else the raw path of the URI.
pub fn span_path(matched: Option<&str>, uri_path: &str) -> (r: String)
    ensures
        r@ == (match matched {
            Some(m) => m@,
            None => uri_path@,
        }),
{
    match matched {
        Some(m) => m.to_string(),
        None => uri_path.to_string(),
    }
}

/// The cross-origin policy.
#[derive(Clone, Debug)]
pub struct CorsPolicy {
    pub allow_any_origin: bool,
    pub allowed_methods: Vec<HttpMethod>,
    pub allowed_headers: Vec<String>,
    pub max_age_secs: u64,
}

/// The methods that cross-origin requests may use.
pub open spec fn cors_methods() -> Seq<HttpMethod> {
    seq![HttpMethod::Get, HttpMethod::Post, HttpMethod::Put, HttpMethod::Delete, HttpMethod::Options]
}

/// The request headers that cross-origin requests may send.
pub open spec fn cors_headers() -> Seq<Seq<char>> {
    seq!["origin"@, "x-requested-with"@, "content-type"@, "accept"@, "authorization"@]
}

/// The policy: any origin, the methods of `cors_methods`, the headers of
/// `cors_headers`, and preflight answers cached for a day.
pub fn cors_policy() -> (r: CorsPolicy)
    ensures
        r.allow_any_origin,
        r.allowed_methods@ == cors_methods(),
        r.allowed_headers@.map_values(|h: String| h@) == cors_headers(),
        r.max_age_secs == CORS_MAX_AGE_SECS,
{
    let allowed_methods = vec![
        HttpMethod::Get,
        HttpMethod::Post,
        HttpMethod::Put,
        HttpMethod::Delete,
        HttpMethod::Options,
    ];
    let allowed_headers = vec![
        "origin".to_string(),
        "x-requested-with".to_string(),
        "content-type".to_string(),
        "accept".to_string(),
        "authorization".to_string(),
    ];
    assert(allowed_methods@ =~= cors_methods());
    assert(allowed_headers@.map_values(|h: String| h@) =~= cors_headers());
    CorsPolicy { allow_any_origin: true, allowed_methods, allowed_headers, max_age_secs: CORS_MAX_AGE_SECS }
}

} // verus!
