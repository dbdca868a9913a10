//! What the caller is told: the answer to each request, as plain values
//! that an HTTP layer can send as they are.

use crate::config::Config;
use crate::service::{ResolveResult, ShortenResult};
use vstd::prelude::*;
use vstd::string::StringExecFns;

verus! {

/// HTTP status of an answer that was produced as intended.
pub const STATUS_OK: u16 = 200;

/// HTTP status of a redirect.
pub const STATUS_FOUND: u16 = 302;

/// HTTP status of the answer for a corrupt entry.
pub const STATUS_BAD_REQUEST: u16 = 400;

/// HTTP status of the answer for a code that is unbound or expired.
pub const STATUS_NOT_FOUND: u16 = 404;

/// HTTP status of the answer after a failure of the store.
pub const STATUS_INTERNAL_SERVER_ERROR: u16 = 500;

/// Code of a successful answer.
pub const CODE_OK: i32 = 0;

/// Code of an answer to a request with an invalid URL.
pub const CODE_INVALID_URL: i32 = 1;

/// Code of an answer that asks to try again after a collision.
pub const CODE_COLLISION: i32 = 1001;

/// Code of an answer after a failure of the store.
pub const CODE_STORE_ERROR: i32 = 1002;

/// The payload of a successful shortening.
#[derive(Clone, Debug, PartialEq, Eq)]
pub struct UrlData {
    pub short_url: String,
    pub url: String,
}

/// The answer to a shortening request.
#[derive(Clone, Debug, PartialEq, Eq)]
pub struct ShortenReply {
    /// HTTP status.
    pub status: u16,
    /// Zero on success, else what went wrong.
    pub code: i32,
    /// Message for the client; empty on success.
    pub msg: String,
    /// The short URL and the long one, on success.
    pub data: Option<UrlData>,
}

/// The answer to a resolution request.
#[derive(Clone, Debug, PartialEq, Eq)]
pub struct ResolveReply {
    /// HTTP status.
    pub status: u16,
    /// Where to redirect to, if anywhere.
    pub location: Option<String>,
    /// Text for the client.
    pub body: String,
}

/// The message about a text that is no valid URL.
pub open spec fn invalid_url_message(text: Seq<char>) -> Seq<char> {
    "invalid url found: "@ + text
}

/// The status of the answer to a shortening request: only a failure of the
/// store is a server error.
pub open spec fn shorten_status(result: ShortenResult) -> u16 {
    match result {
        ShortenResult::StoreError => STATUS_INTERNAL_SERVER_ERROR,
        _ => STATUS_OK,
    }
}

/// The code of the answer to a shortening request.
pub open spec fn shorten_code(result: ShortenResult) -> i32 {
    match result {
        ShortenResult::Created { .. } => CODE_OK,
        ShortenResult::InvalidInput { .. } => CODE_INVALID_URL,
        ShortenResult::CollisionRetry => CODE_COLLISION,
        ShortenResult::StoreError => CODE_STORE_ERROR,
    }
}

/// The message of the answer to a shortening request.
pub open spec fn shorten_message(result: ShortenResult) -> Seq<char> {
    match result {
        ShortenResult::Created { .. } => Seq::empty(),
        ShortenResult::InvalidInput { reason } => invalid_url_message(reason@),
        ShortenResult::CollisionRetry => "please try again"@,
        ShortenResult::StoreError => "runtime error, please try again"@,
    }
}

/// Builds the answer to a shortening request from its result.
pub fn shorten_reply(cfg: &Config, result: ShortenResult) -> (reply: ShortenReply)
    ensures
        reply.status == shorten_status(result),
        reply.code == shorten_code(result),
        reply.msg@ == shorten_message(result),
        match result {
            ShortenResult::Created { short_code, long_url } => (reply.data matches Some(d)
                && d.short_url@ == cfg.domain_prefix@ + "/"@ + short_code@ && d.url == long_url),
            _ => reply.data is None,
        },
{
    match result {
        ShortenResult::Created { short_code, long_url } => ShortenReply {
            status: STATUS_OK,
            code: CODE_OK,
            msg: String::new(),
            data: Some(UrlData { short_url: cfg.short_url(short_code.as_str()), url: long_url }),
        },
        ShortenResult::InvalidInput { reason } => ShortenReply {
            status: STATUS_OK,
            code: CODE_INVALID_URL,
            msg: String::from_str("invalid url found: ").concat(reason.as_str()),
            data: None,
        },
        ShortenResult::CollisionRetry => ShortenReply {
            status: STATUS_OK,
            code: CODE_COLLISION,
            msg: String::from_str("please try again"),
            data: None,
        },
        ShortenResult::StoreError => ShortenReply {
            status: STATUS_INTERNAL_SERVER_ERROR,
            code: CODE_STORE_ERROR,
            msg: String::from_str("runtime error, please try again"),
            data: None,
        },
    }
}

/// Builds the answer to the resolution of `code` from its result: a
/// redirect to the long URL, or an error that tells a missing code from a
/// corrupt entry.
pub fn resolve_reply(code: &str, result: ResolveResult) -> (reply: ResolveReply)
    ensures
        match result {
            ResolveResult::Redirect { long_url } => reply.status == STATUS_FOUND && reply.location
                == Some(long_url) && reply.body@ == Seq::<char>::empty(),
            ResolveResult::NotFound => reply.status == STATUS_NOT_FOUND && reply.location is None
                && reply.body@ == "not found or expired"@,
            ResolveResult::CorruptEntry => reply.status == STATUS_BAD_REQUEST
                && reply.location is None && reply.body@ == invalid_url_message(code@),
        },
{
    match result {
        ResolveResult::Redirect { long_url } => ResolveReply {
            status: STATUS_FOUND,
            location: Some(long_url),
            body: String::new(),
        },
        ResolveResult::NotFound => ResolveReply {
            status: STATUS_NOT_FOUND,
            location: None,
            body: String::from_str("not found or expired"),
        },
        ResolveResult::CorruptEntry => ResolveReply {
            status: STATUS_BAD_REQUEST,
            location: None,
            body: String::from_str("invalid url found: ").concat(code),
        },
    }
}

} // verus!
