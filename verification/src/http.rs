use vstd::prelude::*;

verus! {

pub const STATUS_OK: u16 = 200;

pub const STATUS_NOT_FOUND: u16 = 404;

pub const STATUS_INTERNAL_ERROR: u16 = 500;

pub const STATUS_UNAVAILABLE: u16 = 503;

/// A response body: rendered text or raw asset bytes.
pub enum Body {
    Text(String),
    Bytes(Vec<u8>),
}

/// The parts of an HTTP response that this library decides: the status code,
/// an optional content type, and the body.
pub struct HttpResponse {
    pub status: u16,
    pub content_type: Option<String>,
    pub body: Body,
}

/// True when `r` is an empty-bodied response with the given status and no
/// content type.
pub open spec fn is_plain_status(r: HttpResponse, status: u16) -> bool {
    &&& r.status == status
    &&& r.content_type is None
    &&& r.body matches Body::Text(t) && t@.len() == 0
}

/// An empty-bodied response carrying only a status code.
pub fn plain_status(status: u16) -> (r: HttpResponse)
    ensures
        is_plain_status(r, status),
{
    HttpResponse { status, content_type: None, body: Body::Text(String::new()) }
}

} // verus!
