//! What a request's headers tell about it (its correlation id, the client's
//! address and agent), the ids it carries, and the key that makes an outbox
//! event idempotent.
use vstd::prelude::*;
use crate::errors::{ErrorCode, RpcError, STATUS_BAD_REQUEST};
use crate::text::{before_char, before_first, concat, opt_view, to_owned, trim, trim_seq};

verus! {

/// Makes a fresh random (version 4) UUID and renders it in the usual
/// hyphenated form (`uuid::Uuid::new_v4().to_string()`), which is 36
/// characters long and which `uuid::Uuid::parse_str` reads back. The value
/// is random; nothing else is stated of it.
#[verifier::external_body]
pub(crate) fn new_uuid_string() -> (r: String)
    ensures
        r@.len() == 36,
        uuid_parses(r@),
{
    uuid::Uuid::new_v4().to_string()
}

/// A name for whether `uuid::Uuid::parse_str` accepts `s`; the answer
/// depends on the text alone.
pub uninterp spec fn uuid_parses(s: Seq<char>) -> bool;

/// Calls `uuid::Uuid::parse_str` and tells whether it succeeded. The
/// contract names the answer `uuid_parses`.
#[verifier::external_body]
pub(crate) fn is_uuid(s: &str) -> (r: bool)
    ensures
        r == uuid_parses(s@),
{
    uuid::Uuid::parse_str(s).is_ok()
}

/// An id field must be a UUID; otherwise 400 "<field> is invalid".
pub fn check_uuid(value: &str, field: &str) -> (r: Result<(), RpcError>)
    ensures
        r is Ok <==> uuid_parses(value@),
        r matches Err(e) ==> e.status == STATUS_BAD_REQUEST && e.error.code
            == ErrorCode::InvalidArgument && e.error.message@ == field@ + " is invalid"@,
{
    if is_uuid(value) {
        Ok(())
    } else {
        let message = concat(field, " is invalid");
        Err(RpcError::invalid_argument(message.as_str()))
    }
}

/// The correlation id of a request: its `x-request-id` header when that is
/// non-empty, else a fresh UUID.
pub fn extract_request_id(header: Option<&str>) -> (r: Option<String>)
    ensures
        r is Some,
        header is Some && header.unwrap()@.len() > 0 ==> r.unwrap()@ == header.unwrap()@,
        !(header is Some && header.unwrap()@.len() > 0) ==> r.unwrap()@.len() == 36 && uuid_parses(
            r.unwrap()@,
        ),
{
    match header {
        Some(v) => if !v.is_empty() {
            return Some(to_owned(v));
        },
        None => {},
    }
    Some(new_uuid_string())
}

/// The client's address: the first entry of `x-forwarded-for`, trimmed,
/// when non-empty; else a non-empty `x-real-ip`.
pub open spec fn ip_spec(forwarded: Option<Seq<char>>, real_ip: Option<Seq<char>>) -> Option<
    Seq<char>,
> {
    let first = match forwarded {
        Some(f) => trim_seq(before_char(f, ',')),
        None => Seq::empty(),
    };
    if first.len() > 0 {
        Some(first)
    } else {
        match real_ip {
            Some(r) => if r.len() > 0 {
                Some(r)
            } else {
                None
            },
            None => None,
        }
    }
}

/// The client's address: the first entry of `x-forwarded-for`, trimmed,
/// when non-empty; else a non-empty `x-real-ip`.
pub fn extract_ip_address(forwarded: Option<&str>, real_ip: Option<&str>) -> (r: Option<String>)
    ensures
        match ip_spec(opt_view(forwarded), opt_view(real_ip)) {
            Some(ip) => r matches Some(s) && s@ == ip,
            None => r is None,
        },
{
    match forwarded {
        Some(f) => {
            let first = before_first(f, ',');
            let first = trim(first.as_str());
            if !first.as_str().is_empty() {
                return Some(first);
            }
        },
        None => {},
    }
    match real_ip {
        Some(v) => if !v.is_empty() {
            Some(to_owned(v))
        } else {
            None
        },
        None => None,
    }
}

/// The client's agent: the `User-Agent` header as given.
pub fn extract_user_agent(header: Option<&str>) -> (r: Option<String>)
    ensures
        match header {
            Some(v) => r matches Some(s) && s@ == v@,
            None => r is None,
        },
{
    match header {
        Some(v) => Some(to_owned(v)),
        None => None,
    }
}

/// The idempotency key of an outbox event: event type, aggregate type and
/// request id joined by `:` when the request has an id, else a fresh UUID.
pub fn build_idempotency_key(event_type: &str, aggregate_type: &str, request_id: Option<&str>) -> (r:
    String)
    ensures
        match request_id {
            Some(id) => r@ == event_type@ + ":"@ + aggregate_type@ + ":"@ + id@,
            None => r@.len() == 36 && uuid_parses(r@),
        },
{
    match request_id {
        Some(id) => {
            let a = concat(event_type, ":");
            let b = concat(a.as_str(), aggregate_type);
            let c = concat(b.as_str(), ":");
            concat(c.as_str(), id)
        },
        None => new_uuid_string(),
    }
}

} // verus!
