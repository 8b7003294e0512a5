//! Content pages: the checks and normal forms of a page's fields.
use vstd::prelude::*;
use crate::errors::{ErrorCode, RpcError, STATUS_BAD_REQUEST};
use crate::status::PageStatus;
use crate::text::{concat, str_eq, to_owned, trim, trim_seq};
use crate::time::{Instant, Timestamp, is_later, later, timestamp_to_chrono, to_instant_spec};

verus! {

/// A page as a caller submits it.
#[derive(Debug, Clone, PartialEq, Eq)]
pub struct PageInput {
    pub title: String,
    pub slug: String,
    pub body: String,
    pub body_format: String,
    pub status: String,
    pub publish_start_at: Option<Timestamp>,
    pub publish_end_at: Option<Timestamp>,
    pub seo_title: String,
    pub seo_description: String,
}

/// A page's fields in the form they are stored in.
#[derive(Debug, Clone, PartialEq, Eq)]
pub struct ValidatedPageInput {
    pub title: String,
    pub slug: String,
    pub body: String,
    pub body_format: String,
    pub status: PageStatus,
    pub publish_start_at: Option<Instant>,
    pub publish_end_at: Option<Instant>,
    pub seo_title: Option<String>,
    pub seo_description: Option<String>,
}

/// A required text field, trimmed; blank text is refused with
/// "<field> is required".
pub fn require_text(value: &str, field: &str) -> (r: Result<String, RpcError>)
    ensures
        if trim_seq(value@).len() > 0 {
            r matches Ok(s) && s@ == trim_seq(value@)
        } else {
            r matches Err(e) && e.status == STATUS_BAD_REQUEST && e.error.code
                == ErrorCode::InvalidArgument && e.error.message@ == field@ + " is required"@
        },
{
    let trimmed = trim(value);
    if trimmed.as_str().is_empty() {
        let message = concat(field, " is required");
        return Err(RpcError::invalid_argument(message.as_str()));
    }
    Ok(trimmed)
}

/// Why a slug is refused, if it is: blank, or over 255 bytes once trimmed.
pub open spec fn slug_rejection(value: Seq<char>) -> Option<Seq<char>> {
    let t = trim_seq(value);
    if t.len() == 0 {
        Some("slug is required"@)
    } else if vstd::utf8::encode_utf8(t).len() > 255 {
        Some("slug must be 255 chars or less"@)
    } else {
        None
    }
}

/// A page's slug, trimmed.
pub fn normalize_slug(value: &str) -> (r: Result<String, RpcError>)
    ensures
        match slug_rejection(value@) {
            None => r matches Ok(s) && s@ == trim_seq(value@),
            Some(m) => r matches Err(e) && e.status == STATUS_BAD_REQUEST && e.error.code
                == ErrorCode::InvalidArgument && e.error.message@ == m,
        },
{
    let trimmed = trim(value);
    if trimmed.as_str().is_empty() {
        return Err(RpcError::invalid_argument("slug is required"));
    }
    if trimmed.as_str().as_bytes().len() > 255 {
        return Err(RpcError::invalid_argument("slug must be 255 chars or less"));
    }
    Ok(trimmed)
}

/// An optional text field: trimmed, or none when blank.
pub open spec fn optional_text(value: Seq<char>) -> Option<Seq<char>> {
    if trim_seq(value).len() == 0 {
        None
    } else {
        Some(trim_seq(value))
    }
}

/// An optional text field: trimmed, or none when blank.
pub fn normalize_optional(value: &str) -> (r: Option<String>)
    ensures
        match optional_text(value@) {
            None => r is None,
            Some(t) => r matches Some(s) && s@ == t,
        },
{
    let trimmed = trim(value);
    if trimmed.as_str().is_empty() {
        None
    } else {
        Some(trimmed)
    }
}

/// A page's body format: `markdown`, which blank text also means; anything
/// else is refused.
pub fn normalize_body_format(value: &str) -> (r: Result<String, RpcError>)
    ensures
        if trim_seq(value@).len() == 0 || trim_seq(value@) == "markdown"@ {
            r matches Ok(s) && s@ == "markdown"@
        } else {
            r matches Err(e) && e.status == STATUS_BAD_REQUEST && e.error.code
                == ErrorCode::InvalidArgument && e.error.message@ == "body_format must be markdown"@
        },
{
    let trimmed = trim(value);
    if trimmed.as_str().is_empty() {
        return Ok(to_owned("markdown"));
    }
    if !str_eq(trimmed.as_str(), "markdown") {
        return Err(RpcError::invalid_argument("body_format must be markdown"));
    }
    Ok(trimmed)
}

/// A page's status, read as `PageStatus::try_from` reads it; a refusal is
/// 400 with its message.
pub fn normalize_status(value: &str) -> (r: Result<PageStatus, RpcError>)
    ensures
        match PageStatus::parse_spec(value@) {
            Some(s) => r == Ok::<PageStatus, RpcError>(s),
            None => r matches Err(e) && e.status == STATUS_BAD_REQUEST && e.error.code
                == ErrorCode::InvalidArgument && e.error.message@
                == "status must be draft or published"@,
        },
{
    match PageStatus::try_from(value) {
        Ok(s) => Ok(s),
        Err(m) => Err(RpcError::invalid_argument(m)),
    }
}

/// Why a page is refused, if it is: its checks in the order the service
/// makes them.
pub open spec fn page_rejection(input: PageInput) -> Option<Seq<char>> {
    if trim_seq(input.title@).len() == 0 {
        Some("title is required"@)
    } else if slug_rejection(input.slug@) is Some {
        slug_rejection(input.slug@)
    } else if !(trim_seq(input.body_format@).len() == 0 || trim_seq(input.body_format@)
        == "markdown"@) {
        Some("body_format must be markdown"@)
    } else if PageStatus::parse_spec(input.status@) is None {
        Some("status must be draft or published"@)
    } else if to_instant_spec(input.publish_start_at) is Some && to_instant_spec(
        input.publish_end_at,
    ) is Some && later(
        to_instant_spec(input.publish_start_at).unwrap(),
        to_instant_spec(input.publish_end_at).unwrap(),
    ) {
        Some("publish_end_at must be after publish_start_at"@)
    } else {
        None
    }
}

/// Checks a page and puts its fields in stored form: title, slug and body
/// trimmed, the body format and status read, the publish window read and
/// ordered, and blank SEO fields dropped.
pub fn validate_page_input(input: PageInput) -> (r: Result<ValidatedPageInput, RpcError>)
    ensures
        match page_rejection(input) {
            Some(m) => r matches Err(e) && e.status == STATUS_BAD_REQUEST && e.error.code
                == ErrorCode::InvalidArgument && e.error.message@ == m,
            None => r matches Ok(v) && {
                &&& v.title@ == trim_seq(input.title@)
                &&& v.slug@ == trim_seq(input.slug@)
                &&& v.body@ == trim_seq(input.body@)
                &&& v.body_format@ == "markdown"@
                &&& Some(v.status) == PageStatus::parse_spec(input.status@)
                &&& v.publish_start_at == to_instant_spec(input.publish_start_at)
                &&& v.publish_end_at == to_instant_spec(input.publish_end_at)
                &&& match optional_text(input.seo_title@) {
                    None => v.seo_title is None,
                    Some(t) => v.seo_title matches Some(s) && s@ == t,
                }
                &&& match optional_text(input.seo_description@) {
                    None => v.seo_description is None,
                    Some(t) => v.seo_description matches Some(s) && s@ == t,
                }
            },
        },
{
    proof {
        reveal_strlit("title");
        reveal_strlit(" is required");
        reveal_strlit("title is required");
        assert("title"@ + " is required"@ =~= "title is required"@);
    }
    let title = require_text(input.title.as_str(), "title")?;
    let slug = normalize_slug(input.slug.as_str())?;
    let body = trim(input.body.as_str());
    let body_format = normalize_body_format(input.body_format.as_str())?;
    let status = normalize_status(input.status.as_str())?;
    let publish_start_at = timestamp_to_chrono(input.publish_start_at);
    let publish_end_at = timestamp_to_chrono(input.publish_end_at);
    match (publish_start_at, publish_end_at) {
        (Some(start), Some(end)) => {
            if is_later(start, end) {
                return Err(
                    RpcError::invalid_argument("publish_end_at must be after publish_start_at"),
                );
            }
        },
        _ => {},
    }
    let seo_title = normalize_optional(input.seo_title.as_str());
    let seo_description = normalize_optional(input.seo_description.as_str());
    Ok(
        ValidatedPageInput {
            title,
            slug,
            body,
            body_format,
            status,
            publish_start_at,
            publish_end_at,
            seo_title,
            seo_description,
        },
    )
}

} // verus!
