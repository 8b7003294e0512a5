//! Offset paging: a page request is a size and an opaque token, which is the
//! decimal offset of the first row; a full page answers with the token of
//! the next one.
use vstd::prelude::*;
use crate::numbers::{decimal, format_u64, lemma_parse_format_roundtrip, parse_i64, parse_i64_spec};

verus! {

/// A page request as clients send it.
#[derive(Debug, Clone, PartialEq, Eq)]
pub struct PageInfo {
    pub page_size: i32,
    pub page_token: String,
}

pub const DEFAULT_PAGE_SIZE: i64 = 50;
pub const MAX_PAGE_SIZE: i64 = 200;

/// The offset a token names: its value when it reads as an integer,
/// clamped below at 0, and 0 when it does not read.
pub open spec fn token_offset(token: Seq<char>) -> i64 {
    match parse_i64_spec(token) {
        Some(v) => if v < 0 {
            0
        } else {
            v
        },
        None => 0,
    }
}

/// The page size a listing uses: 50 when none is given, else the size
/// clamped into `1..=200`.
pub open spec fn list_limit(page: Option<PageInfo>) -> i64 {
    match page {
        None => DEFAULT_PAGE_SIZE,
        Some(p) => if p.page_size < 1 {
            1
        } else if p.page_size > 200 {
            200
        } else {
            p.page_size as i64
        },
    }
}

/// The offset a listing starts at.
pub open spec fn list_offset(page: Option<PageInfo>) -> i64 {
    match page {
        None => 0,
        Some(p) => token_offset(p.page_token@),
    }
}

fn offset_of(token: &str) -> (r: i64)
    ensures
        r == token_offset(token@),
        r >= 0,
{
    match parse_i64(token) {
        Some(v) => if v < 0 {
            0
        } else {
            v
        },
        None => 0,
    }
}

/// `(limit, offset)` for a listing of pages, auctions or similar rows.
pub fn page_params(page: Option<PageInfo>) -> (r: (i64, i64))
    ensures
        r.0 == list_limit(page),
        r.1 == list_offset(page),
        1 <= r.0 <= 200,
        r.1 >= 0,
{
    match page {
        None => (DEFAULT_PAGE_SIZE, 0),
        Some(p) => {
            let size = if p.page_size < 1 {
                1
            } else if p.page_size > 200 {
                200
            } else {
                p.page_size
            };
            (size as i64, offset_of(p.page_token.as_str()))
        },
    }
}

/// The page size the audit log uses: 50 when none is given or the size is
/// not positive, at most 200.
pub open spec fn audit_limit(page: Option<PageInfo>) -> i64 {
    match page {
        None => DEFAULT_PAGE_SIZE,
        Some(p) => if p.page_size <= 0 {
            DEFAULT_PAGE_SIZE
        } else if p.page_size > 200 {
            MAX_PAGE_SIZE
        } else {
            p.page_size as i64
        },
    }
}

/// `(limit, offset)` for the audit log listing.
pub fn audit_page_params(page: Option<PageInfo>) -> (r: (i64, i64))
    ensures
        r.0 == audit_limit(page),
        r.1 == list_offset(page),
        1 <= r.0 <= 200,
        r.1 >= 0,
{
    match page {
        None => (DEFAULT_PAGE_SIZE, 0),
        Some(p) => {
            let size: i64 = p.page_size as i64;
            let limit = if size <= 0 {
                DEFAULT_PAGE_SIZE
            } else if size > MAX_PAGE_SIZE {
                MAX_PAGE_SIZE
            } else {
                size
            };
            (limit, offset_of(p.page_token.as_str()))
        },
    }
}

/// The token of the next page: the rendered `offset + limit` when the page
/// came back full, else empty.
pub open spec fn next_token_spec(returned: nat, limit: i64, offset: i64) -> Seq<char> {
    if returned == limit {
        decimal((offset + limit) as nat)
    } else {
        Seq::empty()
    }
}

/// The token to answer a listing with, after `returned` rows came back for
/// a query with `limit` and `offset`.
pub fn next_page_token(returned: usize, limit: i64, offset: i64) -> (r: String)
    requires
        1 <= limit,
        0 <= offset,
        offset + limit <= i64::MAX,
    ensures
        r@ == next_token_spec(returned as nat, limit, offset),
{
    if returned as u64 == limit as u64 {
        format_u64((offset + limit) as u64)
    } else {
        String::new()
    }
}

/// How an audit page is cut: rows were fetched one past the limit, so more
/// than `limit` rows means there is a next page. Returns how many rows to
/// keep and the next token.
pub fn audit_page_cut(fetched: usize, limit: i64, offset: i64) -> (r: (usize, String))
    requires
        1 <= limit,
        0 <= offset,
        offset + limit <= i64::MAX,
    ensures
        fetched > limit ==> r.0 == limit && r.1@ == decimal((offset + limit) as nat),
        fetched <= limit ==> r.0 == fetched && r.1@.len() == 0,
{
    if fetched as u64 > limit as u64 {
        (limit as usize, format_u64((offset + limit) as u64))
    } else {
        (fetched, String::new())
    }
}

/// The token a full page answers with leads to the page right after it:
/// handed back with the same size, it starts at `offset + limit`.
pub proof fn lemma_next_page_follows(limit: i64, offset: i64)
    requires
        1 <= limit,
        0 <= offset,
        offset + limit <= i64::MAX,
    ensures
        token_offset(next_token_spec(limit as nat, limit, offset)) == offset + limit,
{
    lemma_parse_format_roundtrip((offset + limit) as u64);
}

} // verus!
