//! Product media: upload names, tags, the rules for importing an image from
//! an outside URL, and the checks around SKU images.
use vstd::prelude::*;
use crate::errors::{ErrorCode, RpcError, STATUS_BAD_REQUEST, STATUS_FORBIDDEN};
use crate::text::{
    before_char, before_first, chars_of, concat, ends_with, ends_with_seq, is_ascii_alnum,
    opt_string_view, starts_with, starts_with_seq, str_eq, string_from_chars, string_views,
    to_lowercase, trim,
    trim_seq, unicode_lowercase,
};

verus! {

/// The largest image, in bytes, that an import downloads.
pub const MAX_IMAGE_BYTES: u64 = 10485760;

/// A character kept in a stored file name; every other becomes `_`.
pub open spec fn safe_name_char(c: char) -> char {
    if is_ascii_alnum(c) || c == '.' || c == '-' || c == '_' {
        c
    } else {
        '_'
    }
}

/// The stored form of a client's file name: trimmed, with unsafe characters
/// replaced, or `fallback` when nothing is left.
pub open spec fn sanitized_spec(name: Seq<char>, fallback: Seq<char>) -> Seq<char> {
    let t = trim_seq(name);
    if t.len() == 0 {
        fallback
    } else {
        t.map_values(|c: char| safe_name_char(c))
    }
}

/// The stored form of a client's file name, with `fallback` for a blank one.
pub fn sanitize_with_fallback(name: &str, fallback: &str) -> (r: String)
    ensures
        r@ == sanitized_spec(name@, fallback@),
{
    let t = trim(name);
    if t.as_str().is_empty() {
        return fallback.to_owned();
    }
    let v = chars_of(t.as_str());
    let mut out: Vec<char> = Vec::new();
    let mut k: usize = 0;
    while k < v.len()
        invariant
            k <= v.len(),
            out@ == v@.subrange(0, k as int).map_values(|c: char| safe_name_char(c)),
        decreases v.len() - k,
    {
        let c = v[k];
        let keep = ('0' <= c && c <= '9') || ('a' <= c && c <= 'z') || ('A' <= c && c <= 'Z')
            || c == '.' || c == '-' || c == '_';
        out.push(if keep {
            c
        } else {
            '_'
        });
        assert(v@.subrange(0, k + 1).map_values(|c: char| safe_name_char(c)) =~= v@.subrange(
            0,
            k as int,
        ).map_values(|c: char| safe_name_char(c)).push(safe_name_char(c)));
        k = k + 1;
    }
    assert(v@.subrange(0, v.len() as int) =~= v@);
    string_from_chars(&out)
}

/// The stored form of an uploaded media file name (`upload` when blank).
pub fn sanitize_filename(name: &str) -> (r: String)
    ensures
        r@ == sanitized_spec(name@, "upload"@),
{
    sanitize_with_fallback(name, "upload")
}

/// The file extension stored for an image content type.
pub open spec fn extension_spec(content_type: Seq<char>) -> Option<Seq<char>> {
    if content_type == "image/jpeg"@ {
        Some("jpg"@)
    } else if content_type == "image/png"@ {
        Some("png"@)
    } else if content_type == "image/webp"@ {
        Some("webp"@)
    } else if content_type == "image/gif"@ {
        Some("gif"@)
    } else if content_type == "image/avif"@ {
        Some("avif"@)
    } else {
        None
    }
}

/// The file extension stored for an image content type.
pub fn extension_from_content_type(content_type: &str) -> (r: Option<&'static str>)
    ensures
        match extension_spec(content_type@) {
            Some(e) => r is Some && r->0@ == e,
            None => r is None,
        },
{
    if str_eq(content_type, "image/jpeg") {
        Some("jpg")
    } else if str_eq(content_type, "image/png") {
        Some("png")
    } else if str_eq(content_type, "image/webp") {
        Some("webp")
    } else if str_eq(content_type, "image/gif") {
        Some("gif")
    } else if str_eq(content_type, "image/avif") {
        Some("avif")
    } else {
        None
    }
}

/// The tags kept from a list: each trimmed, blanks dropped, in order.
pub open spec fn kept_tags(s: Seq<Seq<char>>) -> Seq<Seq<char>>
    decreases s.len(),
{
    if s.len() == 0 {
        Seq::empty()
    } else {
        let r = kept_tags(s.drop_last());
        let t = trim_seq(s.last());
        if t.len() > 0 {
            r.push(t)
        } else {
            r
        }
    }
}

/// At most the first `n` items of `s` (what `Iterator::take(n)` yields).
pub open spec fn first_n<T>(s: Seq<T>, n: nat) -> Seq<T> {
    if s.len() <= n {
        s
    } else {
        s.take(n as int)
    }
}

/// The stored tags: the first 50 kept tags.
pub fn normalize_tags(tags: Vec<String>) -> (r: Vec<String>)
    ensures
        string_views(r@) == first_n(kept_tags(string_views(tags@)), 50),
{
    let mut out: Vec<String> = Vec::new();
    let mut k: usize = 0;
    assert(string_views(tags@).take(0) =~= Seq::<Seq<char>>::empty());
    assert(string_views(out@) =~= Seq::<Seq<char>>::empty());
    while k < tags.len()
        invariant
            k <= tags.len(),
            string_views(out@) == first_n(kept_tags(string_views(tags@).take(k as int)), 50),
        decreases tags.len() - k,
    {
        let ghost before = kept_tags(string_views(tags@).take(k as int));
        assert(string_views(tags@).take(k + 1).drop_last() =~= string_views(tags@).take(k as int));
        assert(string_views(tags@).take(k + 1).last() == tags@[k as int]@);
        let t = trim(tags[k].as_str());
        proof {
            if t@.len() > 0 {
                assert(kept_tags(string_views(tags@).take(k + 1)) == before.push(t@));
            } else {
                assert(kept_tags(string_views(tags@).take(k + 1)) == before);
            }
        }
        if out.len() < 50 && !t.as_str().is_empty() {
            proof {
                assert(string_views(out@).len() == out@.len());
                if before.len() > 50 {
                    assert(first_n(before, 50).len() == 50);
                }
                assert(string_views(out@) == before);
            }
            let ghost old_out = out@;
            out.push(t);
            assert(string_views(out@) =~= string_views(old_out).push(t@));
            assert(string_views(out@) =~= before.push(t@));
        } else if !t.as_str().is_empty() {
            assert(first_n(before.push(t@), 50) =~= first_n(before, 50));
        }
        k = k + 1;
    }
    assert(string_views(tags@).take(tags.len() as int) =~= string_views(tags@));
    out
}

/// An IP address, by its parts.
#[derive(Debug, Clone, Copy, PartialEq, Eq)]
pub enum IpAddress {
    V4([u8; 4]),
    V6([u16; 8]),
}

/// Addresses an import must not reach: the private, loopback and
/// link-local IPv4 ranges; the IPv6 loopback, unspecified and unique-local
/// addresses.
pub open spec fn is_private_spec(ip: IpAddress) -> bool {
    match ip {
        IpAddress::V4(o) => {
            ||| o[0] == 10
            ||| o[0] == 127
            ||| o[0] == 169 && o[1] == 254
            ||| o[0] == 172 && 16 <= o[1] <= 31
            ||| o[0] == 192 && o[1] == 168
        },
        IpAddress::V6(s) => {
            ||| (s[0] == 0 && s[1] == 0 && s[2] == 0 && s[3] == 0 && s[4] == 0 && s[5] == 0
                && s[6] == 0 && (s[7] == 1 || s[7] == 0))
            ||| 0xfc00 <= s[0] <= 0xfdff
        },
    }
}

/// The address is one an import must not reach.
pub fn is_private_ip(ip: &IpAddress) -> (r: bool)
    ensures
        r == is_private_spec(*ip),
{
    match ip {
        IpAddress::V4(o) => {
            o[0] == 10 || o[0] == 127 || (o[0] == 169 && o[1] == 254) || (o[0] == 172 && 16
                <= o[1] && o[1] <= 31) || (o[0] == 192 && o[1] == 168)
        },
        IpAddress::V6(s) => {
            (s[0] == 0 && s[1] == 0 && s[2] == 0 && s[3] == 0 && s[4] == 0 && s[5] == 0 && s[6]
                == 0 && (s[7] == 1 || s[7] == 0)) || (0xfc00 <= s[0] && s[0] <= 0xfdff)
        },
    }
}

/// The reason an outside URL is refused, given its scheme, its host (empty
/// when it has none) and the host read as an IP address when it is one.
pub open spec fn url_rejection(scheme: Seq<char>, host: Seq<char>, ip: Option<IpAddress>) -> Option<
    Seq<char>,
> {
    let lower = unicode_lowercase(host);
    if scheme != "http"@ && scheme != "https"@ {
        Some("public_url must be http or https"@)
    } else if lower == "localhost"@ || ends_with_seq(lower, ".local"@) {
        Some("public_url host is not allowed"@)
    } else if ip is Some && is_private_spec(ip->0) {
        Some("public_url host is not allowed"@)
    } else {
        None
    }
}

/// Checks the parts of an outside URL that an image is imported from.
pub fn check_external_url(scheme: &str, host: &str, ip: Option<IpAddress>) -> (r: Result<
    (),
    RpcError,
>)
    ensures
        match url_rejection(scheme@, host@, ip) {
            None => r is Ok,
            Some(m) => r is Err && r->Err_0.status == STATUS_BAD_REQUEST && r->Err_0.error.code
                == ErrorCode::InvalidArgument && r->Err_0.error.message@ == m,
        },
{
    if !str_eq(scheme, "http") && !str_eq(scheme, "https") {
        return Err(RpcError::invalid_argument("public_url must be http or https"));
    }
    let lower = to_lowercase(host);
    if str_eq(lower.as_str(), "localhost") || ends_with(lower.as_str(), ".local") {
        return Err(RpcError::invalid_argument("public_url host is not allowed"));
    }
    if let Some(addr) = ip {
        if is_private_ip(&addr) {
            return Err(RpcError::invalid_argument("public_url host is not allowed"));
        }
    }
    Ok(())
}

/// A name for what `url::Url::parse` (as `reqwest::Url`) makes of a text:
/// none when it does not parse, else the URL's scheme and its host as
/// `host_str` gives it (IPv6 hosts keep their brackets). The result depends
/// on the text alone.
pub uninterp spec fn url_parts(input: Seq<char>) -> Option<(Seq<char>, Option<Seq<char>>)>;

/// Calls `reqwest::Url::parse` and gives the scheme and `host_str` of the
/// URL. The contract names the result `url_parts` of the input.
#[verifier::external_body]
fn parse_url(input: &str) -> (r: Option<(String, Option<String>)>)
    ensures
        match r {
            None => url_parts(input@) is None,
            Some((s, h)) => url_parts(input@) == Some((s@, opt_string_view(h))),
        },
{
    match reqwest::Url::parse(input) {
        Ok(url) => {
            let host = match url.host_str() {
                Some(h) => Some(h.to_string()),
                None => None,
            };
            Some((url.scheme().to_string(), host))
        },
        Err(_) => None,
    }
}

/// A name for what `str::parse::<IpAddr>` makes of a text: the address, by
/// its octets or segments, or none when the text is not one. The result
/// depends on the text alone.
pub uninterp spec fn parsed_ip(s: Seq<char>) -> Option<IpAddress>;

/// Calls `str::parse::<core::net::IpAddr>` and gives the address by its
/// octets or segments. The contract names the result `parsed_ip`.
#[verifier::external_body]
fn parse_ip(s: &str) -> (r: Option<IpAddress>)
    ensures
        r == parsed_ip(s@),
{
    match s.parse::<core::net::IpAddr>() {
        Ok(core::net::IpAddr::V4(a)) => Some(IpAddress::V4(a.octets())),
        Ok(core::net::IpAddr::V6(a)) => Some(IpAddress::V6(a.segments())),
        Err(_) => None,
    }
}

/// Why an outside image URL is refused, if it is: it must parse, be http
/// or https, and its host must be neither local nor a private address.
pub open spec fn external_url_rejection(input: Seq<char>) -> Option<Seq<char>> {
    match url_parts(input) {
        None => Some("public_url must be a valid URL"@),
        Some((scheme, host)) => url_rejection(
            scheme,
            match host {
                Some(h) => h,
                None => Seq::empty(),
            },
            match host {
                Some(h) => parsed_ip(h),
                None => None,
            },
        ),
    }
}

/// Checks the URL an image is imported from; a refusal is 400
/// `invalid_argument` with the reason.
pub fn validate_external_url(input: &str) -> (r: Result<(), RpcError>)
    ensures
        match external_url_rejection(input@) {
            None => r is Ok,
            Some(m) => r matches Err(e) && e.status == STATUS_BAD_REQUEST && e.error.code
                == ErrorCode::InvalidArgument && e.error.message@ == m,
        },
{
    let parsed = parse_url(input);
    match parsed {
        None => Err(invalid_url_error()),
        Some((scheme, host)) => {
            assert(url_parts(input@) == Some((scheme@, opt_string_view(host))));
            match host {
                Some(h) => {
                    let ip = parse_ip(h.as_str());
                    assert(external_url_rejection(input@) == url_rejection(scheme@, h@, ip));
                    check_external_url(scheme.as_str(), h.as_str(), ip)
                },
                None => {
                    proof {
                        reveal_strlit("");
                        assert(""@.len() == 0);
                        assert(""@ =~= Seq::<char>::empty());
                    }
                    assert(external_url_rejection(input@) == url_rejection(
                        scheme@,
                        ""@,
                        None,
                    ));
                    check_external_url(scheme.as_str(), "", None)
                },
            }
        },
    }
}

/// The response for a URL that does not parse.
pub fn invalid_url_error() -> (r: RpcError)
    ensures
        r.status == STATUS_BAD_REQUEST,
        r.error.code == ErrorCode::InvalidArgument,
        r.error.message@ == "public_url must be a valid URL"@,
{
    RpcError::invalid_argument("public_url must be a valid URL")
}

/// The media type of a `content-type` header value: what precedes the first
/// `;`, trimmed; empty when there is no header.
pub open spec fn media_type_spec(header: Option<Seq<char>>) -> Seq<char> {
    match header {
        Some(h) => trim_seq(before_char(h, ';')),
        None => Seq::empty(),
    }
}

/// The media type of a `content-type` header value.
pub fn media_type_of(header: Option<&str>) -> (r: String)
    ensures
        r@ == media_type_spec(match header {
            Some(h) => Some(h@),
            None => None,
        }),
{
    match header {
        Some(h) => {
            let raw = before_first(h, ';');
            trim(raw.as_str())
        },
        None => String::new(),
    }
}

/// Checks a downloaded image: its declared length and actual size are at
/// most the limit and its media type is an image.
pub fn check_downloaded_image(declared_length: Option<u64>, content_type: &str, size: u64) -> (r:
    Result<(), RpcError>)
    ensures
        r is Ok <==> (declared_length matches Some(n) ==> n <= MAX_IMAGE_BYTES) && starts_with_seq(
            content_type@,
            "image/"@,
        ) && size <= MAX_IMAGE_BYTES,
        r matches Err(e) ==> e.status == STATUS_BAD_REQUEST && e.error.code
            == ErrorCode::InvalidArgument && (if declared_length matches Some(n)
            && n > MAX_IMAGE_BYTES {
            e.error.message@ == "image is too large"@
        } else if !starts_with_seq(content_type@, "image/"@) {
            e.error.message@ == "public_url must point to an image"@
        } else {
            e.error.message@ == "image is too large"@
        }),
{
    if let Some(n) = declared_length {
        if n > MAX_IMAGE_BYTES {
            return Err(RpcError::invalid_argument("image is too large"));
        }
    }
    if !starts_with(content_type, "image/") {
        return Err(RpcError::invalid_argument("public_url must point to an image"));
    }
    if size > MAX_IMAGE_BYTES {
        return Err(RpcError::invalid_argument("image is too large"));
    }
    Ok(())
}

/// The object name an imported image is stored under: the trimmed hint, or
/// `media/<id>.<ext>` with the extension of its type (`bin` when unknown).
pub open spec fn import_name_spec(hint: Seq<char>, id: Seq<char>, content_type: Seq<char>) -> Seq<
    char,
> {
    if trim_seq(hint).len() == 0 {
        let ext = match extension_spec(content_type) {
            Some(e) => e,
            None => "bin"@,
        };
        "media/"@ + id + "."@ + ext
    } else {
        trim_seq(hint)
    }
}

/// The object name an imported image is stored under; `id` is a fresh
/// identifier.
pub fn import_object_name(hint: &str, id: &str, content_type: &str) -> (r: String)
    ensures
        r@ == import_name_spec(hint@, id@, content_type@),
{
    let t = trim(hint);
    if t.as_str().is_empty() {
        let ext = match extension_from_content_type(content_type) {
            Some(e) => e,
            None => "bin",
        };
        let a = concat("media/", id);
        let b = concat(a.as_str(), ".");
        concat(b.as_str(), ext)
    } else {
        t
    }
}

/// The object name of an upload: a fresh identifier, `-`, and the safe name.
pub fn upload_object_name(id: &str, safe_name: &str) -> (r: String)
    ensures
        r@ == id@ + "-"@ + safe_name@,
{
    let a = concat(id, "-");
    concat(a.as_str(), safe_name)
}

/// A stored asset must have a public URL.
pub fn validate_store_asset_input(public_url: &str) -> (r: Result<(), RpcError>)
    ensures
        r is Ok <==> public_url@.len() > 0,
        r matches Err(e) ==> e.status == STATUS_BAD_REQUEST && e.error.code
            == ErrorCode::InvalidArgument && e.error.message@ == "public_url is required"@,
{
    if public_url.is_empty() {
        Err(RpcError::invalid_argument("public_url is required"))
    } else {
        Ok(())
    }
}

/// An asset that SKU images still use cannot be deleted.
pub fn check_asset_unused(used_count: i64) -> (r: Result<(), RpcError>)
    ensures
        r is Ok <==> used_count <= 0,
        r matches Err(e) ==> e.status == STATUS_BAD_REQUEST && e.error.code
            == ErrorCode::InvalidArgument && e.error.message@ == "asset is used by sku images"@,
{
    if used_count > 0 {
        Err(RpcError::invalid_argument("asset is used by sku images"))
    } else {
        Ok(())
    }
}

/// A SKU may only be worked on from its own store: `found_store` is the
/// store that owns the SKU, when the SKU exists.
pub fn check_sku_store(found_store: Option<&str>, store_id: &str) -> (r: Result<(), RpcError>)
    ensures
        match found_store {
            None => r is Err && r->Err_0.status == STATUS_BAD_REQUEST && r->Err_0.error.code
                == ErrorCode::InvalidArgument && r->Err_0.error.message@ == "sku_id not found"@,
            Some(s) => if s@ == store_id@ {
                r is Ok
            } else {
                r is Err && r->Err_0.status == STATUS_FORBIDDEN && r->Err_0.error.code
                    == ErrorCode::PermissionDenied && r->Err_0.error.message@
                    == "sku_id does not belong to store"@
            },
        },
{
    match found_store {
        None => Err(RpcError::invalid_argument("sku_id not found")),
        Some(s) => if str_eq(s, store_id) {
            Ok(())
        } else {
            Err(RpcError::permission_denied("sku_id does not belong to store"))
        },
    }
}

} // verus!
