//! Staff sign-in sessions: credentials, refresh tokens and their stored
//! hashes, the refresh cookie, and the check of a session on each request.
use vstd::prelude::*;
use sha2::Digest;
use crate::errors::{ErrorCode, IdentityError, RpcError, STATUS_UNAUTHORIZED};
use crate::numbers::{decimal, format_u64};
use crate::request::{is_uuid, uuid_parses};
use crate::text::{
    concat, eq_ignore_ascii_case, eq_ignore_ascii_case_seq, split, split_seq, starts_with_seq,
    str_eq, strip_prefix, to_owned, trim, trim_seq,
};
use crate::time::{Instant, Timestamp, later};

verus! {

/// How long an access token lives, in minutes.
pub const ACCESS_TOKEN_TTL_MINUTES: i64 = 5;

/// How long a refresh token lives, in days.
pub const REFRESH_TOKEN_TTL_DAYS: i64 = 30;

/// The refresh cookie's `Max-Age`, in seconds (thirty days).
pub const REFRESH_TOKEN_MAX_AGE: i64 = 2592000;

/// What a sign-in or a token refresh answers.
#[derive(Debug, Clone, PartialEq, Eq)]
pub struct SignInResponse {
    pub access_token: String,
    pub store_id: String,
    pub tenant_id: String,
    pub staff_id: String,
    pub role: String,
    pub expires_at: Option<Timestamp>,
}

/// A sign-in answer with the refresh token to set as a cookie.
#[derive(Debug, Clone, PartialEq, Eq)]
pub struct SignInWithRefresh {
    pub response: SignInResponse,
    pub refresh_token: String,
}

/// A refresh answer with the new refresh token to set as a cookie.
#[derive(Debug, Clone, PartialEq, Eq)]
pub struct RefreshTokenResult {
    pub response: SignInResponse,
    pub refresh_token: String,
}

/// A name for the SHA-256 digest of `data`.
pub uninterp spec fn sha256_digest(data: Seq<u8>) -> Seq<u8>;

/// Calls `sha2::Sha256::digest`. The contract names the digest
/// `sha256_digest` of the input and gives its length, 32 bytes, which the
/// crate documents as SHA-256's output size.
#[verifier::external_body]
fn sha256(data: &[u8]) -> (r: Vec<u8>)
    ensures
        r@ == sha256_digest(data@),
        r@.len() == 32,
{
    sha2::Sha256::digest(data).to_vec()
}

/// The lower-case hexadecimal digit of `v` (below 16).
pub open spec fn hex_digit(v: int) -> char {
    if v < 10 {
        (0x30 + v) as char
    } else {
        (0x61 + v - 10) as char
    }
}

/// `bytes` in lower-case hexadecimal, two digits a byte, high nibble first.
pub open spec fn hex_seq(bytes: Seq<u8>) -> Seq<char>
    decreases bytes.len(),
{
    if bytes.len() == 0 {
        Seq::empty()
    } else {
        hex_seq(bytes.drop_last()) + seq![
            hex_digit(bytes.last() as int / 16),
            hex_digit(bytes.last() as int % 16),
        ]
    }
}

fn hex_char(v: u8) -> (r: char)
    requires
        v < 16,
    ensures
        r == hex_digit(v as int),
{
    let table: [char; 16] = [
        '0', '1', '2', '3', '4', '5', '6', '7', '8', '9', 'a', 'b', 'c', 'd', 'e', 'f',
    ];
    let r = table[v as usize];
    assert(r == hex_digit(v as int)) by {
        assert(table@[v as int] as u32 == if v < 10 {
            0x30 + v
        } else {
            0x61 + v - 10
        });
    }
    r
}

/// `bytes` in lower-case hexadecimal (`hex::encode`).
pub fn hex_encode(bytes: &[u8]) -> (r: String)
    ensures
        r@ == hex_seq(bytes@),
        r@.len() == 2 * bytes@.len(),
{
    let mut out: Vec<char> = Vec::new();
    let mut k: usize = 0;
    while k < bytes.len()
        invariant
            k <= bytes@.len(),
            out@ == hex_seq(bytes@.take(k as int)),
            out@.len() == 2 * k,
        decreases bytes.len() - k,
    {
        assert(bytes@.take(k + 1).drop_last() =~= bytes@.take(k as int));
        assert(bytes@.take(k + 1).last() == bytes@[k as int]);
        let b = bytes[k];
        let hi = hex_char(b / 16);
        let lo = hex_char(b % 16);
        let ghost before = out@;
        out.push(hi);
        out.push(lo);
        assert(out@ =~= before + seq![hex_digit(b as int / 16), hex_digit(b as int % 16)]);
        k = k + 1;
    }
    assert(bytes@.take(bytes.len() as int) =~= bytes@);
    crate::text::string_from_chars(&out)
}

/// The stored form of a refresh token: the hexadecimal SHA-256 digest of
/// its UTF-8 bytes.
pub open spec fn refresh_hash_spec(token: Seq<char>) -> Seq<char> {
    hex_seq(sha256_digest(vstd::utf8::encode_utf8(token)))
}

/// The stored form of a refresh token: the hexadecimal SHA-256 digest of
/// its UTF-8 bytes, 64 characters long.
pub fn hash_refresh_token(token: &str) -> (r: String)
    ensures
        r@ == refresh_hash_spec(token@),
        r@.len() == 64,
{
    let digest = sha256(token.as_bytes());
    hex_encode(digest.as_slice())
}

/// The name of a store's refresh cookie.
pub fn refresh_cookie_name(store_id: &str) -> (r: String)
    ensures
        r@ == "refresh_token_"@ + store_id@,
{
    concat("refresh_token_", store_id)
}

/// The decimal rendering of a signed number.
pub open spec fn signed_decimal(n: int) -> Seq<char> {
    if n < 0 {
        seq!['-'] + decimal((-n) as nat)
    } else {
        decimal(n as nat)
    }
}

/// The decimal rendering of a signed number (`i64`'s `Display`).
pub fn format_i64(n: i64) -> (r: String)
    ensures
        r@ == signed_decimal(n as int),
{
    if n < 0 {
        let m: u64 = ((-(n + 1)) as u64) + 1;
        let digits = format_u64(m);
        proof {
            reveal_strlit("-");
        }
        concat("-", digits.as_str())
    } else {
        format_u64(n as u64)
    }
}

/// The attributes every refresh cookie carries, and `; Secure` when asked.
pub open spec fn cookie_tail(secure: bool) -> Seq<char> {
    "; Path=/; HttpOnly; SameSite=Lax"@ + if secure {
        "; Secure"@
    } else {
        Seq::empty()
    }
}

/// The `Set-Cookie` value that stores a refresh token.
pub fn build_refresh_cookie(name: &str, value: &str, max_age_seconds: i64, secure: bool) -> (r:
    String)
    ensures
        r@ == name@ + "="@ + value@ + "; Max-Age="@ + signed_decimal(max_age_seconds as int)
            + cookie_tail(secure),
{
    let a = concat(name, "=");
    let b = concat(a.as_str(), value);
    let c = concat(b.as_str(), "; Max-Age=");
    let age = format_i64(max_age_seconds);
    let d = concat(c.as_str(), age.as_str());
    let e = concat(d.as_str(), "; Path=/; HttpOnly; SameSite=Lax");
    if secure {
        concat(e.as_str(), "; Secure")
    } else {
        e
    }
}

/// The `Set-Cookie` value that removes a refresh cookie.
pub fn clear_refresh_cookie(name: &str, secure: bool) -> (r: String)
    ensures
        r@ == name@ + "=; Max-Age=0"@ + cookie_tail(secure),
{
    let a = concat(name, "=; Max-Age=0");
    let e = concat(a.as_str(), "; Path=/; HttpOnly; SameSite=Lax");
    if secure {
        concat(e.as_str(), "; Secure")
    } else {
        e
    }
}

/// A yes/no setting is on when it is `1` or, in any case, `true`.
pub open spec fn flag_on(value: Option<Seq<char>>) -> bool {
    match value {
        Some(v) => v == "1"@ || eq_ignore_ascii_case_seq(v, "true"@),
        None => false,
    }
}

/// A yes/no setting is on when it is `1` or, in any case, `true`.
pub fn flag_enabled(value: Option<&str>) -> (r: bool)
    ensures
        r == flag_on(
            match value {
                Some(v) => Some(v@),
                None => None,
            },
        ),
{
    match value {
        Some(v) => str_eq(v, "1") || eq_ignore_ascii_case(v, "true"),
        None => false,
    }
}

/// The value of the first cookie among `parts` (each trimmed) that is
/// named by `prefix` (the name and `=`) and has a non-empty value.
pub open spec fn cookie_value(parts: Seq<Seq<char>>, prefix: Seq<char>) -> Option<Seq<char>>
    decreases parts.len(),
{
    if parts.len() == 0 {
        None
    } else {
        let p = trim_seq(parts[0]);
        if starts_with_seq(p, prefix) && p.len() > prefix.len() {
            Some(p.subrange(prefix.len() as int, p.len() as int))
        } else {
            cookie_value(parts.drop_first(), prefix)
        }
    }
}

/// The value of cookie `name` in a `Cookie` header, when it has a non-empty
/// one.
pub fn extract_cookie(header: Option<&str>, name: &str) -> (r: Option<String>)
    ensures
        match header {
            None => r is None,
            Some(h) => match cookie_value(split_seq(h@, ';'), name@ + "="@) {
                Some(v) => r matches Some(s) && s@ == v,
                None => r is None,
            },
        },
{
    let raw = match header {
        None => return None,
        Some(h) => h,
    };
    let parts = split(raw, ';');
    let prefix = concat(name, "=");
    let ghost ps = split_seq(raw@, ';');
    let mut k: usize = 0;
    assert(ps.skip(0) =~= ps);
    while k < parts.len()
        invariant
            k <= parts@.len(),
            ps == split_seq(raw@, ';'),
            prefix@ == name@ + "="@,
            header == Some(raw),
            parts@.len() == ps.len(),
            forall|j: int| 0 <= j < parts@.len() ==> #[trigger] parts@[j]@ == ps[j],
            cookie_value(ps, prefix@) == cookie_value(ps.skip(k as int), prefix@),
        decreases parts.len() - k,
    {
        let ghost rest = ps.skip(k as int);
        assert(rest[0] == ps[k as int]);
        assert(rest.drop_first() =~= ps.skip(k + 1));
        let part = trim(parts[k].as_str());
        match strip_prefix(part.as_str(), prefix.as_str()) {
            Some(value) => {
                if !value.as_str().is_empty() {
                    assert(cookie_value(rest, prefix@) == Some(value@));
                    return Some(value);
                }
            },
            None => {},
        }
        k = k + 1;
    }
    assert(ps.skip(parts.len() as int).len() == 0);
    None
}

/// A refresh cookie read back from the `Cookie` header a browser sends for
/// it gives the token that was set: when the name and token hold no white
/// space and no `;`, and the token is not empty.
pub proof fn lemma_cookie_roundtrip(name: Seq<char>, token: Seq<char>)
    requires
        token.len() > 0,
        forall|k: int| 0 <= k < name.len() ==> #[trigger] name[k] != ';' && !crate::text::is_ws(name[k]),
        forall|k: int| 0 <= k < token.len() ==> #[trigger] token[k] != ';' && !crate::text::is_ws(token[k]),
    ensures
        cookie_value(split_seq(name + "="@ + token, ';'), name + "="@) == Some(token),
{
    reveal_strlit("=");
    let prefix = name + "="@;
    let header = prefix + token;
    assert forall|k: int| 0 <= k < header.len() implies #[trigger] header[k] != ';' by {
        if k < name.len() {
            assert(header[k] == name[k]);
        } else if k == name.len() {
            assert(header[k] == '=');
        } else {
            assert(header[k] == token[k - name.len() - 1]);
        }
    }
    crate::text::lemma_find_char_bounds(header, ';');
    assert(crate::text::find_char(header, ';') == header.len());
    assert(split_seq(header, ';') == seq![header]);
    assert(header[0] != ';');
    assert(!crate::text::is_ws(header[0])) by {
        if name.len() > 0 {
            assert(header[0] == name[0]);
        } else {
            assert(header[0] == '=');
        }
    }
    assert(header.last() == token.last());
    assert(!crate::text::is_ws(header.last()));
    assert(crate::text::trim_start_seq(header) == header);
    assert(crate::text::trim_end_seq(header) == header);
    assert(trim_seq(header) == header);
    assert(starts_with_seq(header, prefix)) by {
        assert(header.subrange(0, prefix.len() as int) =~= prefix);
    }
    assert(header.subrange(prefix.len() as int, header.len() as int) =~= token);
    assert(seq![header].drop_first().len() == 0);
}

/// The store a refresh is for: the request's non-empty store id, else 400
/// "store_id is required".
pub fn refresh_store_id(store: Option<crate::context::StoreContext>) -> (r: Result<String, RpcError>)
    ensures
        match store {
            Some(s) => if s.store_id@.len() > 0 {
                r matches Ok(id) && id@ == s.store_id@
            } else {
                r matches Err(e) && e.status == crate::errors::STATUS_BAD_REQUEST && e.error.code
                    == ErrorCode::InvalidArgument && e.error.message@ == "store_id is required"@
            },
            None => r matches Err(e) && e.status == crate::errors::STATUS_BAD_REQUEST
                && e.error.code == ErrorCode::InvalidArgument && e.error.message@
                == "store_id is required"@,
        },
{
    match store {
        Some(s) => if !s.store_id.as_str().is_empty() {
            Ok(s.store_id)
        } else {
            Err(RpcError::invalid_argument("store_id is required"))
        },
        None => Err(RpcError::invalid_argument("store_id is required")),
    }
}

/// The store whose refresh cookie a sign-out clears: the request's non-empty
/// store id, else the caller's.
pub fn sign_out_store_id(store: Option<crate::context::StoreContext>, caller_store: Option<String>) -> (r:
    Option<String>)
    ensures
        match store {
            Some(s) => if s.store_id@.len() > 0 {
                r matches Some(id) && id@ == s.store_id@
            } else {
                r == caller_store
            },
            None => r == caller_store,
        },
{
    match store {
        Some(s) => if !s.store_id.as_str().is_empty() {
            Some(s.store_id)
        } else {
            caller_store
        },
        None => caller_store,
    }
}

/// A refresh token as stored: whether it was revoked, and when it expires.
#[derive(Debug, Clone, Copy, PartialEq, Eq)]
pub struct RefreshRecord {
    pub revoked: bool,
    pub expires_at: Instant,
}

/// A refresh needs the token from the cookie.
pub fn require_refresh_token(token: &str) -> (r: Result<(), IdentityError>)
    ensures
        r is Ok <==> token@.len() > 0,
        r matches Err(e) ==> e == IdentityError::Unauthenticated(e.payload()) && e.payload()@
            == "refresh token is required"@,
{
    if token.is_empty() {
        Err(IdentityError::unauthenticated("refresh token is required"))
    } else {
        Ok(())
    }
}

/// Why a stored refresh token cannot be used at `now`, if it cannot.
pub open spec fn refresh_rejection(found: Option<RefreshRecord>, now: Instant) -> Option<Seq<char>> {
    match found {
        None => Some("refresh token not found"@),
        Some(t) => if t.revoked || !later(t.expires_at, now) {
            Some("refresh token expired"@)
        } else {
            None
        },
    }
}

/// A refresh token must be found, unrevoked and not yet expired at `now`;
/// each refusal is 401 `unauthenticated`.
pub fn check_refresh_record(found: Option<RefreshRecord>, now: Instant) -> (r: Result<
    (),
    IdentityError,
>)
    ensures
        match refresh_rejection(found, now) {
            None => r is Ok,
            Some(m) => r matches Err(e) && e == IdentityError::Unauthenticated(e.payload())
                && e.payload()@ == m,
        },
{
    match found {
        None => Err(IdentityError::unauthenticated("refresh token not found")),
        Some(t) => {
            let live = t.expires_at.seconds > now.seconds || (t.expires_at.seconds == now.seconds
                && t.expires_at.nanos > now.nanos);
            if t.revoked || !live {
                Err(IdentityError::unauthenticated("refresh token expired"))
            } else {
                Ok(())
            }
        },
    }
}

/// A refresh token row: its id, the stored hash of the token, whether it
/// was revoked and when it expires, and the token that replaced it.
#[derive(Debug, Clone, PartialEq, Eq)]
pub struct StoredRefreshToken {
    pub id: String,
    pub token_hash: String,
    pub record: RefreshRecord,
    pub replaced_by: Option<String>,
}

/// The instant `days` whole days after `t`.
pub open spec fn days_after(t: Instant, days: int) -> Instant {
    Instant { seconds: (t.seconds + days * 86400) as i64, nanos: t.nanos }
}

/// Rotates the refresh token `used` at `now`: the token must pass
/// `check_refresh_record`; then the used row is revoked and points at
/// `new_id`, and a new row with id `new_id` stores the hash of
/// `new_token`, unrevoked, expiring `REFRESH_TOKEN_TTL_DAYS` days after `now`.
pub fn rotate_refresh_token(
    used: Option<StoredRefreshToken>,
    new_id: &str,
    new_token: &str,
    now: Instant,
) -> (r: Result<(StoredRefreshToken, StoredRefreshToken), IdentityError>)
    requires
        now.seconds <= i64::MAX - REFRESH_TOKEN_TTL_DAYS * 86400,
    ensures
        match refresh_rejection(
            match used {
                Some(u) => Some(u.record),
                None => None,
            },
            now,
        ) {
            Some(m) => r matches Err(e) && e == IdentityError::Unauthenticated(e.payload())
                && e.payload()@ == m,
            None => r matches Ok((old_row, new_row)) && {
                let u = used.unwrap();
                &&& old_row.id@ == u.id@
                &&& old_row.token_hash@ == u.token_hash@
                &&& old_row.record == RefreshRecord { revoked: true, expires_at: u.record.expires_at }
                &&& old_row.replaced_by matches Some(n) && n@ == new_id@
                &&& new_row.id@ == new_id@
                &&& new_row.token_hash@ == refresh_hash_spec(new_token@)
                &&& new_row.record == RefreshRecord {
                    revoked: false,
                    expires_at: days_after(now, REFRESH_TOKEN_TTL_DAYS as int),
                }
                &&& new_row.replaced_by is None
            },
        },
{
    let record = match &used {
        Some(u) => Some(u.record),
        None => None,
    };
    match check_refresh_record(record, now) {
        Err(e) => Err(e),
        Ok(()) => {
            let u = used.unwrap();
            let old_row = StoredRefreshToken {
                id: to_owned(u.id.as_str()),
                token_hash: to_owned(u.token_hash.as_str()),
                record: RefreshRecord { revoked: true, expires_at: u.record.expires_at },
                replaced_by: Some(to_owned(new_id)),
            };
            let new_row = StoredRefreshToken {
                id: to_owned(new_id),
                token_hash: hash_refresh_token(new_token),
                record: RefreshRecord {
                    revoked: false,
                    expires_at: Instant {
                        seconds: refresh_token_expiry(now.seconds),
                        nanos: now.nanos,
                    },
                },
                replaced_by: None,
            };
            Ok((old_row, new_row))
        },
    }
}

/// A refresh token works once: after a rotation at `now` the used token is
/// refused at every instant, while its replacement is accepted at `now`.
pub proof fn lemma_rotated_token_refused(used: RefreshRecord, now: Instant, t: Instant)
    requires
        refresh_rejection(Some(used), now) is None,
        now.seconds <= i64::MAX - REFRESH_TOKEN_TTL_DAYS * 86400,
    ensures
        refresh_rejection(Some(RefreshRecord { revoked: true, expires_at: used.expires_at }), t)
            == Some("refresh token expired"@),
        refresh_rejection(
            Some(RefreshRecord { revoked: false, expires_at: days_after(now, REFRESH_TOKEN_TTL_DAYS as int) }),
            now,
        ) is None,
{
}

/// The staff member a refresh token belongs to must exist and be active;
/// `status` is that member's status when found.
pub fn check_refresh_staff(status: Option<&str>) -> (r: Result<(), IdentityError>)
    ensures
        r is Ok <==> (status is Some && status.unwrap()@ == "active"@),
        r matches Err(e) ==> e == IdentityError::Unauthenticated(e.payload()) && e.payload()@ == (
        if status is None {
            "staff not found"@
        } else {
            "staff is inactive"@
        }),
{
    match status {
        None => Err(IdentityError::unauthenticated("staff not found")),
        Some(s) => if str_eq(s, "active") {
            Ok(())
        } else {
            Err(IdentityError::unauthenticated("staff is inactive"))
        },
    }
}

/// When an access token issued at `now` (seconds since the epoch) expires.
pub fn access_token_expiry(now: i64) -> (r: i64)
    requires
        now <= i64::MAX - ACCESS_TOKEN_TTL_MINUTES * 60,
    ensures
        r == now + ACCESS_TOKEN_TTL_MINUTES * 60,
{
    now + ACCESS_TOKEN_TTL_MINUTES * 60
}

/// When a refresh token issued at `now` (seconds since the epoch) expires.
pub fn refresh_token_expiry(now: i64) -> (r: i64)
    requires
        now <= i64::MAX - REFRESH_TOKEN_TTL_DAYS * 86400,
    ensures
        r == now + REFRESH_TOKEN_TTL_DAYS * 86400,
{
    now + REFRESH_TOKEN_TTL_DAYS * 86400
}

/// A name for whether `password` matches the stored Argon2 `hash` (false
/// when the hash does not parse); the answer depends on the two texts alone.
pub uninterp spec fn argon2_verifies(password: Seq<char>, hash: Seq<char>) -> bool;

/// Parses the stored hash with `argon2::PasswordHash::new` and checks the
/// password with `Argon2::default().verify_password`. The contract names
/// the answer `argon2_verifies`.
#[verifier::external_body]
fn verify_password(password: &str, hash: &str) -> (r: bool)
    ensures
        r == argon2_verifies(password@, hash@),
{
    match argon2::PasswordHash::new(hash) {
        Ok(parsed) => argon2::PasswordVerifier::verify_password(
            &argon2::Argon2::default(),
            password.as_bytes(),
            &parsed,
        ).is_ok(),
        Err(_) => false,
    }
}

/// The outcome of a credential check, given whether the password matched.
pub fn credentials_outcome(password_hash: Option<&str>, matched: bool) -> (r: Result<
    (),
    IdentityError,
>)
    ensures
        r is Ok <==> password_hash is Some && matched,
        r matches Err(e) ==> e == IdentityError::Unauthenticated(e.payload()) && e.payload()@
            == "invalid credentials"@,
{
    if password_hash.is_none() || !matched {
        Err(IdentityError::unauthenticated("invalid credentials"))
    } else {
        Ok(())
    }
}

/// A member found for a sign-in must have a password hash that the given
/// password matches; a mismatch is 401 "invalid credentials".
pub fn check_credentials(password_hash: Option<&str>, password: &str) -> (r: Result<
    (),
    IdentityError,
>)
    ensures
        r is Ok <==> password_hash is Some && argon2_verifies(password@, password_hash.unwrap()@),
        r matches Err(e) ==> e == IdentityError::Unauthenticated(e.payload()) && e.payload()@
            == "invalid credentials"@,
{
    match password_hash {
        None => credentials_outcome(None, false),
        Some(h) => {
            let matched = verify_password(password, h);
            credentials_outcome(Some(h), matched)
        },
    }
}

/// Hashes a password with Argon2 and a fresh random salt
/// (`Argon2::default().hash_password` with `SaltString::generate(&mut OsRng)`),
/// in PHC string form; `None` when hashing fails, which with the default
/// parameters and a generated salt happens only for a password longer than
/// `0xFFFF_FFFF` bytes (`PwdTooLong`). The salt is random, so
/// the text itself is not stated; what is stated is that the hash given
/// back verifies the password it was made from: `verify_password` reads the
/// salt and parameters from the PHC string, hashes the password again with
/// them and compares the outputs.
#[verifier::external_body]
pub(crate) fn argon2_hash(password: &str) -> (r: Option<String>)
    ensures
        vstd::utf8::encode_utf8(password@).len() <= 0xFFFF_FFFF ==> r is Some,
        r matches Some(h) ==> argon2_verifies(password@, h@),
{
    let salt = argon2::password_hash::SaltString::generate(&mut rand_core::OsRng);
    match argon2::PasswordHasher::hash_password(&argon2::Argon2::default(), password.as_bytes(), &salt) {
        Ok(hash) => Some(hash.to_string()),
        Err(_) => None,
    }
}

/// A password hash, or 500 "failed to hash password" when hashing failed.
pub fn password_hash_outcome(hashed: Option<String>) -> (r: Result<String, IdentityError>)
    ensures
        match hashed {
            Some(h) => r matches Ok(s) && s@ == h@,
            None => r matches Err(e) && e == IdentityError::Internal(e.payload()) && e.payload()@
                == "failed to hash password"@,
        },
{
    match hashed {
        Some(h) => Ok(h),
        None => Err(IdentityError::internal("failed to hash password")),
    }
}

/// Hashes a new password for storage; the stored hash verifies the
/// password.
pub fn hash_password(password: &str) -> (r: Result<String, IdentityError>)
    ensures
        vstd::utf8::encode_utf8(password@).len() <= 0xFFFF_FFFF ==> r is Ok,
        r matches Ok(h) ==> argon2_verifies(password@, h@),
        r matches Err(e) ==> e == IdentityError::Internal(e.payload()) && e.payload()@
            == "failed to hash password"@,
{
    password_hash_outcome(argon2_hash(password))
}

/// What the session check of a request does next.
#[derive(Debug, Clone, PartialEq, Eq)]
pub enum SessionGate {
    /// Let the request through unchecked.
    Pass,
    /// Refuse it with 401 and this message.
    Refuse(String),
    /// Look the session up by these ids.
    Lookup { session_id: String, staff_id: String, store_id: String },
}

/// What the session check does for a request with this caller.
pub open spec fn session_gate_spec(auth: Option<crate::auth::AuthContext>) -> SessionGate {
    match auth {
        None => SessionGate::Pass,
        Some(a) => match a.session_id {
            None => SessionGate::Pass,
            Some(sid) => match a.store_id {
                None => SessionGate::Refuse(arbitrary()),
                Some(store) => if uuid_parses(sid@) && uuid_parses(a.actor_id@) && uuid_parses(
                    store@,
                ) {
                    SessionGate::Lookup { session_id: sid, staff_id: a.actor_id, store_id: store }
                } else {
                    SessionGate::Refuse(arbitrary())
                },
            },
        },
    }
}

/// The session check of a request: callers without a session pass; a
/// session without a store is refused "unauthenticated"; ids that are not
/// UUIDs are refused "invalid session"; otherwise the session is looked up.
pub fn session_gate(auth: Option<crate::auth::AuthContext>) -> (r: SessionGate)
    ensures
        match (r, session_gate_spec(auth)) {
            (SessionGate::Pass, SessionGate::Pass) => true,
            (
                SessionGate::Lookup { session_id: a, staff_id: b, store_id: c },
                SessionGate::Lookup { session_id: x, staff_id: y, store_id: z },
            ) => a@ == x@ && b@ == y@ && c@ == z@,
            (SessionGate::Refuse(m), SessionGate::Refuse(_)) => m@ == if auth.unwrap().store_id is None {
                "unauthenticated"@
            } else {
                "invalid session"@
            },
            _ => false,
        },
{
    let a = match auth {
        None => return SessionGate::Pass,
        Some(a) => a,
    };
    let sid = match a.session_id {
        None => return SessionGate::Pass,
        Some(s) => s,
    };
    let store = match a.store_id {
        None => return SessionGate::Refuse(to_owned("unauthenticated")),
        Some(s) => s,
    };
    if !is_uuid(sid.as_str()) || !is_uuid(a.actor_id.as_str()) || !is_uuid(store.as_str()) {
        return SessionGate::Refuse(to_owned("invalid session"));
    }
    SessionGate::Lookup { session_id: sid, staff_id: a.actor_id, store_id: store }
}

/// A stored session as the check reads it.
#[derive(Debug, Clone, Copy, PartialEq, Eq)]
pub struct SessionRecord {
    pub revoked: bool,
    pub expires_at: Option<Instant>,
}

/// A looked-up session lets the request through when it was found, is not
/// revoked, and has not expired at `now`; otherwise 401 "unauthenticated".
pub fn check_session_record(found: Option<SessionRecord>, now: Instant) -> (r: Result<
    (),
    RpcError,
>)
    ensures
        r is Ok <==> match found {
            None => false,
            Some(s) => !s.revoked && match s.expires_at {
                None => true,
                Some(e) => later(e, now),
            },
        },
        r matches Err(e) ==> e.status == STATUS_UNAUTHORIZED && e.error.code
            == ErrorCode::Unauthenticated && e.error.message@ == "unauthenticated"@,
{
    let ok = match found {
        None => false,
        Some(s) => !s.revoked && match s.expires_at {
            None => true,
            Some(e) => e.seconds > now.seconds || (e.seconds == now.seconds && e.nanos
                > now.nanos),
        },
    };
    if ok {
        Ok(())
    } else {
        Err(RpcError::new(STATUS_UNAUTHORIZED, ErrorCode::Unauthenticated, "unauthenticated"))
    }
}

} // verus!
