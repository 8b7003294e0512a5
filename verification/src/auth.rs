//! Who is calling: the bearer token and override headers, the claims of a
//! verified token, and the choice of a signing key from a key set.
use vstd::prelude::*;
use crate::errors::{
    RpcError, STATUS_FORBIDDEN, STATUS_INTERNAL_SERVER_ERROR, STATUS_UNAUTHORIZED,
    middleware_code_spec, middleware_error,
};
use crate::request::{is_uuid, uuid_parses};
use crate::text::{opt_string_view, opt_view, starts_with_seq, str_eq, strip_prefix, to_owned};

verus! {

/// The caller of a request as the authentication layer found it.
#[derive(Debug, Clone, PartialEq, Eq)]
pub struct AuthContext {
    pub actor_id: String,
    pub actor_type: String,
    pub store_id: Option<String>,
    pub tenant_id: Option<String>,
    pub session_id: Option<String>,
}

/// The token of an `Authorization: Bearer <token>` header, when it has a
/// non-empty one.
pub open spec fn bearer_spec(header: Option<Seq<char>>) -> Option<Seq<char>> {
    match header {
        Some(h) => if starts_with_seq(h, "Bearer "@) && h.len() > "Bearer "@.len() {
            Some(h.subrange("Bearer "@.len() as int, h.len() as int))
        } else {
            None
        },
        None => None,
    }
}

/// The token of an `Authorization: Bearer <token>` header, when it has a
/// non-empty one.
pub fn bearer_token(header: Option<&str>) -> (r: Option<String>)
    ensures
        opt_string_view(r) == bearer_spec(opt_view(header)),
{
    match header {
        None => None,
        Some(h) => match strip_prefix(h, "Bearer ") {
            Some(t) => if t.as_str().is_empty() {
                None
            } else {
                Some(t)
            },
            None => None,
        },
    }
}

/// The caller named by the `x-actor-id` and `x-actor-type` headers: none
/// without a non-empty id; the kind defaults to `admin`.
pub fn auth_from_override(actor_id: Option<&str>, actor_type: Option<&str>) -> (r: Option<
    AuthContext,
>)
    ensures
        r is Some <==> (actor_id is Some && actor_id.unwrap()@.len() > 0),
        r matches Some(a) ==> {
            &&& a.actor_id@ == actor_id.unwrap()@
            &&& a.actor_type@ == match actor_type {
                Some(t) => t@,
                None => "admin"@,
            }
            &&& a.store_id is None
            &&& a.tenant_id is None
            &&& a.session_id is None
        },
{
    let id = match actor_id {
        None => return None,
        Some(id) => id,
    };
    if id.is_empty() {
        return None;
    }
    let kind = match actor_type {
        Some(t) => to_owned(t),
        None => to_owned("admin"),
    };
    Some(
        AuthContext {
            actor_id: to_owned(id),
            actor_type: kind,
            store_id: None,
            tenant_id: None,
            session_id: None,
        },
    )
}

/// The claims a verified access token carries.
#[derive(Debug, Clone, PartialEq, Eq)]
pub struct TokenClaims {
    pub sub: String,
    pub actor_type: Option<String>,
    pub store_id: Option<String>,
    pub tenant_id: Option<String>,
    pub jti: Option<String>,
}

/// The caller a verified token names: its subject, its kind or `api`, and
/// its store, tenant and session.
pub fn auth_from_claims(claims: TokenClaims) -> (r: AuthContext)
    ensures
        r.actor_id@ == claims.sub@,
        r.actor_type@ == match claims.actor_type {
            Some(t) => t@,
            None => "api"@,
        },
        r.store_id == claims.store_id,
        r.tenant_id == claims.tenant_id,
        r.session_id == claims.jti,
{
    let kind = match claims.actor_type {
        Some(t) => t,
        None => to_owned("api"),
    };
    AuthContext {
        actor_id: claims.sub,
        actor_type: kind,
        store_id: claims.store_id,
        tenant_id: claims.tenant_id,
        session_id: claims.jti,
    }
}

/// Without a signing secret configured, a bearer token that no key verifies
/// is taken as the caller's id, of kind `api`; with one, it is refused.
pub fn dev_fallback(token: &str, secret_configured: bool) -> (r: Option<AuthContext>)
    ensures
        r is Some <==> !secret_configured,
        r matches Some(a) ==> a.actor_id@ == token@ && a.actor_type@ == "api"@ && a.store_id is None
            && a.tenant_id is None && a.session_id is None,
{
    if secret_configured {
        None
    } else {
        Some(
            AuthContext {
                actor_id: to_owned(token),
                actor_type: to_owned("api"),
                store_id: None,
                tenant_id: None,
                session_id: None,
            },
        )
    }
}

/// A key from a JSON Web Key Set.
#[derive(Debug, Clone, PartialEq, Eq)]
pub struct JwkKey {
    pub kty: String,
    pub kid: Option<String>,
    pub alg: Option<String>,
    pub n: String,
    pub e: String,
}

/// Only RSA keys meant for RS256 (or for no stated algorithm) verify tokens.
pub fn jwk_acceptable(key: &JwkKey) -> (r: bool)
    ensures
        r == (key.kty@ == "RSA"@ && match key.alg {
            Some(a) => a@ == "RS256"@,
            None => true,
        }),
{
    if !str_eq(key.kty.as_str(), "RSA") {
        return false;
    }
    match &key.alg {
        Some(a) => str_eq(a.as_str(), "RS256"),
        None => true,
    }
}

/// The id a key is filed under: its `kid`, or empty.
pub open spec fn key_id(k: JwkKey) -> Seq<char> {
    match k.kid {
        Some(id) => id@,
        None => Seq::empty(),
    }
}

/// The ids of a key table's entries.
pub open spec fn table_ids(t: Seq<(String, JwkKey)>) -> Seq<Seq<char>> {
    t.map_values(|p: (String, JwkKey)| p.0@)
}

/// No id occurs twice in a key table.
pub open spec fn distinct_ids(t: Seq<(String, JwkKey)>) -> bool {
    forall|i: int, j: int| 0 <= i < j < t.len() ==> t[i].0@ != t[j].0@
}

/// The key filed under `id`, if any.
pub open spec fn table_get(t: Seq<(String, JwkKey)>, id: Seq<char>) -> Option<JwkKey> {
    if exists|i: int| 0 <= i < t.len() && t[i].0@ == id {
        let i = choose|i: int| 0 <= i < t.len() && t[i].0@ == id;
        Some(t[i].1)
    } else {
        None
    }
}

/// The keys of a key set filed by id, as a map: a later key with the same
/// id replaces an earlier one.
pub open spec fn key_map(keys: Seq<JwkKey>) -> Map<Seq<char>, JwkKey>
    decreases keys.len(),
{
    if keys.len() == 0 {
        Map::empty()
    } else {
        key_map(keys.drop_last()).insert(key_id(keys.last()), keys.last())
    }
}

/// The map a key table stands for.
pub open spec fn table_map(t: Seq<(String, JwkKey)>) -> Map<Seq<char>, JwkKey> {
    Map::new(|id: Seq<char>| table_get(t, id) is Some, |id: Seq<char>| table_get(t, id)->0)
}

proof fn lemma_table_get_at(t: Seq<(String, JwkKey)>, id: Seq<char>, i: int)
    requires
        distinct_ids(t),
        0 <= i < t.len(),
        t[i].0@ == id,
    ensures
        table_get(t, id) == Some(t[i].1),
{
    let c = choose|j: int| 0 <= j < t.len() && t[j].0@ == id;
    assert(0 <= c < t.len() && t[c].0@ == id);
    if c < i {
        assert(t[c].0@ != t[i].0@);
    } else if i < c {
        assert(t[i].0@ != t[c].0@);
    }
}

proof fn lemma_table_file(t: Seq<(String, JwkKey)>, u: Seq<(String, JwkKey)>, id: Seq<char>, key: JwkKey, at: int)
    requires
        distinct_ids(t),
        0 <= at <= t.len(),
        at == t.len() ==> (forall|j: int| 0 <= j < t.len() ==> t[j].0@ != id),
        at < t.len() ==> t[at].0@ == id,
        u.len() == if at == t.len() { t.len() + 1 } else { t.len() + 0 },
        u[at].0@ == id,
        u[at].1 == key,
        forall|j: int| 0 <= j < t.len() && j != at ==> #[trigger] u[j] == t[j],
    ensures
        distinct_ids(u),
        table_map(u) == table_map(t).insert(id, key),
{
    assert forall|i: int, j: int| 0 <= i < j < u.len() implies u[i].0@ != u[j].0@ by {
        if i != at && j != at {
            assert(u[i] == t[i] && u[j] == t[j]);
        } else if i == at {
            assert(u[j] == t[j]);
        } else {
            assert(u[i] == t[i]);
        }
    }
    assert forall|x: Seq<char>| #[trigger] table_get(u, x) == if x == id {
        Some(key)
    } else {
        table_get(t, x)
    } by {
        if x == id {
            lemma_table_get_at(u, id, at);
        } else if exists|i: int| 0 <= i < t.len() && t[i].0@ == x {
            let i = choose|i: int| 0 <= i < t.len() && t[i].0@ == x;
            lemma_table_get_at(t, x, i);
            assert(i != at);
            assert(u[i] == t[i]);
            lemma_table_get_at(u, x, i);
        } else {
            if exists|i: int| 0 <= i < u.len() && u[i].0@ == x {
                let i = choose|i: int| 0 <= i < u.len() && u[i].0@ == x;
                assert(i != at);
                assert(u[i] == t[i]);
            }
        }
    }
    assert(table_map(u) =~= table_map(t).insert(id, key));
}

/// Files the keys of a key set by id; a later key with an id already filed
/// replaces the earlier one.
pub fn build_key_table(keys: Vec<JwkKey>) -> (r: Vec<(String, JwkKey)>)
    ensures
        distinct_ids(r@),
        table_map(r@) == key_map(keys@),
{
    let ghost all = keys@;
    let mut left = keys;
    let mut table: Vec<(String, JwkKey)> = Vec::new();
    assert(table_map(table@) =~= key_map(all.take(0)));
    assert(left@ =~= all.skip(0));
    while left.len() > 0
        invariant
            left@.len() <= all.len(),
            left@ == all.skip(all.len() - left@.len()),
            distinct_ids(table@),
            table_map(table@) == key_map(all.take(all.len() - left@.len())),
        decreases left.len(),
    {
        let ghost k: int = all.len() - left@.len();
        assert(all.take(k + 1).drop_last() =~= all.take(k));
        assert(all.take(k + 1).last() == all[k]);
        assert(left@[0] == all[k]);
        let key = left.remove(0);
        assert(left@ =~= all.skip(k + 1));
        let id = match &key.kid {
            Some(s) => to_owned(s.as_str()),
            None => String::new(),
        };
        assert(id@ == key_id(all[k]));
        let ghost before = table@;
        let mut i: usize = 0;
        let mut found = false;
        while i < table.len()
            invariant_except_break
                !found,
            invariant
                i <= table@.len(),
                table@ == before,
                forall|j: int| 0 <= j < i ==> table@[j].0@ != id@,
            ensures
                i <= table@.len(),
                table@ == before,
                found ==> i < table@.len() && table@[i as int].0@ == id@,
                !found ==> i == table@.len() && forall|j: int| 0 <= j < table@.len() ==> table@[j].0@ != id@,
            decreases table.len() - i,
        {
            if str_eq(table[i].0.as_str(), id.as_str()) {
                found = true;
                break;
            }
            i = i + 1;
        }
        let ghost at = i as int;
        if found {
            table.set(i, (id, key));
        } else {
            table.push((id, key));
        }
        proof {
            lemma_table_file(before, table@, key_id(all[k]), all[k], at);
        }
    }
    assert(all.take(all.len() as int) =~= all);
    table
}

/// The key a token's `kid` names in a key table; without a `kid`, the only
/// key when there is exactly one.
pub open spec fn select_spec(t: Seq<(String, JwkKey)>, kid: Option<Seq<char>>) -> Option<JwkKey> {
    match kid {
        Some(k) => table_get(t, k),
        None => if t.len() == 1 {
            Some(t[0].1)
        } else {
            None
        },
    }
}

/// The index of the key a token's `kid` names (or, without one, of the only
/// key), when there is one.
pub fn select_jwk(table: &Vec<(String, JwkKey)>, kid: Option<&str>) -> (r: Option<usize>)
    requires
        distinct_ids(table@),
    ensures
        match select_spec(table@, opt_view(kid)) {
            Some(k) => r matches Some(i) && i < table@.len() && table@[i as int].1 == k,
            None => r is None,
        },
{
    match kid {
        Some(k) => {
            let mut i: usize = 0;
            while i < table.len()
                invariant
                    i <= table@.len(),
                    kid == Some(k),
                    distinct_ids(table@),
                    forall|j: int| 0 <= j < i ==> table@[j].0@ != k@,
                decreases table.len() - i,
            {
                if str_eq(table[i].0.as_str(), k) {
                    proof {
                        lemma_table_get_at(table@, k@, i as int);
                    }
                    return Some(i);
                }
                i = i + 1;
            }
            None
        },
        None => if table.len() == 1 {
            Some(0)
        } else {
            None
        },
    }
}

/// After a key set is filed, a token's `kid` finds the last key of the set
/// with that id, and nothing when no key has it.
pub proof fn lemma_select_after_build(t: Seq<(String, JwkKey)>, keys: Seq<JwkKey>, kid: Seq<char>)
    requires
        distinct_ids(t),
        table_map(t) == key_map(keys),
    ensures
        select_spec(t, Some(kid)) == if key_map(keys).dom().contains(kid) {
            Some(key_map(keys)[kid])
        } else {
            None
        },
{
    assert(table_map(t).dom().contains(kid) == (table_get(t, kid) is Some));
}

/// When a token names a key the set lacks, a set of exactly one key may
/// stand in for it if the deployment allows that.
pub fn single_key_fallback(kid_given: bool, table_len: usize, allowed: bool) -> (r: bool)
    ensures
        r == (kid_given && table_len == 1 && allowed),
{
    kid_given && table_len == 1 && allowed
}

/// How long a fetched key set is trusted, in milliseconds.
pub const JWKS_TTL_MS: u64 = 300000;

/// A key set fetched at `fetched_at` is still fresh at `now` (milliseconds
/// on a monotonic clock; a `now` before the fetch counts as no time passed).
pub fn jwks_fresh(fetched_at: Option<u64>, now: u64) -> (r: bool)
    ensures
        r == match fetched_at {
            Some(f) => (if now >= f {
                now - f
            } else {
                0
            }) < JWKS_TTL_MS,
            None => false,
        },
{
    match fetched_at {
        Some(f) => {
            let elapsed = if now >= f {
                now - f
            } else {
                0
            };
            elapsed < JWKS_TTL_MS
        },
        None => false,
    }
}

/// What the permission check of a request does next.
#[derive(Debug, Clone, PartialEq, Eq)]
pub enum PermissionGate {
    /// Let the request through.
    Allow,
    /// Refuse it with this status and message.
    Refuse { status: u16, message: String },
    /// Look up whether the staff member holds the permission in the store.
    Lookup { staff_id: String, store_id: String },
}

/// The refusal, if any, the permission check gives a caller before any
/// lookup: none for owners; else the status and message.
pub open spec fn permission_refusal(auth: Option<AuthContext>) -> Option<(u16, Seq<char>)> {
    match auth {
        None => Some((STATUS_UNAUTHORIZED, "unauthenticated"@)),
        Some(a) => if a.actor_type@ == "owner"@ {
            None
        } else {
            match a.store_id {
                None => Some((STATUS_FORBIDDEN, "store_id is required"@)),
                Some(s) => if !uuid_parses(a.actor_id@) {
                    Some((STATUS_FORBIDDEN, "actor_id is invalid"@))
                } else if !uuid_parses(s@) {
                    Some((STATUS_FORBIDDEN, "store_id is invalid"@))
                } else {
                    None
                },
            }
        },
    }
}

/// An owner is never refused by the permission check, whatever else the
/// caller carries.
pub proof fn lemma_owner_always_allowed(a: AuthContext)
    requires
        a.actor_type@ == "owner"@,
    ensures
        permission_refusal(Some(a)) is None,
{
}

/// The permission check of a request: no caller is refused (401), owners
/// pass, other callers need a store and UUID ids (else 403), and are then
/// looked up.
pub fn permission_gate(auth: Option<AuthContext>) -> (r: PermissionGate)
    ensures
        match permission_refusal(auth) {
            Some((status, message)) => r matches PermissionGate::Refuse { status: s, message: m }
                && s == status && m@ == message,
            None => if auth.unwrap().actor_type@ == "owner"@ {
                r == PermissionGate::Allow
            } else {
                r matches PermissionGate::Lookup { staff_id, store_id } && staff_id@
                    == auth.unwrap().actor_id@ && store_id@ == auth.unwrap().store_id.unwrap()@
            },
        },
{
    let a = match auth {
        None => {
            return PermissionGate::Refuse {
                status: STATUS_UNAUTHORIZED,
                message: to_owned("unauthenticated"),
            };
        },
        Some(a) => a,
    };
    if str_eq(a.actor_type.as_str(), "owner") {
        return PermissionGate::Allow;
    }
    let store = match a.store_id {
        None => {
            return PermissionGate::Refuse {
                status: STATUS_FORBIDDEN,
                message: to_owned("store_id is required"),
            };
        },
        Some(s) => s,
    };
    if !is_uuid(a.actor_id.as_str()) {
        return PermissionGate::Refuse { status: STATUS_FORBIDDEN, message: to_owned("actor_id is invalid") };
    }
    if !is_uuid(store.as_str()) {
        return PermissionGate::Refuse { status: STATUS_FORBIDDEN, message: to_owned("store_id is invalid") };
    }
    PermissionGate::Lookup { staff_id: a.actor_id, store_id: store }
}

/// The answer to a permission lookup: `Some(held)` when the lookup ran,
/// `None` when it failed. Held passes; not held is 403 "permission
/// denied"; a failed lookup is 500 "db error".
pub fn permission_verdict(lookup: Option<bool>) -> (r: Result<(), RpcError>)
    ensures
        r is Ok <==> lookup == Some(true),
        r matches Err(e) ==> e.error.code == middleware_code_spec(e.status) && if lookup is None {
            e.status == STATUS_INTERNAL_SERVER_ERROR && e.error.message@ == "db error"@
        } else {
            e.status == STATUS_FORBIDDEN && e.error.message@ == "permission denied"@
        },
{
    match lookup {
        Some(true) => Ok(()),
        Some(false) => Err(middleware_error(STATUS_FORBIDDEN, "permission denied")),
        None => Err(middleware_error(STATUS_INTERNAL_SERVER_ERROR, "db error")),
    }
}

} // verus!
