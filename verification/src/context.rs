//! The tenant, store and actor that a request speaks for, and the rules that
//! decide which store a request is served from.
use vstd::prelude::*;
use crate::errors::{ErrorCode, RpcError, STATUS_BAD_REQUEST, STATUS_FORBIDDEN, STATUS_UNSUPPORTED_MEDIA_TYPE};
use crate::text::{concat, starts_with, starts_with_seq, str_eq};

verus! {

/// A required part of a request must be present; `message` names it.
pub fn require_present(present: bool, message: &str) -> (r: Result<(), RpcError>)
    ensures
        r is Ok <==> present,
        r matches Err(e) ==> e.status == STATUS_BAD_REQUEST && e.error.code
            == ErrorCode::InvalidArgument && e.error.message@ == message@,
{
    if present {
        Ok(())
    } else {
        Err(RpcError::invalid_argument(message))
    }
}

/// The tenant named in a request.
#[derive(Debug, Clone, PartialEq, Eq)]
pub struct TenantContext {
    pub tenant_id: String,
}

/// The store named in a request.
#[derive(Debug, Clone, PartialEq, Eq)]
pub struct StoreContext {
    pub store_id: String,
}

/// Who acts: an identifier and a kind (owner, staff, api, ...).
#[derive(Debug, Clone, PartialEq, Eq)]
pub struct ActorContext {
    pub actor_id: String,
    pub actor_type: String,
}

/// What the request-scoped context of a call holds: the correlation id,
/// client address and agent, and the store and tenant of the caller's token.
#[derive(Debug, Clone, PartialEq, Eq)]
pub struct RequestContext {
    pub request_id: Option<String>,
    pub ip_address: Option<String>,
    pub user_agent: Option<String>,
    pub store_id: Option<String>,
    pub tenant_id: Option<String>,
}

impl RequestContext {
    /// A context with nothing known.
    pub fn empty() -> (r: RequestContext)
        ensures
            r.request_id is None,
            r.ip_address is None,
            r.user_agent is None,
            r.store_id is None,
            r.tenant_id is None,
    {
        RequestContext {
            request_id: None,
            ip_address: None,
            user_agent: None,
            store_id: None,
            tenant_id: None,
        }
    }
}

/// The non-empty id of an optional context entry.
pub open spec fn present_id(id: Option<String>) -> Option<Seq<char>> {
    match id {
        Some(s) => if s@.len() == 0 {
            None
        } else {
            Some(s@)
        },
        None => None,
    }
}

/// The tenant id a request carries, if any.
pub open spec fn tenant_field(t: Option<TenantContext>) -> Option<String> {
    match t {
        Some(c) => Some(c.tenant_id),
        None => None,
    }
}

/// The store id a request carries, if any.
pub open spec fn store_field(s: Option<StoreContext>) -> Option<String> {
    match s {
        Some(c) => Some(c.store_id),
        None => None,
    }
}

/// The tenant id of a request, which must be present and non-empty.
pub fn require_tenant_id(tenant: Option<TenantContext>) -> (r: Result<String, RpcError>)
    ensures
        match present_id(tenant_field(tenant)) {
            Some(id) => r is Ok && r->Ok_0@ == id,
            None => r is Err && r->Err_0.status == STATUS_BAD_REQUEST && r->Err_0.error.code
                == ErrorCode::InvalidArgument && r->Err_0.error.message@
                == "tenant.tenant_id is required"@,
        },
{
    match tenant {
        Some(t) => {
            if t.tenant_id.as_str().is_empty() {
                Err(RpcError::invalid_argument("tenant.tenant_id is required"))
            } else {
                Ok(t.tenant_id)
            }
        },
        None => Err(RpcError::invalid_argument("tenant.tenant_id is required")),
    }
}

/// The store id of a request, which must be present and non-empty.
pub fn require_store_id(store: Option<StoreContext>) -> (r: Result<String, RpcError>)
    ensures
        match present_id(store_field(store)) {
            Some(id) => r is Ok && r->Ok_0@ == id,
            None => r is Err && r->Err_0.status == STATUS_BAD_REQUEST && r->Err_0.error.code
                == ErrorCode::InvalidArgument && r->Err_0.error.message@
                == "store.store_id is required"@,
        },
{
    match store {
        Some(s) => {
            if s.store_id.as_str().is_empty() {
                Err(RpcError::invalid_argument("store.store_id is required"))
            } else {
                Ok(s.store_id)
            }
        },
        None => Err(RpcError::invalid_argument("store.store_id is required")),
    }
}

/// The request body may be read as JSON: its `content-type` header is
/// present and starts with `application/json`.
pub fn is_json_content_type(content_type: Option<&str>) -> (r: bool)
    ensures
        r == match content_type {
            Some(v) => starts_with_seq(v@, "application/json"@),
            None => false,
        },
{
    match content_type {
        Some(v) => starts_with(v, "application/json"),
        None => false,
    }
}

/// Checks the `content-type` of a JSON request: 415 with
/// `unsupported_media_type` when it is not JSON.
pub fn check_json_content_type(content_type: Option<&str>) -> (r: Result<(), RpcError>)
    ensures
        r is Ok <==> match content_type {
            Some(v) => starts_with_seq(v@, "application/json"@),
            None => false,
        },
        r matches Err(e) ==> e.status == STATUS_UNSUPPORTED_MEDIA_TYPE && e.error.code
            == ErrorCode::UnsupportedMediaType && e.error.message@
            == "content-type must be application/json"@,
{
    if is_json_content_type(content_type) {
        Ok(())
    } else {
        Err(
            RpcError::new(
                STATUS_UNSUPPORTED_MEDIA_TYPE,
                ErrorCode::UnsupportedMediaType,
                "content-type must be application/json",
            ),
        )
    }
}

/// The response for a body that is not JSON; `detail` is the parser's message.
pub fn invalid_json_error(detail: &str) -> (r: RpcError)
    ensures
        r.status == STATUS_BAD_REQUEST,
        r.error.code == ErrorCode::InvalidArgument,
        r.error.message@ == "invalid json: "@ + detail@,
{
    let m = concat("invalid json: ", detail);
    RpcError::invalid_argument(m.as_str())
}

/// The response for JSON that does not fit the request type; `detail` is
/// the decoder's message.
pub fn invalid_request_error(detail: &str) -> (r: RpcError)
    ensures
        r.status == STATUS_BAD_REQUEST,
        r.error.code == ErrorCode::InvalidArgument,
        r.error.message@ == "invalid request: "@ + detail@,
{
    let m = concat("invalid request: ", detail);
    RpcError::invalid_argument(m.as_str())
}

/// How the store of a request is found.
#[derive(Debug, Clone, PartialEq, Eq)]
pub enum StoreResolution {
    /// Both ids are known.
    Resolved { store_id: String, tenant_id: String },
    /// The store was named: its tenant is looked up.
    LookupStore { store_id: String },
    /// Only the tenant was named: its first store is looked up.
    LookupTenant { tenant_id: String },
}

/// The token's id disagrees with the one the request names.
pub open spec fn conflicts(token: Option<String>, requested: Option<Seq<char>>) -> bool {
    &&& token is Some
    &&& requested is Some
    &&& requested->0 != token->0@
}

/// The decision `resolve_store_context` takes before any lookup. `token` is
/// the request-scoped context when there is one.
pub open spec fn resolve_spec(
    token: Option<RequestContext>,
    store: Option<Seq<char>>,
    tenant: Option<Seq<char>>,
) -> Result<StoreResolution, (u16, Seq<char>)> {
    if token is Some && conflicts(token->0.store_id, store) {
        Err((STATUS_FORBIDDEN, "store_id does not match token"@))
    } else if token is Some && conflicts(token->0.tenant_id, tenant) {
        Err((STATUS_FORBIDDEN, "tenant_id does not match token"@))
    } else if store is Some {
        Ok(StoreResolution::LookupStore { store_id: arbitrary() })
    } else if token is Some && token->0.store_id is Some && token->0.tenant_id is Some {
        Ok(StoreResolution::Resolved { store_id: arbitrary(), tenant_id: arbitrary() })
    } else if tenant is Some {
        Ok(StoreResolution::LookupTenant { tenant_id: arbitrary() })
    } else {
        Err((STATUS_BAD_REQUEST, "store.store_id or tenant.tenant_id is required"@))
    }
}

/// The two resolutions are of the same kind.
pub open spec fn same_kind(a: StoreResolution, b: StoreResolution) -> bool {
    match (a, b) {
        (StoreResolution::Resolved { .. }, StoreResolution::Resolved { .. }) => true,
        (StoreResolution::LookupStore { .. }, StoreResolution::LookupStore { .. }) => true,
        (StoreResolution::LookupTenant { .. }, StoreResolution::LookupTenant { .. }) => true,
        _ => false,
    }
}

fn conflicts_exec(token: &Option<String>, requested: &Option<String>) -> (r: bool)
    requires
        requested matches Some(s) ==> s@.len() > 0,
    ensures
        r == conflicts(*token, present_id(*requested)),
{
    match (token, requested) {
        (Some(a), Some(b)) => !str_eq(b.as_str(), a.as_str()),
        _ => false,
    }
}

/// Decides which store serves a request, from the caller's token context
/// (when the call has one) and the store and tenant the request names. A
/// named store or tenant that disagrees with the token is refused; then a
/// named store wins, then the token's pair, then a named tenant.
pub fn resolve_store_context(
    token: Option<RequestContext>,
    store: Option<StoreContext>,
    tenant: Option<TenantContext>,
) -> (r: Result<StoreResolution, RpcError>)
    ensures
        ({
            let store_id = present_id(store_field(store));
            let tenant_id = present_id(tenant_field(tenant));
            match resolve_spec(token, store_id, tenant_id) {
                Err((status, message)) => r is Err && r->Err_0.status == status
                    && r->Err_0.error.message@ == message && r->Err_0.error.code == (
                if status == STATUS_FORBIDDEN {
                    ErrorCode::PermissionDenied
                } else {
                    ErrorCode::InvalidArgument
                }),
                Ok(kind) => r is Ok && same_kind(r->Ok_0, kind) && match r->Ok_0 {
                    StoreResolution::LookupStore { store_id: s } => Some(s@) == store_id,
                    StoreResolution::LookupTenant { tenant_id: t } => Some(t@) == tenant_id,
                    StoreResolution::Resolved { store_id: s, tenant_id: t } => token->0.store_id
                        == Some(s) && token->0.tenant_id == Some(t),
                },
            }
        }),
{
    let store_id: Option<String> = match store {
        Some(s) => if s.store_id.as_str().is_empty() {
            None
        } else {
            Some(s.store_id)
        },
        None => None,
    };
    let tenant_id: Option<String> = match tenant {
        Some(t) => if t.tenant_id.as_str().is_empty() {
            None
        } else {
            Some(t.tenant_id)
        },
        None => None,
    };
    if let Some(ctx) = &token {
        if conflicts_exec(&ctx.store_id, &store_id) {
            return Err(RpcError::permission_denied("store_id does not match token"));
        }
        if conflicts_exec(&ctx.tenant_id, &tenant_id) {
            return Err(RpcError::permission_denied("tenant_id does not match token"));
        }
    }
    if let Some(s) = store_id {
        return Ok(StoreResolution::LookupStore { store_id: s });
    }
    if let Some(ctx) = token {
        if let (Some(s), Some(t)) = (ctx.store_id, ctx.tenant_id) {
            return Ok(StoreResolution::Resolved { store_id: s, tenant_id: t });
        }
    }
    if let Some(t) = tenant_id {
        return Ok(StoreResolution::LookupTenant { tenant_id: t });
    }
    Err(RpcError::invalid_argument("store.store_id or tenant.tenant_id is required"))
}

/// Finishes a store lookup: `found_tenant` is the tenant of the named store,
/// when the store exists.
pub fn finish_store_lookup(store_id: String, found_tenant: Option<String>) -> (r: Result<
    (String, String),
    RpcError,
>)
    ensures
        match found_tenant {
            Some(t) => r == Ok::<(String, String), RpcError>((store_id, t)),
            None => r is Err && r->Err_0.status == STATUS_BAD_REQUEST && r->Err_0.error.code
                == ErrorCode::InvalidArgument && r->Err_0.error.message@ == "store_id not found"@,
        },
{
    match found_tenant {
        Some(t) => Ok((store_id, t)),
        None => Err(RpcError::invalid_argument("store_id not found")),
    }
}

/// Finishes a tenant lookup: `found_store` is the tenant's first store,
/// when it has one.
pub fn finish_tenant_lookup(tenant_id: String, found_store: Option<String>) -> (r: Result<
    (String, String),
    RpcError,
>)
    ensures
        match found_store {
            Some(s) => r == Ok::<(String, String), RpcError>((s, tenant_id)),
            None => r is Err && r->Err_0.status == STATUS_BAD_REQUEST && r->Err_0.error.code
                == ErrorCode::InvalidArgument && r->Err_0.error.message@ == "tenant_id not found"@,
        },
{
    match found_store {
        Some(s) => Ok((s, tenant_id)),
        None => Err(RpcError::invalid_argument("tenant_id not found")),
    }
}

} // verus!
