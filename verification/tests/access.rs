use rs_ecommerce::auth::{
    auth_from_claims, auth_from_override, bearer_token, build_key_table, dev_fallback,
    jwk_acceptable, jwks_fresh, permission_gate, permission_verdict, select_jwk,
    single_key_fallback, AuthContext, JwkKey, PermissionGate, TokenClaims,
};
use rs_ecommerce::context::{ActorContext, StoreContext};
use rs_ecommerce::errors::{ErrorCode, IdentityError};
use rs_ecommerce::identity::{
    actor_fields, attach_permissions, check_assign_role, check_assignable_role, check_invite,
    check_new_staff, check_new_staff_role, check_permission_keys, check_role_change,
    check_role_detached, check_role_key_name, check_sign_in, check_staff_update_request,
    check_transfer_owner, invalid_credentials, require_owner, sign_in_identifier, RoleDetail,
    SignInKey,
};
use rs_ecommerce::session::{
    access_token_expiry, build_refresh_cookie, check_credentials, check_refresh_record,
    check_refresh_staff, check_session_record, clear_refresh_cookie, credentials_outcome,
    extract_cookie, flag_enabled, format_i64, hash_password, hash_refresh_token, hex_encode,
    password_hash_outcome, refresh_cookie_name, refresh_store_id, refresh_token_expiry,
    require_refresh_token, session_gate, sign_out_store_id, RefreshRecord, SessionGate, SessionRecord, REFRESH_TOKEN_MAX_AGE,
};
use rs_ecommerce::time::Instant;

const STAFF: &str = "6f1c2b9e-3a57-4c1e-9d0a-1b2c3d4e5f60";
const STORE: &str = "0b8d2f6a-71c4-4e2b-8a93-5d6e7f809112";
const SESSION: &str = "9a0b1c2d-3e4f-4a5b-8c6d-7e8f90a1b2c3";

fn actor(id: &str, kind: &str) -> ActorContext {
    ActorContext { actor_id: id.to_string(), actor_type: kind.to_string() }
}

#[test]
fn owner_only_requests() {
    assert_eq!(require_owner(Some(&actor("a", "owner"))), Ok(()));
    assert_eq!(
        require_owner(Some(&actor("a", "staff"))),
        Err(IdentityError::PermissionDenied("owner role is required".to_string()))
    );
    assert!(require_owner(None).is_err());
}

#[test]
fn audit_actor_fields() {
    assert_eq!(actor_fields(None), (None, "system".to_string()));
    assert_eq!(actor_fields(Some(actor("", ""))), (None, "system".to_string()));
    assert_eq!(actor_fields(Some(actor("u1", "staff"))), (Some("u1".to_string()), "staff".to_string()));
}

#[test]
fn staff_request_checks() {
    assert_eq!(
        check_staff_update_request("", "r", "", ""),
        Err(IdentityError::InvalidArgument("staff_id is required".to_string()))
    );
    assert_eq!(
        check_staff_update_request("s", "", "", ""),
        Err(IdentityError::InvalidArgument("role_id, status, or display_name is required".to_string()))
    );
    assert_eq!(check_staff_update_request("s", "", "active", ""), Ok(()));
    assert_eq!(
        check_role_change(Some("owner"), "r2"),
        Err(IdentityError::PermissionDenied("owner role cannot be changed".to_string()))
    );
    assert_eq!(check_role_change(Some("staff"), "r2"), Ok(()));
    assert_eq!(
        check_assignable_role(Some("owner")),
        Err(IdentityError::PermissionDenied("owner role cannot be assigned".to_string()))
    );
    assert_eq!(
        check_assignable_role(None),
        Err(IdentityError::InvalidArgument("role_id is invalid".to_string()))
    );
    assert_eq!(
        check_assign_role("s", "r", Some("other"), "st", None),
        Err(IdentityError::PermissionDenied("role does not belong to store".to_string()))
    );
    assert_eq!(check_assign_role("s", "r", Some("st"), "st", Some("staff")), Ok(()));
}

#[test]
fn invite_checks() {
    assert_eq!(check_invite(Some("staff"), false, false), Ok(()));
    assert_eq!(
        check_invite(Some("owner"), false, false),
        Err(IdentityError::InvalidArgument("owner role cannot be invited".to_string()))
    );
    assert_eq!(
        check_invite(Some("staff"), true, false),
        Err(IdentityError::AlreadyExists("email already exists".to_string()))
    );
    assert_eq!(
        check_invite(Some("staff"), false, true),
        Err(IdentityError::AlreadyExists("invite already exists".to_string()))
    );
}

#[test]
fn new_staff_checks() {
    assert_eq!(check_new_staff("a@b.c", "", "", "pw", "r"), Ok(()));
    assert_eq!(
        check_new_staff("", "", "", "pw", "r"),
        Err(IdentityError::InvalidArgument("email or login_id or phone is required".to_string()))
    );
    assert_eq!(
        check_new_staff("a@b.c", "", "", "", "r"),
        Err(IdentityError::InvalidArgument("password is required".to_string()))
    );
    assert_eq!(
        check_new_staff("a@b.c", "", "", "pw", ""),
        Err(IdentityError::InvalidArgument("role_id is required".to_string()))
    );
    assert_eq!(check_new_staff_role(Some("staff")), Ok(()));
    assert_eq!(
        check_new_staff_role(Some("owner")),
        Err(IdentityError::InvalidArgument("owner role cannot be assigned".to_string()))
    );
}

#[test]
fn transfer_and_assign_refusals_are_errors() {
    assert_eq!(
        check_transfer_owner("n", None, None, None),
        Err(IdentityError::NotFound("owner not found".to_string()))
    );
    assert_eq!(
        check_transfer_owner("o", Some("o"), None, Some("active")),
        Err(IdentityError::InvalidArgument("new owner is already the owner".to_string()))
    );
    assert_eq!(
        check_transfer_owner("n", Some("o"), Some("x"), Some("active")),
        Err(IdentityError::PermissionDenied("only owner can transfer ownership".to_string()))
    );
    assert_eq!(
        check_transfer_owner("n", Some("o"), Some("o"), None),
        Err(IdentityError::NotFound("new owner staff not found".to_string()))
    );
    assert_eq!(
        check_transfer_owner("n", Some("o"), Some("o"), Some("invited")),
        Err(IdentityError::InvalidArgument("new owner must be active".to_string()))
    );
    assert_eq!(check_transfer_owner("n", Some("o"), None, Some("active")), Ok(()));
    assert_eq!(
        check_assign_role("", "r", Some("st"), "st", None),
        Err(IdentityError::InvalidArgument("staff_id and role_id are required".to_string()))
    );
    assert_eq!(
        check_assign_role("s", "r", None, "st", None),
        Err(IdentityError::InvalidArgument("role_id is invalid".to_string()))
    );
}

#[test]
fn sign_in_identifiers() {
    assert_eq!(sign_in_identifier("a@b.c", "login", ""), Some((SignInKey::Email, "a@b.c".to_string())));
    assert_eq!(sign_in_identifier("", "login", "090"), Some((SignInKey::LoginId, "login".to_string())));
    assert_eq!(sign_in_identifier("", "", "090"), Some((SignInKey::Phone, "090".to_string())));
    assert_eq!(sign_in_identifier("", "", ""), None);
    assert_eq!(SignInKey::LoginId.as_str(), "login_id");
    assert_eq!(check_sign_in("pw", "", "", "090"), Ok(SignInKey::Phone));
    assert_eq!(
        check_sign_in("", "a@b.c", "", ""),
        Err(IdentityError::InvalidArgument("password is required".to_string()))
    );
    assert_eq!(invalid_credentials(), IdentityError::Unauthenticated("invalid credentials".to_string()));
}

#[test]
fn role_checks() {
    assert!(check_role_key_name("k", "").is_err());
    assert_eq!(check_permission_keys(2, 2), Ok(()));
    assert_eq!(check_permission_keys(0, 0), Ok(()));
    assert_eq!(
        check_permission_keys(1, 2),
        Err(IdentityError::InvalidArgument("unknown permission key included".to_string()))
    );
    assert_eq!(
        check_role_detached(true),
        Err(IdentityError::FailedPrecondition("role is attached to staff".to_string()))
    );
}

#[test]
fn permissions_attach_to_their_roles() {
    let role = |id: &str| RoleDetail {
        id: id.to_string(),
        key: format!("k-{id}"),
        name: format!("n-{id}"),
        description: String::new(),
        permission_keys: Vec::new(),
    };
    let rows = vec![
        ("r2".to_string(), "orders.read".to_string()),
        ("r1".to_string(), "products.write".to_string()),
        ("r9".to_string(), "ignored".to_string()),
        ("r2".to_string(), "orders.write".to_string()),
    ];
    let out = attach_permissions(vec![role("r1"), role("r2")], rows);
    assert_eq!(out[0].permission_keys, vec!["products.write".to_string()]);
    assert_eq!(out[1].permission_keys, vec!["orders.read".to_string(), "orders.write".to_string()]);
}

#[test]
fn bearer_and_override_headers() {
    assert_eq!(bearer_token(Some("Bearer tok")), Some("tok".to_string()));
    assert_eq!(bearer_token(Some("Bearer ")), None);
    assert_eq!(bearer_token(Some("Basic tok")), None);
    assert_eq!(bearer_token(None), None);
    let o = auth_from_override(Some("u1"), None).unwrap();
    assert_eq!(o.actor_type, "admin");
    assert_eq!(auth_from_override(Some("u1"), Some("staff")).unwrap().actor_type, "staff");
    assert_eq!(auth_from_override(Some(""), None), None);
    assert_eq!(auth_from_override(None, Some("staff")), None);
}

#[test]
fn token_claims_and_dev_fallback() {
    let c = TokenClaims {
        sub: "u1".to_string(),
        actor_type: None,
        store_id: Some("s".to_string()),
        tenant_id: None,
        jti: Some("j".to_string()),
    };
    let a = auth_from_claims(c);
    assert_eq!(a.actor_type, "api");
    assert_eq!(a.session_id, Some("j".to_string()));
    assert_eq!(dev_fallback("tok", true), None);
    let d = dev_fallback("tok", false).unwrap();
    assert_eq!((d.actor_id.as_str(), d.actor_type.as_str()), ("tok", "api"));
}

fn jwk(kid: Option<&str>, n: &str) -> JwkKey {
    JwkKey {
        kty: "RSA".to_string(),
        kid: kid.map(|s| s.to_string()),
        alg: None,
        n: n.to_string(),
        e: "AQAB".to_string(),
    }
}

#[test]
fn key_sets_file_keys_by_id() {
    let table = build_key_table(vec![jwk(Some("a"), "1"), jwk(None, "2"), jwk(Some("a"), "3")]);
    assert_eq!(table.len(), 2);
    let a = table.iter().find(|(id, _)| id == "a").unwrap();
    assert_eq!(a.1.n, "3");
    let blank = table.iter().find(|(id, _)| id.is_empty()).unwrap();
    assert_eq!(blank.1.n, "2");
    assert!(jwk_acceptable(&jwk(None, "1")));
    let mut k = jwk(None, "1");
    k.alg = Some("HS256".to_string());
    assert!(!jwk_acceptable(&k));
    k.alg = Some("RS256".to_string());
    k.kty = "EC".to_string();
    assert!(!jwk_acceptable(&k));
}

fn auth(kind: &str, store: Option<&str>, session: Option<&str>) -> AuthContext {
    AuthContext {
        actor_id: STAFF.to_string(),
        actor_type: kind.to_string(),
        store_id: store.map(|s| s.to_string()),
        tenant_id: None,
        session_id: session.map(|s| s.to_string()),
    }
}

#[test]
fn permission_checks() {
    assert_eq!(
        permission_gate(None),
        PermissionGate::Refuse { status: 401, message: "unauthenticated".to_string() }
    );
    assert_eq!(permission_gate(Some(auth("owner", None, None))), PermissionGate::Allow);
    assert_eq!(
        permission_gate(Some(auth("staff", None, None))),
        PermissionGate::Refuse { status: 403, message: "store_id is required".to_string() }
    );
    assert_eq!(
        permission_gate(Some(auth("staff", Some("not-a-uuid"), None))),
        PermissionGate::Refuse { status: 403, message: "store_id is invalid".to_string() }
    );
    assert_eq!(
        permission_gate(Some(auth("staff", Some(STORE), None))),
        PermissionGate::Lookup { staff_id: STAFF.to_string(), store_id: STORE.to_string() }
    );
    assert_eq!(permission_verdict(Some(true)), Ok(()));
    let denied = permission_verdict(Some(false)).unwrap_err();
    assert_eq!((denied.status, denied.error.code), (403, ErrorCode::PermissionDenied));
    let failed = permission_verdict(None).unwrap_err();
    assert_eq!((failed.status, failed.error.message.as_str()), (500, "db error"));
}

#[test]
fn session_checks() {
    assert_eq!(session_gate(None), SessionGate::Pass);
    assert_eq!(session_gate(Some(auth("staff", Some(STORE), None))), SessionGate::Pass);
    assert_eq!(
        session_gate(Some(auth("staff", None, Some(SESSION)))),
        SessionGate::Refuse("unauthenticated".to_string())
    );
    assert_eq!(
        session_gate(Some(auth("staff", Some(STORE), Some("x")))),
        SessionGate::Refuse("invalid session".to_string())
    );
    assert_eq!(
        session_gate(Some(auth("staff", Some(STORE), Some(SESSION)))),
        SessionGate::Lookup {
            session_id: SESSION.to_string(),
            staff_id: STAFF.to_string(),
            store_id: STORE.to_string(),
        }
    );
    let now = Instant { seconds: 100, nanos: 0 };
    let live = SessionRecord { revoked: false, expires_at: Some(Instant { seconds: 101, nanos: 0 }) };
    assert!(check_session_record(Some(live), now).is_ok());
    let open_ended = SessionRecord { revoked: false, expires_at: None };
    assert!(check_session_record(Some(open_ended), now).is_ok());
    let expired = SessionRecord { revoked: false, expires_at: Some(now) };
    assert_eq!(check_session_record(Some(expired), now).unwrap_err().status, 401);
    let revoked = SessionRecord { revoked: true, expires_at: None };
    assert!(check_session_record(Some(revoked), now).is_err());
    assert!(check_session_record(None, now).is_err());
}

#[test]
fn refresh_token_checks() {
    assert_eq!(
        require_refresh_token(""),
        Err(IdentityError::Unauthenticated("refresh token is required".to_string()))
    );
    let now = Instant { seconds: 100, nanos: 0 };
    assert_eq!(
        check_refresh_record(None, now),
        Err(IdentityError::Unauthenticated("refresh token not found".to_string()))
    );
    let stale = RefreshRecord { revoked: false, expires_at: Instant { seconds: 100, nanos: 0 } };
    assert_eq!(
        check_refresh_record(Some(stale), now),
        Err(IdentityError::Unauthenticated("refresh token expired".to_string()))
    );
    let fresh = RefreshRecord { revoked: false, expires_at: Instant { seconds: 100, nanos: 1 } };
    assert_eq!(check_refresh_record(Some(fresh), now), Ok(()));
    assert_eq!(
        check_refresh_staff(None),
        Err(IdentityError::Unauthenticated("staff not found".to_string()))
    );
    assert_eq!(
        check_refresh_staff(Some("disabled")),
        Err(IdentityError::Unauthenticated("staff is inactive".to_string()))
    );
    assert_eq!(check_refresh_staff(Some("active")), Ok(()));
    assert_eq!(access_token_expiry(1000), 1300);
    assert_eq!(refresh_token_expiry(0), 2_592_000);
}

#[test]
fn refresh_tokens_are_stored_as_sha256_hex() {
    assert_eq!(
        hash_refresh_token("abc"),
        "ba7816bf8f01cfea414140de5dae2223b00361a396177a9cb410ff61f20015ad"
    );
    assert_eq!(hash_refresh_token("").len(), 64);
    assert_eq!(hex_encode(&[0x00, 0x0f, 0xa5, 0xff]), "000fa5ff");
}

#[test]
fn refresh_cookies() {
    assert_eq!(refresh_cookie_name("s1"), "refresh_token_s1");
    assert_eq!(
        build_refresh_cookie("refresh_token_s1", "tok", REFRESH_TOKEN_MAX_AGE, false),
        "refresh_token_s1=tok; Max-Age=2592000; Path=/; HttpOnly; SameSite=Lax"
    );
    assert_eq!(
        clear_refresh_cookie("refresh_token_s1", true),
        "refresh_token_s1=; Max-Age=0; Path=/; HttpOnly; SameSite=Lax; Secure"
    );
    assert_eq!(format_i64(-42), "-42");
    assert_eq!(format_i64(i64::MIN), "-9223372036854775808");
    assert!(flag_enabled(Some("1")));
    assert!(flag_enabled(Some("TRUE")));
    assert!(!flag_enabled(Some("yes")));
    assert!(!flag_enabled(None));
}

#[test]
fn cookies_are_read_from_the_header() {
    let header = "theme=dark; refresh_token_s1=; refresh_token_s1=abc ; other=1";
    assert_eq!(extract_cookie(Some(header), "refresh_token_s1"), Some("abc".to_string()));
    assert_eq!(extract_cookie(Some("a=1"), "refresh_token_s1"), None);
    assert_eq!(extract_cookie(None, "a"), None);
}

#[test]
fn passwords_hash_and_verify_with_argon2() {
    let hash = hash_password("s3cret").unwrap();
    assert!(hash.starts_with("$argon2"));
    assert_eq!(check_credentials(Some(&hash), "s3cret"), Ok(()));
    assert_eq!(
        check_credentials(Some(&hash), "wrong"),
        Err(IdentityError::Unauthenticated("invalid credentials".to_string()))
    );
    assert!(check_credentials(Some("not a phc string"), "s3cret").is_err());
    assert!(check_credentials(None, "s3cret").is_err());
    assert_eq!(credentials_outcome(Some("h"), true), Ok(()));
    assert_eq!(
        password_hash_outcome(None),
        Err(IdentityError::Internal("failed to hash password".to_string()))
    );
}

#[test]
fn keys_are_selected_by_kid() {
    let table = build_key_table(vec![jwk(Some("a"), "1"), jwk(Some("b"), "2"), jwk(Some("a"), "3")]);
    let a = select_jwk(&table, Some("a")).unwrap();
    assert_eq!(table[a].1.n, "3");
    assert_eq!(select_jwk(&table, Some("z")), None);
    assert_eq!(select_jwk(&table, None), None);
    let single = build_key_table(vec![jwk(Some("only"), "9")]);
    assert_eq!(select_jwk(&single, None), Some(0));
    assert!(single_key_fallback(true, 1, true));
    assert!(!single_key_fallback(false, 1, true));
    assert!(!single_key_fallback(true, 2, true));
    assert!(jwks_fresh(Some(1_000), 300_999));
    assert!(!jwks_fresh(Some(1_000), 301_000));
    assert!(jwks_fresh(Some(5_000), 10));
    assert!(!jwks_fresh(None, 10));
}

#[test]
fn stores_of_refresh_and_sign_out() {
    let store = |id: &str| Some(StoreContext { store_id: id.to_string() });
    assert_eq!(refresh_store_id(store("s1")).unwrap(), "s1");
    assert_eq!(refresh_store_id(store("")).unwrap_err().error.message, "store_id is required");
    assert_eq!(refresh_store_id(None).unwrap_err().status, 400);
    assert_eq!(sign_out_store_id(store("s1"), Some("s2".to_string())), Some("s1".to_string()));
    assert_eq!(sign_out_store_id(store(""), Some("s2".to_string())), Some("s2".to_string()));
    assert_eq!(sign_out_store_id(None, None), None);
}

#[test]
fn a_set_refresh_cookie_is_read_back() {
    let name = refresh_cookie_name("s1");
    let set = build_refresh_cookie(&name, "tok-123", REFRESH_TOKEN_MAX_AGE, true);
    let sent = set.split(';').next().unwrap().to_string();
    assert_eq!(extract_cookie(Some(&sent), &name), Some("tok-123".to_string()));
}
