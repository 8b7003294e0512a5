use rs_ecommerce::audit::{audit_action_type, AuditAction, AuditActionType};
use rs_ecommerce::cart::{CartLine, PaymentMethod};
use rs_ecommerce::checkout::{checkout_plan, CartStatus, CheckoutLine, StockRow};
use rs_ecommerce::errors::{CartError, ErrorCode, IdentityError};
use rs_ecommerce::identity::transfer_roles;
use rs_ecommerce::inventory::StockLevel;
use rs_ecommerce::media::validate_external_url;
use rs_ecommerce::search::{reindex_mode, reindex_step, walks_batches, writes_batch, ReindexMode, ReindexProgress};
use rs_ecommerce::session::{
    check_credentials, hash_password, hash_refresh_token, rotate_refresh_token, RefreshRecord,
    StoredRefreshToken, check_refresh_record,
};
use rs_ecommerce::setup::initialize_plan;
use rs_ecommerce::time::{clock_nanos, timestamp_to_chrono, Instant, Timestamp, MAX_CHRONO_SECONDS, MIN_CHRONO_SECONDS};

fn url_error(input: &str) -> String {
    validate_external_url(input).unwrap_err().error.message
}

#[test]
fn external_url_accepts_public_https() {
    assert!(validate_external_url("https://example.com/a.png").is_ok());
    assert!(validate_external_url("http://8.8.8.8/img.jpg").is_ok());
}

#[test]
fn external_url_refuses_text_that_is_no_url() {
    assert_eq!(url_error("not a url"), "public_url must be a valid URL");
}

#[test]
fn external_url_refuses_other_schemes() {
    assert_eq!(url_error("ftp://example.com/a.png"), "public_url must be http or https");
    let e = validate_external_url("ftp://example.com/a.png").unwrap_err();
    assert_eq!(e.status, 400);
    assert_eq!(e.error.code, ErrorCode::InvalidArgument);
}

#[test]
fn external_url_refuses_local_and_private_hosts() {
    assert_eq!(url_error("http://localhost/a.png"), "public_url host is not allowed");
    assert_eq!(url_error("http://printer.local/a.png"), "public_url host is not allowed");
    assert_eq!(url_error("http://10.0.0.1/a.png"), "public_url host is not allowed");
    assert_eq!(url_error("http://192.168.1.20/a.png"), "public_url host is not allowed");
    assert_eq!(url_error("http://127.0.0.1:8080/a.png"), "public_url host is not allowed");
}

#[test]
fn external_url_keeps_bracketed_ipv6_hosts() {
    // The host comes back as "[::1]", which does not parse as an address.
    assert!(validate_external_url("http://[::1]/a.png").is_ok());
}

#[test]
fn audit_action_types_follow_actions() {
    assert_eq!(audit_action_type(AuditAction::ProductCreate), AuditActionType::AuditActionProductCreate);
    assert_eq!(
        audit_action_type(AuditAction::IdentityOwnerTransfer),
        AuditActionType::AuditActionIdentityOwnerTransfer
    );
    assert_eq!(
        audit_action_type(AuditAction::IdentityStaffInvite),
        AuditActionType::AuditActionIdentityStaffInvite
    );
    assert_ne!(
        audit_action_type(AuditAction::ProductCreate),
        audit_action_type(AuditAction::ProductUpdate)
    );
}

fn line(price: i64, currency: &str, qty: i32, physical: bool, reserved: Option<i32>, location: Option<&str>) -> CheckoutLine {
    CheckoutLine {
        sku_id: format!("sku-{price}"),
        unit_price: price,
        currency: currency.to_string(),
        quantity: qty,
        physical,
        reserved,
        location_id: location.map(|l| l.to_string()),
    }
}

fn row(sku: &str, loc: &str, stock: i32, reserved: i32) -> StockRow {
    StockRow {
        sku_id: sku.to_string(),
        location_id: loc.to_string(),
        level: StockLevel { stock, reserved },
    }
}

#[test]
fn checkout_plan_writes_lines_total_state_and_stock() {
    let lines = vec![
        line(1000, "JPY", 2, true, Some(2), Some("loc-1")),
        line(500, "JPY", 1, false, None, None),
    ];
    let stocks = vec![row("sku-1000", "loc-1", 10, 3), row("sku-1000", "loc-2", 4, 4)];
    let plan = checkout_plan(&lines, &stocks, PaymentMethod::BankTransfer).unwrap();
    assert_eq!(plan.status, "pending_payment");
    assert_eq!(plan.total, 2500);
    assert_eq!(plan.currency, "JPY");
    assert_eq!(
        plan.lines,
        vec![
            CartLine { unit_price: 1000, currency: "JPY".to_string(), quantity: 2 },
            CartLine { unit_price: 500, currency: "JPY".to_string(), quantity: 1 },
        ]
    );
    assert_eq!(plan.stock_after, vec![row("sku-1000", "loc-1", 8, 1), row("sku-1000", "loc-2", 4, 4)]);
    assert_eq!(plan.skus, vec!["sku-1000".to_string(), "sku-500".to_string()]);
    assert_eq!(plan.cart_status, CartStatus::Ordered);
    let cod = checkout_plan(&lines, &stocks, PaymentMethod::Cod).unwrap();
    assert_eq!(cod.status, "pending_shipment");
}

#[test]
fn checkout_lines_on_one_row_draw_in_turn() {
    let lines = vec![
        line(100, "JPY", 3, true, Some(3), Some("loc-1")),
        line(100, "JPY", 3, true, Some(3), Some("loc-1")),
    ];
    let plan = checkout_plan(&lines, &vec![row("sku-100", "loc-1", 6, 6)], PaymentMethod::Cod).unwrap();
    assert_eq!(plan.stock_after, vec![row("sku-100", "loc-1", 0, 0)]);
    assert_eq!(
        checkout_plan(&lines, &vec![row("sku-100", "loc-1", 5, 5)], PaymentMethod::Cod).unwrap_err(),
        CartError::FailedPrecondition("inventory stock is insufficient".to_string())
    );
}

#[test]
fn checkout_plan_refusals() {
    assert_eq!(
        checkout_plan(&vec![], &vec![], PaymentMethod::Cod).unwrap_err(),
        CartError::InvalidArgument("cart has no items".to_string())
    );
    let mixed = vec![line(1, "JPY", 1, false, None, None), line(1, "USD", 1, false, None, None)];
    assert_eq!(
        checkout_plan(&mixed, &vec![], PaymentMethod::Cod).unwrap_err(),
        CartError::InvalidArgument("mixed currency cart is not supported".to_string())
    );
    let unreserved = vec![line(1, "JPY", 1, true, None, None)];
    assert_eq!(
        checkout_plan(&unreserved, &vec![], PaymentMethod::Cod).unwrap_err(),
        CartError::FailedPrecondition("inventory reservation not ready".to_string())
    );
    let short = vec![line(1, "JPY", 3, true, Some(2), None)];
    assert_eq!(
        checkout_plan(&short, &vec![], PaymentMethod::Cod).unwrap_err(),
        CartError::FailedPrecondition("reserved quantity is insufficient".to_string())
    );
    let located = vec![line(1, "JPY", 3, true, Some(3), Some("loc-1"))];
    assert_eq!(
        checkout_plan(&located, &vec![row("sku-1", "loc-1", 2, 3)], PaymentMethod::Cod).unwrap_err(),
        CartError::FailedPrecondition("inventory stock is insufficient".to_string())
    );
    assert_eq!(
        checkout_plan(&located, &vec![row("sku-1", "loc-2", 9, 9)], PaymentMethod::Cod).unwrap_err(),
        CartError::FailedPrecondition("inventory stock is insufficient".to_string())
    );
    let unlocated = vec![line(1, "JPY", 3, true, Some(3), None)];
    assert!(checkout_plan(&unlocated, &vec![], PaymentMethod::Cod).is_ok());
}

#[test]
fn password_hash_succeeds_and_verifies() {
    let h = hash_password("correct horse").unwrap();
    assert!(h.starts_with("$argon2"));
    assert!(check_credentials(Some(&h), "correct horse").is_ok());
    assert_eq!(
        check_credentials(Some(&h), "wrong").unwrap_err(),
        IdentityError::Unauthenticated("invalid credentials".to_string())
    );
}

#[test]
fn reindex_modes_follow_switches() {
    assert_eq!(reindex_mode(false, false), ReindexMode::Write);
    assert_eq!(reindex_mode(true, false), ReindexMode::DryRun);
    assert_eq!(reindex_mode(false, true), ReindexMode::CountOnly);
    assert_eq!(reindex_mode(true, true), ReindexMode::CountOnly);
    assert!(writes_batch(ReindexMode::Write));
    assert!(!writes_batch(ReindexMode::DryRun));
    assert!(!writes_batch(ReindexMode::CountOnly));
    assert!(walks_batches(ReindexMode::DryRun));
    assert!(!walks_batches(ReindexMode::CountOnly));
}

fn member(id: &str, role: &str) -> (String, String) {
    (id.to_string(), role.to_string())
}

#[test]
fn transfer_leaves_one_owner() {
    let before = vec![member("a", "owner"), member("b", "staff"), member("c", "manager")];
    let after = transfer_roles(&before, "b", "a");
    assert_eq!(after, vec![member("a", "staff"), member("b", "owner"), member("c", "manager")]);
    assert_eq!(after.iter().filter(|m| m.1 == "owner").count(), 1);
}

fn at(seconds: i64) -> Instant {
    Instant { seconds, nanos: 0 }
}

#[test]
fn rotated_refresh_token_works_once() {
    let used = StoredRefreshToken {
        id: "t1".to_string(),
        token_hash: hash_refresh_token("old"),
        record: RefreshRecord { revoked: false, expires_at: at(2_000) },
        replaced_by: None,
    };
    let (old_row, new_row) = rotate_refresh_token(Some(used), "t2", "new", at(1_000)).unwrap();
    assert!(old_row.record.revoked);
    assert_eq!(old_row.replaced_by, Some("t2".to_string()));
    assert_eq!(new_row.id, "t2");
    assert_eq!(new_row.token_hash, hash_refresh_token("new"));
    assert_ne!(new_row.token_hash, "new");
    assert_eq!(new_row.record, RefreshRecord { revoked: false, expires_at: at(1_000 + 30 * 86_400) });
    assert_eq!(
        check_refresh_record(Some(old_row.record), at(1_000)).unwrap_err(),
        IdentityError::Unauthenticated("refresh token expired".to_string())
    );
    assert!(check_refresh_record(Some(new_row.record), at(1_000)).is_ok());
    let again = rotate_refresh_token(Some(old_row), "t3", "newer", at(1_001)).unwrap_err();
    assert_eq!(again, IdentityError::Unauthenticated("refresh token expired".to_string()));
}

#[test]
fn rotation_refuses_missing_and_expired_tokens() {
    assert_eq!(
        rotate_refresh_token(None, "t2", "new", at(1_000)).unwrap_err(),
        IdentityError::Unauthenticated("refresh token not found".to_string())
    );
    let expired = StoredRefreshToken {
        id: "t1".to_string(),
        token_hash: hash_refresh_token("old"),
        record: RefreshRecord { revoked: false, expires_at: at(1_000) },
        replaced_by: None,
    };
    assert_eq!(
        rotate_refresh_token(Some(expired), "t2", "new", at(1_000)).unwrap_err(),
        IdentityError::Unauthenticated("refresh token expired".to_string())
    );
}

#[test]
fn initialize_plan_seeds_the_store() {
    let p = initialize_plan("Shop", "owner@example.com", "shop-1");
    assert_eq!(p.tenant_name, "Shop");
    assert_eq!(p.tenant_type, "single_brand");
    assert_eq!(p.default_currency, "JPY");
    assert_eq!(p.tenant_status, "active");
    assert_eq!(p.store_name, "Shop");
    assert_eq!(p.store_code, "shop-1");
    assert_eq!(p.store_status, "active");
    assert_eq!(p.vendor_name, "Shop");
    assert_eq!(p.vendor_status, "active");
    assert_eq!(
        (p.owner_role.key.as_str(), p.owner_role.name.as_str(), p.owner_role.description.as_str()),
        ("owner", "Owner", "Full access owner role")
    );
    assert_eq!(
        (p.staff_role.key.as_str(), p.staff_role.name.as_str(), p.staff_role.description.as_str()),
        ("staff", "Staff", "Standard staff role")
    );
    assert!(p.customer_sync_enabled);
    assert_eq!(p.owner_email, "owner@example.com");
    assert_eq!(p.owner_role_key, "owner");
    assert_eq!(p.owner_status, "active");
}

#[test]
fn error_code_names_read_back() {
    for c in [
        ErrorCode::InvalidArgument,
        ErrorCode::NotFound,
        ErrorCode::AlreadyExists,
        ErrorCode::PermissionDenied,
        ErrorCode::Unauthenticated,
        ErrorCode::FailedPrecondition,
        ErrorCode::Internal,
        ErrorCode::UnsupportedMediaType,
    ] {
        assert_eq!(ErrorCode::from_name(c.as_str()), Some(c));
    }
    assert_eq!(ErrorCode::from_name("teapot"), None);
}

fn ts(seconds: i64, nanos: i32) -> Option<Instant> {
    timestamp_to_chrono(Some(Timestamp { seconds, nanos }))
}

#[test]
fn chrono_range_edges() {
    assert_eq!(ts(MIN_CHRONO_SECONDS, 0), Some(Instant { seconds: MIN_CHRONO_SECONDS, nanos: 0 }));
    assert_eq!(ts(MIN_CHRONO_SECONDS - 1, 0), None);
    assert_eq!(ts(MAX_CHRONO_SECONDS, 999_999_999), Some(Instant { seconds: MAX_CHRONO_SECONDS, nanos: 999_999_999 }));
    assert_eq!(ts(MAX_CHRONO_SECONDS + 1, 0), None);
    assert_eq!(ts(0, -1), None);
}

#[test]
fn chrono_leap_second_only_at_second_59() {
    assert_eq!(ts(59, 1_500_000_000), Some(Instant { seconds: 59, nanos: 1_500_000_000 }));
    assert_eq!(ts(58, 1_500_000_000), None);
    assert_eq!(ts(-1, 1_999_999_999), Some(Instant { seconds: -1, nanos: 1_999_999_999 }));
    assert_eq!(ts(59, 2_000_000_000), None);
}

#[test]
fn clock_nanos_values_and_order() {
    assert_eq!(clock_nanos(Instant { seconds: 0, nanos: 0 }), Some(0));
    assert_eq!(clock_nanos(Instant { seconds: 1_700_000_000, nanos: 5 }), Some(1_700_000_000_000_000_005));
    assert_eq!(clock_nanos(Instant { seconds: -1, nanos: 500 }), Some(-999_999_500));
    assert_eq!(clock_nanos(Instant { seconds: 59, nanos: 1_500_000_000 }), Some(59_999_999_999));
    assert_eq!(clock_nanos(Instant { seconds: 9_300_000_000, nanos: 0 }), None);
    assert_eq!(clock_nanos(Instant { seconds: -9_300_000_000, nanos: 0 }), None);
    let a = clock_nanos(Instant { seconds: 10, nanos: 1 }).unwrap();
    let b = clock_nanos(Instant { seconds: 9, nanos: 999_999_999 }).unwrap();
    assert!(a > b);
}

#[test]
fn reindex_run_visits_each_product_once() {
    let n: i64 = 1201;
    let batch: i64 = 500;
    let mut p = ReindexProgress { offset: 0, total: 0 };
    let mut pages = Vec::new();
    loop {
        let rows = (n - p.offset).clamp(0, batch) as u64;
        match reindex_step(p, rows, batch) {
            Some(next) => {
                pages.push((p.offset, rows));
                p = next;
            }
            None => break,
        }
    }
    assert_eq!(p.total, 1201);
    assert_eq!(pages, vec![(0, 500), (500, 500), (1000, 201)]);
}
