use rs_ecommerce::context::{
    check_json_content_type, require_present, finish_store_lookup, finish_tenant_lookup, invalid_json_error,
    require_store_id, require_tenant_id, resolve_store_context, RequestContext, StoreContext,
    StoreResolution, TenantContext,
};
use rs_ecommerce::customer::{
    best_match, check_address_input, check_definition_input, check_identity_owner,
    check_identity_upsert, check_value_json, default_country_code, identity_source_or_default,
    normalize_identities, normalize_identity, normalize_identity_values,
    normalize_optional_json as customer_optional_json, profile_status_or_default,
    require_definition_id, validate_customer_profile, IdentityInput, IdentityMatch, ProfileInput,
};
use rs_ecommerce::digital::{
    check_digital_asset_input, check_digital_sku, require_asset, require_filename,
    sanitize_filename as digital_file_name,
};
use rs_ecommerce::email::{invite_body, invite_subject, EmailConfig};
use rs_ecommerce::errors::{CustomerError, ErrorCode};
use rs_ecommerce::media::{
    check_asset_unused, check_downloaded_image, check_external_url, check_sku_store,
    extension_from_content_type, import_object_name, is_private_ip, media_type_of,
    normalize_tags, sanitize_filename, upload_object_name, validate_store_asset_input, IpAddress,
};
use rs_ecommerce::metafields::{normalize_optional_json, optional_json_outcome};
use rs_ecommerce::pages::{
    normalize_body_format, normalize_optional, normalize_slug, require_text, validate_page_input,
    PageInput,
};
use rs_ecommerce::product::{
    axis_positions, check_default_variant, check_request_tenant, check_sale_window,
    require_location_id, variant_axis_values, SkuCode, VariantInput,
};
use rs_ecommerce::request::{
    build_idempotency_key, check_uuid, extract_ip_address, extract_request_id, extract_user_agent,
};
use rs_ecommerce::search::{
    backend_kind, filter_clauses, hits_to_products, reindex_step, tenant_filter, BackendKind,
    OpenSearchClient, ReindexFilters, ReindexProgress, SearchProduct, SearchService,
};
use rs_ecommerce::setup::{
    check_initialize_store, check_store_available, hash_owner_password, store_code_availability,
};
use rs_ecommerce::status::PageStatus;
use rs_ecommerce::storage::{
    build_object_key, check_provider, join_path, private_config, public_config, public_object_url,
    require_configured, store_prefix,
};
use rs_ecommerce::sync::{event_kind, is_fanned_out, outcome_status, should_sync_store, SyncEvent};
use rs_ecommerce::time::{Instant, Timestamp};

#[test]
fn sku_codes() {
    let sku = SkuCode::parse("  TSHIRT-RED-M ").unwrap();
    assert_eq!(sku.as_str(), "TSHIRT-RED-M");
    assert_eq!(SkuCode::parse("   ").unwrap_err().error.message, "sku is required");
    assert_eq!(SkuCode::parse("A B").unwrap_err().error.message, "sku must not contain whitespace");
    let long = "x".repeat(65);
    assert_eq!(SkuCode::parse(&long).unwrap_err().error.message, "sku must be 64 chars or less");
    assert!(SkuCode::parse(&"x".repeat(64)).is_ok());
    let wide = "あ".repeat(22);
    assert_eq!(SkuCode::parse(&wide).unwrap_err().error.message, "sku must be 64 chars or less");
}

#[test]
fn a_parsed_sku_parses_to_itself() {
    let once = SkuCode::parse(" ab-1 ").unwrap();
    let twice = SkuCode::parse(once.as_str()).unwrap();
    assert_eq!(once, twice);
}

#[test]
fn sale_windows_and_axes() {
    let early = Instant { seconds: 10, nanos: 0 };
    let late = Instant { seconds: 20, nanos: 0 };
    assert!(check_sale_window(Some(early), Some(late)).is_ok());
    assert!(check_sale_window(Some(early), Some(early)).is_ok());
    assert_eq!(
        check_sale_window(Some(late), Some(early)).unwrap_err().error.message,
        "sale_end_at must be later than sale_start_at"
    );
    assert!(check_sale_window(Some(late), None).is_ok());
    let axes = vec![(" Color ".to_string(), 0), ("Size".to_string(), 5), ("Fit".to_string(), -1)];
    assert_eq!(
        axis_positions(&axes).unwrap(),
        vec![("Color".to_string(), 1), ("Size".to_string(), 5), ("Fit".to_string(), 3)]
    );
    let bad = vec![("  ".to_string(), 1)];
    assert_eq!(axis_positions(&bad).unwrap_err().error.message, "variant_axes.name is required");
}

#[test]
fn default_variants_and_tenants() {
    assert_eq!(
        check_default_variant(None).unwrap_err().error.message,
        "default_variant is required when variant_axes is empty"
    );
    let v = VariantInput { sku: "S1".to_string(), fulfillment_type: " ".to_string(), status: "active".to_string() };
    assert_eq!(
        check_default_variant(Some(&v)).unwrap_err().error.message,
        "default_variant.fulfillment_type is required"
    );
    let v = VariantInput { sku: "S1".to_string(), fulfillment_type: "physical".to_string(), status: "".to_string() };
    assert_eq!(check_default_variant(Some(&v)).unwrap_err().error.message, "default_variant.status is required");
    let v = VariantInput { sku: " S1 ".to_string(), fulfillment_type: "physical".to_string(), status: "active".to_string() };
    assert_eq!(check_default_variant(Some(&v)).unwrap().as_str(), "S1");
    let t = |id: &str| Some(TenantContext { tenant_id: id.to_string() });
    assert!(check_request_tenant(t(""), "t1", "tenant does not match product").is_ok());
    assert!(check_request_tenant(None, "t1", "tenant does not match product").is_ok());
    assert!(check_request_tenant(t("t1"), "t1", "tenant does not match product").is_ok());
    assert_eq!(
        check_request_tenant(t("t2"), "t1", "tenant does not match variant").unwrap_err().error.message,
        "tenant does not match variant"
    );
    assert_eq!(require_location_id("").unwrap_err().error.message, "location_id is required");
}

fn pairs(v: &[(&str, &str)]) -> Vec<(String, String)> {
    v.iter().map(|(a, b)| (a.to_string(), b.to_string())).collect()
}

#[test]
fn variant_axis_values_follow_the_product_axes() {
    let axes = vec!["Color".to_string(), "Size".to_string()];
    let raw = pairs(&[(" size ", " M "), ("COLOR", "Red")]);
    assert_eq!(
        variant_axis_values(&raw, &axes).unwrap(),
        pairs(&[("Color", "Red"), ("Size", "M")])
    );
    let dup = pairs(&[("size", "M"), ("Size ", "L")]);
    assert_eq!(
        variant_axis_values(&dup, &axes).unwrap_err().error.message,
        "axis_values contains duplicate axis names"
    );
    let blank = pairs(&[("size", " ")]);
    assert_eq!(
        variant_axis_values(&blank, &axes).unwrap_err().error.message,
        "axis_values.name and axis_values.value are required"
    );
    let missing = pairs(&[("color", "Red")]);
    assert_eq!(
        variant_axis_values(&missing, &axes).unwrap_err().error.message,
        "axis value is required for Size"
    );
    assert_eq!(
        variant_axis_values(&missing, &Vec::new()).unwrap_err().error.message,
        "axis_values cannot be set when variant axes are not defined"
    );
    assert_eq!(variant_axis_values(&Vec::new(), &Vec::new()).unwrap(), Vec::new());
}

fn profile(name: &str, email: &str, phone: &str) -> ProfileInput {
    ProfileInput {
        name: name.to_string(),
        email: email.to_string(),
        phone: phone.to_string(),
        status: String::new(),
        notes: String::new(),
        country_code: String::new(),
    }
}

fn identity(kind: &str, value: &str, verified: bool) -> IdentityInput {
    IdentityInput { identity_type: kind.to_string(), identity_value: value.to_string(), verified }
}

#[test]
fn customer_profiles() {
    assert_eq!(
        validate_customer_profile(&profile("", "", ""), &Vec::new()),
        Err(CustomerError::InvalidArgument("customer name or identity is required".to_string()))
    );
    assert_eq!(validate_customer_profile(&profile("", "", ""), &vec![identity("line", "u1", true)]), Ok(()));
    assert_eq!(validate_customer_profile(&profile("Hanako", "", ""), &Vec::new()), Ok(()));
    assert_eq!(default_country_code(""), "JP");
    assert_eq!(default_country_code("US"), "US");
    assert_eq!(profile_status_or_default(""), "active");
    assert_eq!(identity_source_or_default(""), "admin");
    assert_eq!(identity_source_or_default("import"), "import");
}

#[test]
fn customer_identities() {
    let ids = normalize_identities(
        &profile("", "a@b.jp", "09012345678"),
        vec![identity(" ", "x", true), identity("line", "u1", true), identity("fax", "  ", false)],
    );
    assert_eq!(
        ids,
        vec![identity("email", "a@b.jp", false), identity("phone", "09012345678", false), identity("line", "u1", true)]
    );
    assert_eq!(normalize_identity("email", "  Alice@Example.COM "), "alice@example.com");
    assert_eq!(normalize_identity("phone", " +81 90-1234-5678 "), "819012345678");
    assert_eq!(normalize_identity("line", "  U1 "), "U1");
    for (kind, value) in [("phone", " +81 (90) 1234 "), ("line", "\u{3000}U1 "), ("email", " A@B.C ")] {
        let once = normalize_identity(kind, value);
        assert_eq!(normalize_identity(kind, &once), once);
    }
    let values = normalize_identity_values(vec![identity("email", " X@Y.Z ", true)]);
    assert_eq!(values, vec![identity("email", "x@y.z", true)]);
}

#[test]
fn the_best_identity_match_wins() {
    let m = |id: &str, verified: bool, at: i64| IdentityMatch { customer_id: id.to_string(), verified, created_at: at };
    assert_eq!(best_match(&Vec::new()), None);
    assert_eq!(best_match(&vec![m("a", false, 1), m("b", true, 9), m("c", true, 5)]), Some(2));
    assert_eq!(best_match(&vec![m("a", false, 3), m("b", false, 3)]), Some(0));
    assert_eq!(best_match(&vec![m("a", true, 3), m("b", false, 1)]), Some(0));
}

#[test]
fn customer_request_checks() {
    assert_eq!(
        check_identity_upsert("email", ""),
        Err(CustomerError::InvalidArgument("identity_type and identity_value are required".to_string()))
    );
    assert_eq!(
        check_identity_owner("c1", "c2"),
        Err(CustomerError::AlreadyExists("identity is already linked to another customer".to_string()))
    );
    assert_eq!(check_identity_owner("c1", "c1"), Ok(()));
    assert_eq!(
        check_address_input("shipping", "Taro", "100-0001", "Tokyo", "", "1-1"),
        Err(CustomerError::InvalidArgument("address required fields are missing".to_string()))
    );
    assert_eq!(check_address_input("shipping", "Taro", "100-0001", "Tokyo", "Chiyoda", "1-1"), Ok(()));
    assert_eq!(
        check_definition_input("ns", "key", "", "text"),
        Err(CustomerError::InvalidArgument("definition required fields are missing".to_string()))
    );
    assert_eq!(
        require_definition_id("  "),
        Err(CustomerError::InvalidArgument("definition_id is required".to_string()))
    );
}

#[test]
fn json_values_are_checked_with_serde_json() {
    assert_eq!(check_value_json("{\"a\":1}"), Ok(()));
    assert_eq!(
        check_value_json("  "),
        Err(CustomerError::InvalidArgument("value_json is required".to_string()))
    );
    assert_eq!(
        check_value_json("{oops"),
        Err(CustomerError::InvalidArgument("value_json must be valid JSON".to_string()))
    );
    assert_eq!(customer_optional_json(" ".to_string()), Ok("{}".to_string()));
    assert_eq!(customer_optional_json("[1,2]".to_string()), Ok("[1,2]".to_string()));
    assert_eq!(
        customer_optional_json("nope".to_string()),
        Err(CustomerError::InvalidArgument("invalid json provided".to_string()))
    );
    assert_eq!(normalize_optional_json("".to_string()).unwrap(), "{}");
    assert_eq!(normalize_optional_json("{bad".to_string()).unwrap_err().error.message, "invalid json provided");
    assert_eq!(optional_json_outcome("x".to_string(), true).unwrap(), "x");
    assert_eq!(optional_json_outcome("x".to_string(), false).unwrap_err().status, 400);
}

fn page(title: &str, slug: &str, status: &str) -> PageInput {
    PageInput {
        title: title.to_string(),
        slug: slug.to_string(),
        body: "  # Hi  ".to_string(),
        body_format: String::new(),
        status: status.to_string(),
        publish_start_at: None,
        publish_end_at: None,
        seo_title: "  ".to_string(),
        seo_description: " desc ".to_string(),
    }
}

#[test]
fn page_fields() {
    assert_eq!(require_text(" t ", "title").unwrap(), "t");
    assert_eq!(require_text(" ", "title").unwrap_err().error.message, "title is required");
    assert_eq!(normalize_slug(" about ").unwrap(), "about");
    assert_eq!(normalize_slug("").unwrap_err().error.message, "slug is required");
    assert_eq!(
        normalize_slug(&"s".repeat(256)).unwrap_err().error.message,
        "slug must be 255 chars or less"
    );
    assert_eq!(normalize_optional("  "), None);
    assert_eq!(normalize_optional(" x "), Some("x".to_string()));
    assert_eq!(normalize_body_format("").unwrap(), "markdown");
    assert_eq!(normalize_body_format("html").unwrap_err().error.message, "body_format must be markdown");
}

#[test]
fn pages_are_validated_as_a_whole() {
    let v = validate_page_input(page(" About ", " about ", "published")).unwrap();
    assert_eq!(v.title, "About");
    assert_eq!(v.slug, "about");
    assert_eq!(v.body, "# Hi");
    assert_eq!(v.body_format, "markdown");
    assert_eq!(v.status, PageStatus::Published);
    assert_eq!(v.seo_title, None);
    assert_eq!(v.seo_description, Some("desc".to_string()));
    assert_eq!(
        validate_page_input(page("About", "about", "gone")).unwrap_err().error.message,
        "status must be draft or published"
    );
    let mut p = page("About", "about", "");
    p.publish_start_at = Some(Timestamp { seconds: 200, nanos: 0 });
    p.publish_end_at = Some(Timestamp { seconds: 100, nanos: 0 });
    assert_eq!(
        validate_page_input(p).unwrap_err().error.message,
        "publish_end_at must be after publish_start_at"
    );
    assert_eq!(validate_page_input(page("", "about", "")).unwrap_err().error.message, "title is required");
}

#[test]
fn search_service_and_filters() {
    assert_eq!(tenant_filter("t1"), "tenant_id = \"t1\"");
    assert_eq!(backend_kind(None), Some(BackendKind::Meilisearch));
    assert_eq!(backend_kind(Some("meilisearch")), Some(BackendKind::Meilisearch));
    assert_eq!(backend_kind(Some("none")), Some(BackendKind::Disabled));
    assert_eq!(backend_kind(Some("opensearch")), Some(BackendKind::OpenSearch));
    assert_eq!(backend_kind(Some("solr")), None);
    assert!(SearchService::meilisearch("http://m", Some("k"), "products").is_queried());
    assert!(!SearchService::none().is_queried());
    assert!(!SearchService::opensearch("http://o", "products").is_queried());
    let c = OpenSearchClient::new("http://o", "idx");
    assert_eq!((c.base_url.as_str(), c.index_name.as_str()), ("http://o", "idx"));
    let f = ReindexFilters::from_args(Some("t1"), Some(""), None, Some("active"), None);
    assert!(!f.is_empty());
    assert_eq!(
        filter_clauses(&f),
        vec![
            ("p.tenant_id::text = ".to_string(), "t1".to_string()),
            ("p.status = ".to_string(), "active".to_string()),
        ]
    );
    assert!(ReindexFilters::from_args(Some(""), None, None, None, None).is_empty());
    let p = ReindexProgress { offset: 0, total: 0 };
    assert_eq!(reindex_step(p, 0, 500), None);
    assert_eq!(reindex_step(p, 120, 500), Some(ReindexProgress { offset: 500, total: 120 }));
}

fn hit(id: &str) -> SearchProduct {
    SearchProduct {
        id: id.to_string(),
        tenant_id: "t1".to_string(),
        store_id: String::new(),
        vendor_id: "v".to_string(),
        title: "T".to_string(),
        description: "D".to_string(),
        status: "active".to_string(),
        primary_category_id: String::new(),
        category_ids: Vec::new(),
        sku_codes: Vec::new(),
    }
}

#[test]
fn search_hits_become_products() {
    let out = hits_to_products(vec![hit("p1"), hit(""), hit("p2")], "t1");
    let ids: Vec<&str> = out.iter().map(|p| p.id.as_str()).collect();
    assert_eq!(ids, vec!["p1", "p2"]);
    assert_eq!(out[0].vendor_id, "v");
    assert!(hits_to_products(vec![hit("p1")], "").is_empty());
}

#[test]
fn request_headers() {
    assert_eq!(extract_request_id(Some("req-1")), Some("req-1".to_string()));
    let fresh = extract_request_id(Some("")).unwrap();
    assert_eq!(fresh.len(), 36);
    assert!(check_uuid(&fresh, "request_id").is_ok());
    assert_ne!(fresh, extract_request_id(None).unwrap());
    assert_eq!(extract_ip_address(Some(" 1.2.3.4 , 5.6.7.8"), Some("9.9.9.9")), Some("1.2.3.4".to_string()));
    assert_eq!(extract_ip_address(Some(" , 5.6.7.8"), Some("9.9.9.9")), Some("9.9.9.9".to_string()));
    assert_eq!(extract_ip_address(None, Some("")), None);
    assert_eq!(extract_user_agent(Some("curl/8")), Some("curl/8".to_string()));
    assert_eq!(
        build_idempotency_key("customer.profile_upsert", "customer", Some("req-1")),
        "customer.profile_upsert:customer:req-1"
    );
    assert_eq!(build_idempotency_key("e", "a", None).len(), 36);
    assert!(check_uuid(&build_idempotency_key("e", "a", None), "key").is_ok());
    assert!(check_uuid("0b8d2f6a-71c4-4e2b-8a93-5d6e7f809112", "store_id").is_ok());
    assert_eq!(check_uuid("nope", "store_id").unwrap_err().error.message, "store_id is invalid");
}

#[test]
fn invitation_mail() {
    let config = EmailConfig::from_values(None, Some("2525"), None, Some("https://shop.example/"));
    assert_eq!(config.smtp_host, "localhost");
    assert_eq!(config.smtp_port, 2525);
    assert_eq!(config.from, "no-reply@local.test");
    assert_eq!(config.invite_url("tok"), "https://shop.example/identity/accept-invite?token=tok");
    let defaults = EmailConfig::from_values(None, Some("70000"), None, None);
    assert_eq!(defaults.smtp_port, 1025);
    assert_eq!(defaults.base_url, "http://localhost:3000");
    assert_eq!(invite_subject("Shop"), "Shop: staff invitation");
    assert_eq!(
        invite_body(Some(""), "Shop", None, "https://x"),
        "Hello there,\n\nYou have been invited to Shop as staff.\n\nAccept invite: https://x\n\nIf you did not expect this, you can ignore this email.\n"
    );
    assert!(invite_body(Some("Ken"), "Shop", Some("editor"), "u").starts_with("Hello Ken,"));
}

#[test]
fn media_rules() {
    assert_eq!(sanitize_filename("  my photo (1).png "), "my_photo__1_.png");
    assert_eq!(sanitize_filename("  "), "upload");
    assert_eq!(digital_file_name(""), "download");
    assert_eq!(extension_from_content_type("image/png"), Some("png"));
    assert_eq!(extension_from_content_type("text/plain"), None);
    let tags: Vec<String> = (0..60).map(|i| format!(" t{i} ")).collect();
    let kept = normalize_tags(tags);
    assert_eq!(kept.len(), 50);
    assert_eq!(kept[0], "t0");
    assert!(is_private_ip(&IpAddress::V4([192, 168, 1, 1])));
    assert!(!is_private_ip(&IpAddress::V4([8, 8, 8, 8])));
    assert!(is_private_ip(&IpAddress::V6([0, 0, 0, 0, 0, 0, 0, 1])));
    assert_eq!(
        check_external_url("ftp", "example.com", None).unwrap_err().error.message,
        "public_url must be http or https"
    );
    assert_eq!(
        check_external_url("https", "LocalHost", None).unwrap_err().error.message,
        "public_url host is not allowed"
    );
    assert!(check_external_url("https", "example.com", None).is_ok());
    assert_eq!(media_type_of(Some("image/png; charset=binary")), "image/png");
    assert_eq!(
        check_downloaded_image(Some(20_000_000), "image/png", 10).unwrap_err().error.message,
        "image is too large"
    );
    assert_eq!(
        check_downloaded_image(None, "text/html", 10).unwrap_err().error.message,
        "public_url must point to an image"
    );
    assert_eq!(import_object_name("", "id1", "image/webp"), "media/id1.webp");
    assert_eq!(import_object_name("", "id1", "image/x"), "media/id1.bin");
    assert_eq!(upload_object_name("id1", "a.png"), "id1-a.png");
    assert!(validate_store_asset_input("").is_err());
    assert!(check_asset_unused(1).is_err());
    assert_eq!(check_sku_store(Some("s2"), "s1").unwrap_err().status, 403);
    assert_eq!(check_sku_store(None, "s1").unwrap_err().error.message, "sku_id not found");
}

#[test]
fn storage_locations() {
    let c = public_config(" s3 ", "bucket", " /media/ ", "https://cdn.example/", "ap-northeast-1");
    assert!(c.is_configured());
    assert_eq!(join_path("/media/", "a.png"), "media/a.png");
    assert_eq!(join_path("  ", "a.png"), "a.png");
    assert_eq!(store_prefix("media", " t1 ", "s1"), "media/t1/s1");
    assert_eq!(build_object_key("", "t1", "s1", " x.png "), "t1/s1/x.png");
    assert_eq!(public_object_url(&c, "k"), "https://cdn.example/k");
    let bare = private_config("s3", "b", "", "", "");
    assert_eq!(public_object_url(&bare, "k"), "https://b.s3.amazonaws.com/k");
    let none = private_config("", "", "", "", "");
    assert_eq!(
        require_configured(&none, "private storage is not configured").unwrap_err().error.code,
        ErrorCode::FailedPrecondition
    );
    assert!(check_provider("s3", "gcs").is_ok());
    assert_eq!(check_provider("gcs", "GCS presign is not configured yet").unwrap_err().error.code, ErrorCode::FailedPrecondition);
    assert_eq!(check_provider("azure", "x").unwrap_err().error.message, "unsupported storage provider");
}

#[test]
fn digital_goods() {
    assert_eq!(require_filename(" ").unwrap_err().error.message, "filename is required");
    assert_eq!(check_digital_sku(None).unwrap_err().error.message, "sku_id not found");
    assert_eq!(check_digital_sku(Some(false)).unwrap_err().error.code, ErrorCode::FailedPrecondition);
    assert!(check_digital_sku(Some(true)).is_ok());
    assert_eq!(
        check_digital_asset_input("k", "").unwrap_err().error.message,
        "asset.object_key and bucket are required"
    );
    assert_eq!(require_asset(false).unwrap_err().error.message, "asset_id not found");
}

#[test]
fn store_setup() {
    assert_eq!(check_initialize_store("", "a@b", "pw").unwrap_err().error.message, "store_name is required");
    assert_eq!(check_initialize_store("S", "", "pw").unwrap_err().error.message, "owner_email is required");
    assert_eq!(check_initialize_store("S", "a@b", "").unwrap_err().error.message, "owner_password is required");
    assert!(check_initialize_store("S", "a@b", "pw").is_ok());
    let taken = check_store_available(true, true).unwrap_err();
    assert_eq!((taken.status, taken.error.message.as_str()), (409, "store already exists"));
    assert_eq!(check_store_available(false, true).unwrap_err().error.message, "store_code already exists");
    assert_eq!(store_code_availability(Some("store_code is invalid"), false), (false, "store_code is invalid".to_string()));
    assert_eq!(store_code_availability(None, true), (false, "store_code already exists".to_string()));
    assert_eq!(store_code_availability(None, false), (true, "store_code is available".to_string()));
    assert!(hash_owner_password("pw").unwrap().starts_with("$argon2"));
}

#[test]
fn customer_sync_routing() {
    assert_eq!(event_kind("customer.profile_upsert"), SyncEvent::ProfileUpsert);
    assert_eq!(event_kind("customer.address_upsert"), SyncEvent::AddressUpsert);
    assert_eq!(event_kind("order.created"), SyncEvent::Other);
    assert!(is_fanned_out(SyncEvent::IdentityUpsert));
    assert!(!is_fanned_out(SyncEvent::AddressUpsert));
    assert!(!should_sync_store(7, Some(7), false));
    assert!(!should_sync_store(7, None, true));
    assert!(should_sync_store(7, Some(8), false));
    assert_eq!(outcome_status(true), "published");
    assert_eq!(outcome_status(false), "failed");
}

#[test]
fn request_context_rules() {
    let store = |id: &str| Some(StoreContext { store_id: id.to_string() });
    let tenant = |id: &str| Some(TenantContext { tenant_id: id.to_string() });
    assert_eq!(require_store_id(store("s1")).unwrap(), "s1");
    assert_eq!(require_store_id(store("")).unwrap_err().error.message, "store.store_id is required");
    assert_eq!(require_tenant_id(None).unwrap_err().error.message, "tenant.tenant_id is required");
    let token = RequestContext {
        request_id: None,
        ip_address: None,
        user_agent: None,
        store_id: Some("s1".to_string()),
        tenant_id: Some("t1".to_string()),
    };
    assert_eq!(
        resolve_store_context(Some(token.clone()), store("s2"), None).unwrap_err().error.message,
        "store_id does not match token"
    );
    assert_eq!(
        resolve_store_context(Some(token.clone()), None, None).unwrap(),
        StoreResolution::Resolved { store_id: "s1".to_string(), tenant_id: "t1".to_string() }
    );
    assert_eq!(
        resolve_store_context(None, store("s9"), tenant("t9")).unwrap(),
        StoreResolution::LookupStore { store_id: "s9".to_string() }
    );
    assert_eq!(
        resolve_store_context(None, None, tenant("t9")).unwrap(),
        StoreResolution::LookupTenant { tenant_id: "t9".to_string() }
    );
    assert_eq!(
        resolve_store_context(None, None, None).unwrap_err().error.message,
        "store.store_id or tenant.tenant_id is required"
    );
    assert_eq!(finish_store_lookup("s1".to_string(), None).unwrap_err().error.message, "store_id not found");
    assert_eq!(finish_tenant_lookup("t1".to_string(), Some("s1".to_string())).unwrap(), ("s1".to_string(), "t1".to_string()));
    assert_eq!(check_json_content_type(Some("text/plain")).unwrap_err().status, 415);
    assert!(check_json_content_type(Some("application/json; charset=utf-8")).is_ok());
    assert_eq!(invalid_json_error("eof").error.message, "invalid json: eof");
    assert_eq!(require_present(false, "settings is required").unwrap_err().error.message, "settings is required");
    assert!(require_present(true, "zone is required").is_ok());
}
