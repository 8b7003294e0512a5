use rs_ecommerce::errors::{
    CartError, ConnectError, CustomerError, ErrorCode, IdentityError, OrderError, RpcError,
    middleware_error,
};
use rs_ecommerce::numbers::{format_u64, parse_i64, parse_u16};
use rs_ecommerce::paging::{audit_page_cut, audit_page_params, next_page_token, page_params, PageInfo};
use rs_ecommerce::status::{AuctionStatus, AuctionType, AutoBidStatus, PageStatus, StoreStaffStatus};
use rs_ecommerce::text::{
    ascii_digits, before_first, contains_whitespace, eq_ignore_ascii_case, split,
    strip_prefix, trim, trim_char, trim_end_char,
};
use rs_ecommerce::time::{chrono_to_timestamp, is_later, timestamp_to_chrono, Instant, Timestamp};

#[test]
fn trims_unicode_white_space() {
    assert_eq!(trim("\u{3000} sku-1 \t\n"), "sku-1");
    assert_eq!(trim("   "), "");
}

#[test]
fn splits_like_str_split() {
    assert_eq!(split("a;b;;c", ';'), vec!["a", "b", "", "c"]);
    assert_eq!(split("", ';'), vec![""]);
    assert_eq!(before_first("10.0.0.1, 10.0.0.2", ','), "10.0.0.1");
    assert_eq!(before_first("plain", ','), "plain");
}

#[test]
fn text_helpers_match_std() {
    assert_eq!(strip_prefix("Bearer abc", "Bearer "), Some("abc".to_string()));
    assert_eq!(strip_prefix("Basic abc", "Bearer "), None);
    assert_eq!(ascii_digits("+81 (90) 1234-5678"), "819012345678");
    assert!(eq_ignore_ascii_case("TrUe", "true"));
    assert!(!eq_ignore_ascii_case("truth", "true"));
    assert!(contains_whitespace("ab c"));
    assert!(!contains_whitespace("abc"));
    assert_eq!(trim_char("//a/b//", '/'), "a/b");
    assert_eq!(trim_end_char("https://cdn.example///", '/'), "https://cdn.example");
    assert_eq!(rs_ecommerce::text::concat("a", "b"), "ab");
}

#[test]
fn emails_lowercase_with_unicode_rules() {
    assert_eq!(rs_ecommerce::customer::normalize_identity("email", "Alice@Example.COM"), "alice@example.com");
    assert_eq!(rs_ecommerce::customer::normalize_identity("email", " ÄÖ "), "äö");
}

#[test]
fn parses_and_formats_numbers() {
    assert_eq!(parse_i64("42"), Some(42));
    assert_eq!(parse_i64("-7"), Some(-7));
    assert_eq!(parse_i64("+7"), Some(7));
    assert_eq!(parse_i64("9223372036854775808"), None);
    assert_eq!(parse_i64("-9223372036854775808"), Some(i64::MIN));
    assert_eq!(parse_i64("1x"), None);
    assert_eq!(parse_i64(""), None);
    assert_eq!(parse_u16("2525"), Some(2525));
    assert_eq!(parse_u16("65536"), None);
    assert_eq!(parse_u16("-1"), None);
    assert_eq!(format_u64(0), "0");
    assert_eq!(format_u64(1200), "1200");
}

#[test]
fn formatted_numbers_parse_back() {
    for n in [0u64, 9, 10, 99, 12345, i64::MAX as u64] {
        assert_eq!(parse_i64(&format_u64(n)), Some(n as i64));
    }
}

#[test]
fn status_names_round_trip() {
    for t in [AuctionType::Open, AuctionType::Sealed] {
        assert_eq!(AuctionType::try_from(t.as_str()), Ok(t));
    }
    for s in [
        AuctionStatus::Draft,
        AuctionStatus::Scheduled,
        AuctionStatus::Running,
        AuctionStatus::Ended,
        AuctionStatus::AwaitingApproval,
        AuctionStatus::Approved,
    ] {
        assert_eq!(AuctionStatus::try_from(s.as_str()), Ok(s));
    }
    for s in [AutoBidStatus::Active, AutoBidStatus::Disabled] {
        assert_eq!(AutoBidStatus::try_from(s.as_str()), Ok(s));
    }
    for s in [StoreStaffStatus::Active, StoreStaffStatus::Invited] {
        assert_eq!(StoreStaffStatus::try_from(s.as_str()), Ok(s));
    }
    for s in [PageStatus::Draft, PageStatus::Published] {
        assert_eq!(PageStatus::try_from(s.as_str()), Ok(s));
    }
}

#[test]
fn status_text_and_refusals() {
    assert_eq!(AuctionStatus::AwaitingApproval.as_str(), "awaiting_approval");
    assert_eq!(AuctionStatus::Running.to_string(), "running");
    assert_eq!(PageStatus::try_from("  "), Ok(PageStatus::Draft));
    assert_eq!(PageStatus::try_from(" published "), Ok(PageStatus::Published));
    assert_eq!(PageStatus::try_from("archived"), Err("status must be draft or published"));
}

#[test]
fn error_codes_have_wire_names() {
    assert_eq!(ErrorCode::InvalidArgument.as_str(), "invalid_argument");
    assert_eq!(ErrorCode::FailedPrecondition.as_str(), "failed_precondition");
    assert_eq!(ErrorCode::UnsupportedMediaType.as_str(), "unsupported_media_type");
}

#[test]
fn service_errors_map_to_statuses() {
    let e = OrderError::failed_precondition("busy").into_connect();
    assert_eq!(e.status, 409);
    assert_eq!(e.error.code, ErrorCode::FailedPrecondition);
    assert_eq!(CartError::not_found("x").into_connect().status, 404);
    assert_eq!(IdentityError::unauthenticated("x").into_connect().status, 401);
    assert_eq!(IdentityError::permission_denied("x").into_connect().status, 403);
    assert_eq!(CustomerError::already_exists("x").into_connect().status, 409);
    assert_eq!(OrderError::internal("x").into_connect().status, 500);
    assert_eq!(CartError::invalid_argument("x").into_connect().status, 400);
    assert_eq!(
        CartError::from_db_error("timeout"),
        CartError::Internal("db error: timeout".to_string())
    );
}

#[test]
fn errors_survive_a_round_trip_through_the_wire() {
    let e = IdentityError::already_exists("email already exists");
    assert_eq!(IdentityError::from_connect(e.clone().into_connect()), e);
    let c = CustomerError::not_found("customer not found");
    assert_eq!(CustomerError::from_connect(c.clone().into_connect()), c);
    let o = OrderError::invalid_argument("bad");
    assert_eq!(OrderError::from_connect(o.clone().into_connect()), o);
}

#[test]
fn unsupported_media_type_falls_back_by_status() {
    let sent = RpcError {
        status: 415,
        error: ConnectError { code: ErrorCode::UnsupportedMediaType, message: "m".to_string() },
    };
    assert_eq!(CartError::from_connect(sent), CartError::Internal("m".to_string()));
    let sent = RpcError {
        status: 400,
        error: ConnectError { code: ErrorCode::UnsupportedMediaType, message: "m".to_string() },
    };
    assert_eq!(OrderError::from_connect(sent), OrderError::InvalidArgument("m".to_string()));
}

#[test]
fn middleware_errors_pick_codes_by_status() {
    assert_eq!(middleware_error(401, "unauthenticated").error.code, ErrorCode::Unauthenticated);
    assert_eq!(middleware_error(500, "db error").error.code, ErrorCode::Internal);
    assert_eq!(middleware_error(403, "permission denied").error.code, ErrorCode::PermissionDenied);
    assert_eq!(RpcError::db_error("boom").error.message, "db error: boom");
}

#[test]
fn page_params_clamp_and_default() {
    assert_eq!(page_params(None), (50, 0));
    let p = PageInfo { page_size: 0, page_token: "20".to_string() };
    assert_eq!(page_params(Some(p)), (1, 20));
    let p = PageInfo { page_size: 1000, page_token: "-5".to_string() };
    assert_eq!(page_params(Some(p)), (200, 0));
    let p = PageInfo { page_size: 25, page_token: "abc".to_string() };
    assert_eq!(page_params(Some(p)), (25, 0));
    let p = PageInfo { page_size: -3, page_token: String::new() };
    assert_eq!(audit_page_params(Some(p)), (50, 0));
}

#[test]
fn next_page_token_only_after_full_pages() {
    assert_eq!(next_page_token(50, 50, 100), "150");
    assert_eq!(next_page_token(49, 50, 100), "");
    assert_eq!(audit_page_cut(51, 50, 0), (50, "50".to_string()));
    assert_eq!(audit_page_cut(10, 50, 0), (10, String::new()));
}

#[test]
fn the_next_page_starts_where_this_one_ended() {
    let first = page_params(Some(PageInfo { page_size: 10, page_token: String::new() }));
    let token = next_page_token(10, first.0, first.1);
    let second = page_params(Some(PageInfo { page_size: 10, page_token: token }));
    assert_eq!(second, (10, 10));
}

#[test]
fn timestamps_convert_through_chrono() {
    let ts = Timestamp { seconds: 1_700_000_000, nanos: 5 };
    assert_eq!(timestamp_to_chrono(Some(ts)), Some(Instant { seconds: 1_700_000_000, nanos: 5 }));
    assert_eq!(timestamp_to_chrono(Some(Timestamp { seconds: 1, nanos: -1 })), None);
    assert_eq!(timestamp_to_chrono(Some(Timestamp { seconds: i64::MAX, nanos: 0 })), None);
    assert_eq!(timestamp_to_chrono(None), None);
    assert_eq!(
        chrono_to_timestamp(Some(Instant { seconds: 9, nanos: 999 })),
        Some(Timestamp { seconds: 9, nanos: 0 })
    );
}

#[test]
fn a_sent_timestamp_reads_back_as_the_same_second() {
    let i = Instant { seconds: 1_700_000_123, nanos: 77 };
    let sent = chrono_to_timestamp(Some(i));
    assert_eq!(timestamp_to_chrono(sent), Some(Instant { seconds: 1_700_000_123, nanos: 0 }));
}

#[test]
fn later_compares_seconds_then_nanos() {
    let a = Instant { seconds: 10, nanos: 1 };
    let b = Instant { seconds: 10, nanos: 0 };
    assert!(is_later(a, b));
    assert!(!is_later(b, a));
    assert!(!is_later(a, a));
}
