use rs_ecommerce::auction::{
    apply_auto_bid, auto_bid_ceiling, auto_bid_target, best_bid, check_awaiting_approval,
    check_bidder, check_editable, close_status, create_status, opening_price, place_bid,
    require_bid_increment, update_status, validate_auction_draft, AuctionSnapshot, AutoBidder,
    Money, PlacedBid,
};
use rs_ecommerce::cart::{
    added_item_total, cart_total, cart_ttl_days, check_checkout_line, check_location,
    check_stock_taken, order_currency, order_status_for, quantity_change, require_items,
    reservation_after_release, saturating_add, saturating_mul, sum_lines, validate_quantity,
    CartLine, PaymentMethod, QuantityChange,
};
use rs_ecommerce::errors::{CartError, ErrorCode};
use rs_ecommerce::inventory::{reservation_request_outcome, StockLevel};
use rs_ecommerce::status::AuctionStatus;

fn line(price: i64, currency: &str, quantity: i32) -> CartLine {
    CartLine { unit_price: price, currency: currency.to_string(), quantity }
}

#[test]
fn saturating_arithmetic_clamps() {
    assert_eq!(saturating_mul(i64::MAX, 2), i64::MAX);
    assert_eq!(saturating_mul(i64::MIN, 2), i64::MIN);
    assert_eq!(saturating_add(i64::MAX, 1), i64::MAX);
    assert_eq!(saturating_add(-5, 3), -2);
    assert_eq!(added_item_total(1200, 3), 3600);
}

#[test]
fn cart_item_checks() {
    assert_eq!(
        validate_quantity(0),
        Err(CartError::InvalidArgument("quantity must be greater than 0".to_string()))
    );
    assert_eq!(validate_quantity(1), Ok(()));
    assert_eq!(
        check_location("physical", ""),
        Err(CartError::InvalidArgument("location_id is required for physical SKU".to_string()))
    );
    assert_eq!(check_location("digital", ""), Ok(()));
    assert_eq!(check_location("physical", "loc-1"), Ok(()));
}

#[test]
fn cart_totals() {
    let lines = vec![line(1000, "JPY", 2), line(500, "JPY", 1)];
    assert_eq!(sum_lines(&lines), 2500);
    let total = cart_total(&lines).unwrap();
    assert_eq!(total.amount, 2500);
    assert_eq!(total.currency, "JPY");
    assert!(cart_total(&vec![line(1, "JPY", 1), line(1, "USD", 1)]).is_none());
    assert!(cart_total(&Vec::new()).is_none());
}

#[test]
fn checkout_line_checks() {
    assert_eq!(
        check_checkout_line(Some("JPY"), "USD", false, None, 1),
        Err(CartError::InvalidArgument("mixed currency cart is not supported".to_string()))
    );
    assert_eq!(
        check_checkout_line(None, "JPY", true, None, 1),
        Err(CartError::FailedPrecondition("inventory reservation not ready".to_string()))
    );
    assert_eq!(
        check_checkout_line(None, "JPY", true, Some(1), 2),
        Err(CartError::FailedPrecondition("reserved quantity is insufficient".to_string()))
    );
    assert_eq!(check_checkout_line(Some("JPY"), "JPY", true, Some(2), 2), Ok(()));
    assert_eq!(
        require_items(0),
        Err(CartError::InvalidArgument("cart has no items".to_string()))
    );
    assert_eq!(
        check_stock_taken(0),
        Err(CartError::FailedPrecondition("inventory stock is insufficient".to_string()))
    );
    assert_eq!(check_stock_taken(1), Ok(()));
}

#[test]
fn order_defaults() {
    assert_eq!(order_status_for(PaymentMethod::BankTransfer), "pending_payment");
    assert_eq!(order_status_for(PaymentMethod::Cod), "pending_shipment");
    assert_eq!(order_currency(None), "JPY");
    assert_eq!(order_currency(Some("USD".to_string())), "USD");
    assert_eq!(cart_ttl_days(None), 30);
    assert_eq!(cart_ttl_days(Some("7")), 7);
    assert_eq!(cart_ttl_days(Some("0")), 30);
    assert_eq!(cart_ttl_days(Some("soon")), 30);
}

#[test]
fn quantity_changes() {
    assert_eq!(quantity_change(2, 2), QuantityChange::Unchanged);
    assert_eq!(quantity_change(2, 5), QuantityChange::Increase(3));
    assert_eq!(quantity_change(5, 2), QuantityChange::Decrease(3));
    assert_eq!(reservation_after_release(5, 2), Some(3));
    assert_eq!(reservation_after_release(2, 2), None);
}

#[test]
fn stock_levels_reserve_release_consume() {
    let level = StockLevel { stock: 10, reserved: 4 };
    assert_eq!(level.try_reserve(6), Some(StockLevel { stock: 10, reserved: 10 }));
    assert_eq!(level.try_reserve(7), None);
    assert_eq!(level.release(10), StockLevel { stock: 10, reserved: 0 });
    assert_eq!(level.consume(4), Some(StockLevel { stock: 6, reserved: 0 }));
    assert_eq!(level.consume(5), None);
    assert_eq!(reservation_request_outcome(true), "done");
    assert_eq!(reservation_request_outcome(false), "failed");
}

#[test]
fn releasing_a_reservation_undoes_it() {
    let level = StockLevel { stock: 8, reserved: 3 };
    let reserved = level.try_reserve(4).unwrap();
    assert_eq!(reserved.release(4), level);
}

#[test]
fn auction_draft_checks() {
    assert_eq!(validate_auction_draft("sku", "open", "Title", Some(1), Some(2)), Ok((1, 2)));
    let msg = |r: Result<(i64, i64), rs_ecommerce::errors::RpcError>| r.unwrap_err().error.message;
    assert_eq!(msg(validate_auction_draft("", "open", "T", Some(1), Some(2))), "sku_id is required");
    assert_eq!(msg(validate_auction_draft("s", "dutch", "T", Some(1), Some(2))), "auction_type is invalid");
    assert_eq!(msg(validate_auction_draft("s", "open", "  ", Some(1), Some(2))), "title is required");
    assert_eq!(msg(validate_auction_draft("s", "open", "T", None, Some(2))), "start_at is required");
    assert_eq!(msg(validate_auction_draft("s", "open", "T", Some(1), None)), "end_at is required");
    assert_eq!(msg(validate_auction_draft("s", "open", "T", Some(2), Some(2))), "end_at must be after start_at");
    assert_eq!(
        require_bid_increment(None).unwrap_err().error.message,
        "bid_increment is required"
    );
}

#[test]
fn auction_states_on_create_and_update() {
    assert_eq!(create_status("draft", 100, 0), AuctionStatus::Draft);
    assert_eq!(create_status("", 100, 0), AuctionStatus::Scheduled);
    assert_eq!(create_status("", 100, 100), AuctionStatus::Running);
    assert_eq!(update_status(" ", 100, 0), Ok(AuctionStatus::Draft));
    assert_eq!(update_status("scheduled", 100, 200), Ok(AuctionStatus::Running));
    assert_eq!(update_status("ended", 100, 0).unwrap_err().error.message, "status is invalid");
    assert!(check_editable("draft").is_ok());
    assert!(check_editable("running").is_err());
    let start = Money { amount: 100, currency: "JPY".to_string() };
    assert_eq!(opening_price("open", &start), Some(start.clone()));
    assert_eq!(opening_price("sealed", &start), None);
}

fn open_auction() -> AuctionSnapshot {
    AuctionSnapshot {
        auction_type: "open".to_string(),
        status: "running".to_string(),
        start_at: 0,
        end_at: 1000,
        start_price: 100,
        start_currency: "JPY".to_string(),
        increment: 10,
        buyout_price: Some(500),
        buyout_currency: Some("JPY".to_string()),
        current_bid_id: None,
        current_price: None,
        winning_bid_id: None,
        winning_price: None,
    }
}

#[test]
fn open_auction_bidding() {
    let a = open_auction();
    let err = |r: Result<AuctionSnapshot, rs_ecommerce::errors::RpcError>| r.unwrap_err().error.message;
    assert_eq!(err(place_bid(&a, "b".to_string(), 100, "JPY", 1000)), "auction has already ended");
    assert_eq!(err(place_bid(&a, "b".to_string(), 100, "USD", 10)), "currency mismatch");
    assert_eq!(err(place_bid(&a, "b".to_string(), 99, "JPY", 10)), "bid amount is too low");
    let after = place_bid(&a, "b1".to_string(), 100, "JPY", 10).unwrap();
    assert_eq!(after.current_price, Some(100));
    assert_eq!(after.winning_bid_id, Some("b1".to_string()));
    assert_eq!(err(place_bid(&after, "b2".to_string(), 105, "JPY", 11)), "bid amount is too low");
    let after2 = place_bid(&after, "b2".to_string(), 110, "JPY", 11).unwrap();
    assert!(after2.current_price.unwrap() > after.current_price.unwrap());
    let bought = place_bid(&after2, "b3".to_string(), 500, "JPY", 12).unwrap();
    assert_eq!(bought.status, "awaiting_approval");
}

#[test]
fn sealed_auction_keeps_the_highest_bid() {
    let mut a = open_auction();
    a.auction_type = "sealed".to_string();
    a.buyout_price = None;
    let first = place_bid(&a, "b1".to_string(), 300, "JPY", 5).unwrap();
    let second = place_bid(&first, "b2".to_string(), 200, "JPY", 6).unwrap();
    assert_eq!(second.winning_price, Some(300));
    assert_eq!(second.winning_bid_id, Some("b1".to_string()));
    assert_eq!(second.current_price, None);
}

#[test]
fn scheduled_auction_starts_on_first_bid() {
    let mut a = open_auction();
    a.status = "scheduled".to_string();
    let after = place_bid(&a, "b1".to_string(), 100, "JPY", 10).unwrap();
    assert_eq!(after.status, "running");
    a.status = "ended".to_string();
    assert_eq!(
        place_bid(&a, "b1".to_string(), 100, "JPY", 10).unwrap_err().error.message,
        "auction is not running"
    );
}

#[test]
fn auto_bidding() {
    let max = Money { amount: 300, currency: "JPY".to_string() };
    assert_eq!(auto_bid_ceiling("open", true, &max, 100, "JPY"), Ok((300, "JPY".to_string())));
    assert_eq!(auto_bid_ceiling("open", false, &max, 100, "JPY"), Ok((0, "JPY".to_string())));
    assert_eq!(
        auto_bid_ceiling("sealed", true, &max, 100, "JPY").unwrap_err().error.message,
        "auto bid is only available for open auctions"
    );
    assert_eq!(
        auto_bid_ceiling("open", true, &max, 400, "JPY").unwrap_err().error.message,
        "max_amount must be >= start_price"
    );
    let a = open_auction();
    let top = AutoBidder { customer_id: "c1".to_string(), max_amount: 300 };
    assert_eq!(auto_bid_target(&a, None, &top, None), Some(100));
    assert_eq!(auto_bid_target(&a, None, &top, Some(150)), Some(160));
    let mut led = apply_auto_bid(&a, "auto-1".to_string(), 160);
    assert_eq!(led.current_price, Some(160));
    led.current_price = Some(160);
    assert_eq!(auto_bid_target(&led, Some("c1"), &top, Some(150)), None);
    let low = AutoBidder { customer_id: "c2".to_string(), max_amount: 50 };
    assert_eq!(auto_bid_target(&a, None, &low, None), None);
}

#[test]
fn closing_an_auction() {
    let bids = vec![
        PlacedBid { id: "a".to_string(), amount: 200, currency: "JPY".to_string(), created_at: 5 },
        PlacedBid { id: "b".to_string(), amount: 300, currency: "JPY".to_string(), created_at: 9 },
        PlacedBid { id: "c".to_string(), amount: 300, currency: "JPY".to_string(), created_at: 7 },
    ];
    assert_eq!(best_bid(&bids), Some(2));
    assert_eq!(best_bid(&Vec::new()), None);
    assert_eq!(close_status(Some(&bids[2]), None, None), AuctionStatus::AwaitingApproval);
    assert_eq!(close_status(Some(&bids[2]), Some(400), Some("JPY")), AuctionStatus::Ended);
    assert_eq!(close_status(Some(&bids[2]), Some(300), Some("JPY")), AuctionStatus::AwaitingApproval);
    assert_eq!(close_status(None, None, None), AuctionStatus::Ended);
    assert!(check_awaiting_approval("awaiting_approval").is_ok());
    assert_eq!(check_awaiting_approval("running").unwrap_err().error.code, ErrorCode::InvalidArgument);
    assert!(check_bidder("c1", true).is_ok());
    assert_eq!(check_bidder(" ", true).unwrap_err().status, 403);
}
