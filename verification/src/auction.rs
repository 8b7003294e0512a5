//! The auction engine: which drafts are valid, which state an auction is
//! in, which bids are accepted and what they change, what automatic bidding
//! bids on a customer's behalf, and how an auction is settled when closed.
//!
//! Instants are nanoseconds since the epoch (`time::clock_nanos` puts a
//! date-time on that clock, keeping its order); money amounts are minor
//! units of the named currency.
use vstd::prelude::*;
use crate::context::ActorContext;
use crate::errors::{ErrorCode, RpcError, STATUS_BAD_REQUEST, STATUS_FORBIDDEN};
use crate::status::AuctionStatus;
use crate::text::{is_blank, str_eq, trim, trim_seq};

verus! {

/// An amount of money in a currency.
#[derive(Debug, Clone, PartialEq, Eq)]
pub struct Money {
    pub amount: i64,
    pub currency: String,
}

/// The type name marks an open auction; any other stored name bids sealed.
pub open spec fn is_open(auction_type: Seq<char>) -> bool {
    auction_type == "open"@
}

/// The reason the common fields of an auction draft are refused, checked in
/// this order; `None` when they are acceptable.
pub open spec fn draft_rejection(
    sku_id: Seq<char>,
    auction_type: Seq<char>,
    title: Seq<char>,
    start_at: Option<i64>,
    end_at: Option<i64>,
) -> Option<Seq<char>> {
    if sku_id.len() == 0 {
        Some("sku_id is required"@)
    } else if auction_type != "open"@ && auction_type != "sealed"@ {
        Some("auction_type is invalid"@)
    } else if trim_seq(title).len() == 0 {
        Some("title is required"@)
    } else if start_at is None {
        Some("start_at is required"@)
    } else if end_at is None {
        Some("end_at is required"@)
    } else if end_at->0 <= start_at->0 {
        Some("end_at must be after start_at"@)
    } else {
        None
    }
}

/// Checks the common fields of a new or edited auction; `start_at` and
/// `end_at` are `None` when missing or not a valid instant. Gives the
/// window on success.
pub fn validate_auction_draft(
    sku_id: &str,
    auction_type: &str,
    title: &str,
    start_at: Option<i64>,
    end_at: Option<i64>,
) -> (r: Result<(i64, i64), RpcError>)
    ensures
        match draft_rejection(sku_id@, auction_type@, title@, start_at, end_at) {
            None => r == Ok::<(i64, i64), RpcError>((start_at->0, end_at->0)),
            Some(m) => r is Err && r->Err_0.status == STATUS_BAD_REQUEST && r->Err_0.error.code
                == ErrorCode::InvalidArgument && r->Err_0.error.message@ == m,
        },
{
    if sku_id.is_empty() {
        return Err(RpcError::invalid_argument("sku_id is required"));
    }
    if !str_eq(auction_type, "open") && !str_eq(auction_type, "sealed") {
        return Err(RpcError::invalid_argument("auction_type is invalid"));
    }
    if is_blank(title) {
        return Err(RpcError::invalid_argument("title is required"));
    }
    let start = match start_at {
        Some(s) => s,
        None => {
            return Err(RpcError::invalid_argument("start_at is required"));
        },
    };
    let end = match end_at {
        Some(e) => e,
        None => {
            return Err(RpcError::invalid_argument("end_at is required"));
        },
    };
    if end <= start {
        return Err(RpcError::invalid_argument("end_at must be after start_at"));
    }
    Ok((start, end))
}

/// An auction needs a bid increment.
pub fn require_bid_increment(increment: Option<Money>) -> (r: Result<Money, RpcError>)
    ensures
        match increment {
            Some(m) => r == Ok::<Money, RpcError>(m),
            None => r is Err && r->Err_0.status == STATUS_BAD_REQUEST && r->Err_0.error.code
                == ErrorCode::InvalidArgument && r->Err_0.error.message@
                == "bid_increment is required"@,
        },
{
    match increment {
        Some(m) => Ok(m),
        None => Err(RpcError::invalid_argument("bid_increment is required")),
    }
}

/// The state a new auction starts in: a draft when asked for, else
/// scheduled while its start lies ahead, else running.
pub open spec fn create_status_spec(requested: Seq<char>, start_at: i64, now: i64) -> AuctionStatus {
    if requested == "draft"@ {
        AuctionStatus::Draft
    } else if start_at > now {
        AuctionStatus::Scheduled
    } else {
        AuctionStatus::Running
    }
}

/// The state a new auction starts in.
pub fn create_status(requested: &str, start_at: i64, now: i64) -> (r: AuctionStatus)
    ensures
        r == create_status_spec(requested@, start_at, now),
        r == AuctionStatus::Running ==> start_at <= now,
        r == AuctionStatus::Scheduled ==> start_at > now,
{
    if str_eq(requested, "draft") {
        AuctionStatus::Draft
    } else if start_at > now {
        AuctionStatus::Scheduled
    } else {
        AuctionStatus::Running
    }
}

/// The state an edited draft moves to: blank or `draft` keeps it a draft;
/// `scheduled` schedules it, or starts it when its start has passed.
pub open spec fn update_status_spec(requested: Seq<char>, start_at: i64, now: i64) -> Option<
    AuctionStatus,
> {
    let t = trim_seq(requested);
    if t.len() == 0 || t == "draft"@ {
        Some(AuctionStatus::Draft)
    } else if t == "scheduled"@ {
        if start_at > now {
            Some(AuctionStatus::Scheduled)
        } else {
            Some(AuctionStatus::Running)
        }
    } else {
        None
    }
}

/// The state an edited draft moves to; any other request is refused.
pub fn update_status(requested: &str, start_at: i64, now: i64) -> (r: Result<
    AuctionStatus,
    RpcError,
>)
    ensures
        match update_status_spec(requested@, start_at, now) {
            Some(s) => r == Ok::<AuctionStatus, RpcError>(s),
            None => r is Err && r->Err_0.status == STATUS_BAD_REQUEST && r->Err_0.error.code
                == ErrorCode::InvalidArgument && r->Err_0.error.message@ == "status is invalid"@,
        },
        r == Ok::<AuctionStatus, RpcError>(AuctionStatus::Running) ==> start_at <= now,
        r == Ok::<AuctionStatus, RpcError>(AuctionStatus::Scheduled) ==> start_at > now,
        trim_seq(requested@) == "scheduled"@ && start_at > now ==> r == Ok::<AuctionStatus, RpcError>(
            AuctionStatus::Scheduled,
        ),
        trim_seq(requested@) == "scheduled"@ && start_at <= now ==> r == Ok::<AuctionStatus, RpcError>(
            AuctionStatus::Running,
        ),
{
    proof {
        lemma_running_only_after_start(requested@, start_at, now);
    }
    let t = trim(requested);
    if t.as_str().is_empty() || str_eq(t.as_str(), "draft") {
        Ok(AuctionStatus::Draft)
    } else if str_eq(t.as_str(), "scheduled") {
        if start_at > now {
            Ok(AuctionStatus::Scheduled)
        } else {
            Ok(AuctionStatus::Running)
        }
    } else {
        Err(RpcError::invalid_argument("status is invalid"))
    }
}

/// Only drafts can be edited.
pub fn check_editable(current_status: &str) -> (r: Result<(), RpcError>)
    ensures
        r is Ok <==> current_status@ == "draft"@,
        r matches Err(e) ==> e.status == STATUS_BAD_REQUEST && e.error.code
            == ErrorCode::InvalidArgument && e.error.message@ == "only draft auctions can be edited"@,
{
    if str_eq(current_status, "draft") {
        Ok(())
    } else {
        Err(RpcError::invalid_argument("only draft auctions can be edited"))
    }
}

/// The price an auction shows when it is created or edited: an open
/// auction shows its start price, a sealed one nothing.
pub fn opening_price(auction_type: &str, start_price: &Money) -> (r: Option<Money>)
    ensures
        is_open(auction_type@) ==> r == Some(*start_price),
        !is_open(auction_type@) ==> r is None,
{
    if str_eq(auction_type, "open") {
        Some(Money { amount: start_price.amount, currency: start_price.currency.clone() })
    } else {
        None
    }
}

/// What a bid reads of an auction and what it changes.
#[derive(Debug, Clone, PartialEq, Eq)]
pub struct AuctionSnapshot {
    pub auction_type: String,
    pub status: String,
    pub start_at: i64,
    pub end_at: i64,
    pub start_price: i64,
    pub start_currency: String,
    pub increment: i64,
    pub buyout_price: Option<i64>,
    pub buyout_currency: Option<String>,
    pub current_bid_id: Option<String>,
    pub current_price: Option<i64>,
    pub winning_bid_id: Option<String>,
    pub winning_price: Option<i64>,
}

/// The lowest bid an auction takes: in an open auction the current price
/// plus the increment (the start price before any bid); in a sealed one the
/// start price.
pub open spec fn min_bid_spec(a: AuctionSnapshot) -> int {
    if is_open(a.auction_type@) {
        match a.current_price {
            Some(c) => c + a.increment,
            None => a.start_price as int,
        }
    } else {
        a.start_price as int
    }
}

/// The reason a bid of `amount` in `currency` at `now` is refused, checked
/// in this order.
pub open spec fn bid_rejection(a: AuctionSnapshot, amount: i64, currency: Seq<char>, now: i64) -> Option<
    Seq<char>,
> {
    if now < a.start_at {
        Some("auction has not started"@)
    } else if now >= a.end_at {
        Some("auction has already ended"@)
    } else if a.status@ != "running"@ && a.status@ != "scheduled"@ {
        Some("auction is not running"@)
    } else if a.start_currency@ != currency {
        Some("currency mismatch"@)
    } else if amount < min_bid_spec(a) {
        Some("bid amount is too low"@)
    } else {
        None
    }
}

/// The amount reaches a buyout set in the same currency.
pub open spec fn hits_buyout(buyout: Option<i64>, buyout_currency: Option<String>, amount: i64, currency: Seq<char>) -> bool {
    &&& buyout is Some
    &&& buyout_currency is Some
    &&& buyout_currency->0@ == currency
    &&& amount >= buyout->0
}

/// The auction after an accepted bid `bid_id` of `amount` at `now`, but
/// for its state name, which `status_after_bid` gives.
pub open spec fn after_bid_spec(a: AuctionSnapshot, bid_id: String, amount: i64, currency: Seq<char>, now: i64) -> AuctionSnapshot {
    let open = is_open(a.auction_type@);
    let takes_lead = match a.winning_price {
        Some(w) => amount > w,
        None => true,
    };
    AuctionSnapshot {
        current_bid_id: if open {
            Some(bid_id)
        } else {
            a.current_bid_id
        },
        current_price: if open {
            Some(amount)
        } else {
            a.current_price
        },
        winning_bid_id: if open || takes_lead {
            Some(bid_id)
        } else {
            a.winning_bid_id
        },
        winning_price: if open || takes_lead {
            Some(amount)
        } else {
            a.winning_price
        },
        ..a
    }
}

/// The state name after an accepted bid: awaiting approval when the bid
/// reaches the buyout, except that a scheduled auction whose start has come
/// is running.
pub open spec fn status_after_bid(a: AuctionSnapshot, amount: i64, currency: Seq<char>, now: i64) -> Seq<char> {
    if a.status@ == "scheduled"@ && now >= a.start_at {
        "running"@
    } else if hits_buyout(a.buyout_price, a.buyout_currency, amount, currency) {
        "awaiting_approval"@
    } else {
        a.status@
    }
}

/// The auction state after an accepted bid, field by field.
pub open spec fn bid_applied(a: AuctionSnapshot, r: AuctionSnapshot, bid_id: String, amount: i64, currency: Seq<char>, now: i64) -> bool {
    let e = after_bid_spec(a, bid_id, amount, currency, now);
    &&& r.status@ == status_after_bid(a, amount, currency, now)
    &&& r.auction_type == e.auction_type
    &&& r.start_at == e.start_at
    &&& r.end_at == e.end_at
    &&& r.start_price == e.start_price
    &&& r.start_currency == e.start_currency
    &&& r.increment == e.increment
    &&& r.buyout_price == e.buyout_price
    &&& r.buyout_currency == e.buyout_currency
    &&& r.current_bid_id == e.current_bid_id
    &&& r.current_price == e.current_price
    &&& r.winning_bid_id == e.winning_bid_id
    &&& r.winning_price == e.winning_price
}

fn clone_opt_string(s: &Option<String>) -> (r: Option<String>)
    ensures
        r == *s,
{
    match s {
        Some(v) => Some(v.clone()),
        None => None,
    }
}

fn owned(s: &str) -> (r: String)
    ensures
        r@ == s@,
{
    s.to_owned()
}

/// Takes a bid of `amount` in `currency` at `now`, as bid `bid_id`: refuses
/// it (400 `invalid_argument`) or gives the auction after it.
pub fn place_bid(a: &AuctionSnapshot, bid_id: String, amount: i64, currency: &str, now: i64) -> (r:
    Result<AuctionSnapshot, RpcError>)
    requires
        is_open(a.auction_type@) && a.current_price is Some ==> i64::MIN <= a.current_price->0
            + a.increment <= i64::MAX,
    ensures
        match bid_rejection(*a, amount, currency@, now) {
            Some(m) => r is Err && r->Err_0.status == STATUS_BAD_REQUEST && r->Err_0.error.code
                == ErrorCode::InvalidArgument && r->Err_0.error.message@ == m,
            None => r is Ok && bid_applied(*a, r->Ok_0, bid_id, amount, currency@, now),
        },
        r is Ok ==> a.start_at <= now && now < a.end_at && a.start_currency@ == currency@,
        now < a.start_at ==> r is Err && r->Err_0.error.message@ == "auction has not started"@,
{
    if now < a.start_at {
        return Err(RpcError::invalid_argument("auction has not started"));
    }
    if now >= a.end_at {
        return Err(RpcError::invalid_argument("auction has already ended"));
    }
    if !str_eq(a.status.as_str(), "running") && !str_eq(a.status.as_str(), "scheduled") {
        return Err(RpcError::invalid_argument("auction is not running"));
    }
    if !str_eq(a.start_currency.as_str(), currency) {
        return Err(RpcError::invalid_argument("currency mismatch"));
    }
    let open = str_eq(a.auction_type.as_str(), "open");
    if open {
        let min_amount = match a.current_price {
            Some(current) => current + a.increment,
            None => a.start_price,
        };
        if amount < min_amount {
            return Err(RpcError::invalid_argument("bid amount is too low"));
        }
    } else if amount < a.start_price {
        return Err(RpcError::invalid_argument("bid amount is too low"));
    }
    let mut current_bid_id = clone_opt_string(&a.current_bid_id);
    let mut current_price = a.current_price;
    let mut winning_bid_id = clone_opt_string(&a.winning_bid_id);
    let mut winning_price = a.winning_price;
    let takes_lead = match a.winning_price {
        Some(w) => amount > w,
        None => true,
    };
    if open {
        current_bid_id = Some(bid_id.clone());
        current_price = Some(amount);
        winning_bid_id = Some(bid_id);
        winning_price = Some(amount);
    } else if takes_lead {
        winning_price = Some(amount);
        winning_bid_id = Some(bid_id);
    }
    let mut next_status = a.status.clone();
    if let (Some(buyout), Some(cur)) = (a.buyout_price, &a.buyout_currency) {
        if str_eq(cur.as_str(), currency) && amount >= buyout {
            next_status = owned("awaiting_approval");
        }
    }
    if str_eq(a.status.as_str(), "scheduled") && now >= a.start_at {
        next_status = owned("running");
    }
    Ok(AuctionSnapshot {
        auction_type: a.auction_type.clone(),
        status: next_status,
        start_at: a.start_at,
        end_at: a.end_at,
        start_price: a.start_price,
        start_currency: a.start_currency.clone(),
        increment: a.increment,
        buyout_price: a.buyout_price,
        buyout_currency: clone_opt_string(&a.buyout_currency),
        current_bid_id,
        current_price,
        winning_bid_id,
        winning_price,
    })
}

/// In an open auction with a positive increment, every accepted bid raises
/// the current price, and the next bid must exceed the accepted one.
pub proof fn lemma_open_bids_increase(
    a: AuctionSnapshot,
    r: AuctionSnapshot,
    bid_id: String,
    amount: i64,
    currency: Seq<char>,
    now: i64,
)
    requires
        is_open(a.auction_type@),
        a.increment > 0,
        bid_rejection(a, amount, currency, now) is None,
        bid_applied(a, r, bid_id, amount, currency, now),
    ensures
        r.current_price == Some(amount),
        a.current_price matches Some(c) ==> amount > c,
        min_bid_spec(r) == amount + a.increment,
        r.winning_price == r.current_price,
{
}

/// In a sealed auction the winning price never goes down, and it is always
/// the highest accepted bid so far.
pub proof fn lemma_sealed_winner_never_drops(
    a: AuctionSnapshot,
    r: AuctionSnapshot,
    bid_id: String,
    amount: i64,
    currency: Seq<char>,
    now: i64,
)
    requires
        !is_open(a.auction_type@),
        bid_rejection(a, amount, currency, now) is None,
        bid_applied(a, r, bid_id, amount, currency, now),
    ensures
        r.winning_price is Some,
        a.winning_price matches Some(w) ==> r.winning_price->0 >= w,
        r.winning_price->0 >= amount,
        r.current_price == a.current_price,
{
}

/// A bid that reaches the buyout on a running auction stops it for approval.
pub proof fn lemma_buyout_awaits_approval(
    a: AuctionSnapshot,
    r: AuctionSnapshot,
    bid_id: String,
    amount: i64,
    currency: Seq<char>,
    now: i64,
)
    requires
        a.status@ == "running"@,
        hits_buyout(a.buyout_price, a.buyout_currency, amount, currency),
        bid_rejection(a, amount, currency, now) is None,
        bid_applied(a, r, bid_id, amount, currency, now),
    ensures
        r.status@ == "awaiting_approval"@,
{
    reveal_strlit("running");
    reveal_strlit("scheduled");
}

/// A bidder must be named and be an active customer of the store.
pub fn check_bidder(customer_id: &str, eligible: bool) -> (r: Result<(), RpcError>)
    ensures
        r is Ok <==> trim_seq(customer_id@).len() > 0 && eligible,
        r matches Err(e) ==> e.status == STATUS_FORBIDDEN && e.error.code
            == ErrorCode::PermissionDenied && e.error.message@ == if trim_seq(customer_id@).len()
            == 0 {
            "customer_id is required"@
        } else {
            "customer is not eligible to bid"@
        },
{
    if is_blank(customer_id) {
        return Err(RpcError::permission_denied("customer_id is required"));
    }
    if !eligible {
        return Err(RpcError::permission_denied("customer is not eligible to bid"));
    }
    Ok(())
}

/// The ceiling and currency stored for a customer's automatic bidding:
/// when enabled, `max_amount` must be in the start currency and at least
/// the start price; when disabled the ceiling is 0.
pub fn auto_bid_ceiling(
    auction_type: &str,
    enabled: bool,
    max_amount: &Money,
    start_price: i64,
    start_currency: &str,
) -> (r: Result<(i64, String), RpcError>)
    ensures
        !is_open(auction_type@) ==> r is Err && r->Err_0.error.message@
            == "auto bid is only available for open auctions"@,
        is_open(auction_type@) && enabled && max_amount.currency@ != start_currency@ ==> r is Err
            && r->Err_0.error.message@ == "currency mismatch"@,
        is_open(auction_type@) && enabled && max_amount.currency@ == start_currency@
            && max_amount.amount < start_price ==> r is Err && r->Err_0.error.message@
            == "max_amount must be >= start_price"@,
        is_open(auction_type@) && enabled && max_amount.currency@ == start_currency@
            && max_amount.amount >= start_price ==> r is Ok && r->Ok_0.0 == max_amount.amount
            && r->Ok_0.1@ == max_amount.currency@,
        is_open(auction_type@) && !enabled ==> r is Ok && r->Ok_0.0 == 0 && r->Ok_0.1@
            == start_currency@,
        r matches Err(e) ==> e.status == STATUS_BAD_REQUEST && e.error.code
            == ErrorCode::InvalidArgument,
{
    if !str_eq(auction_type, "open") {
        return Err(RpcError::invalid_argument("auto bid is only available for open auctions"));
    }
    if enabled {
        if !str_eq(max_amount.currency.as_str(), start_currency) {
            return Err(RpcError::invalid_argument("currency mismatch"));
        }
        if max_amount.amount < start_price {
            return Err(RpcError::invalid_argument("max_amount must be >= start_price"));
        }
        Ok((max_amount.amount, max_amount.currency.clone()))
    } else {
        Ok((0, owned(start_currency)))
    }
}

/// The stored state of a customer's automatic bidding.
pub fn auto_bid_status_name(enabled: bool) -> (r: &'static str)
    ensures
        r@ == if enabled {
            "active"@
        } else {
            "disabled"@
        },
{
    if enabled {
        "active"
    } else {
        "disabled"
    }
}

/// An active automatic bidder: who, and up to how much.
#[derive(Debug, Clone, PartialEq, Eq)]
pub struct AutoBidder {
    pub customer_id: String,
    pub max_amount: i64,
}

/// The amount automatic bidding bids for the strongest bidder `top`, given
/// the runner-up's ceiling `second`; `None` when it does not bid.
pub open spec fn auto_bid_target_spec(
    a: AuctionSnapshot,
    current_bidder: Option<Seq<char>>,
    top: AutoBidder,
    second: Option<i64>,
) -> Option<int> {
    if !is_open(a.auction_type@) || a.status@ != "running"@ {
        None
    } else if top.max_amount < a.start_price {
        None
    } else {
        let has_current = a.current_bid_id is Some;
        let current = match a.current_price {
            Some(c) => c as int,
            None => 0,
        };
        let min_next = if has_current {
            current + a.increment
        } else {
            a.start_price as int
        };
        let raw = match second {
            Some(s) => if top.max_amount <= s + a.increment {
                top.max_amount as int
            } else {
                s + a.increment
            },
            None => if top.max_amount <= min_next {
                top.max_amount as int
            } else {
                min_next
            },
        };
        let target = if raw < a.start_price {
            a.start_price as int
        } else {
            raw
        };
        let compare = if has_current {
            current
        } else {
            0
        };
        if target <= compare {
            None
        } else if current_bidder == Some(top.customer_id@) && current >= target {
            None
        } else {
            Some(target)
        }
    }
}

/// The amount automatic bidding places for the strongest active bidder
/// `top` (the runner-up's ceiling is `second`); `current_bidder` is the
/// customer of the current bid. `None` when nothing is bid.
pub fn auto_bid_target(
    a: &AuctionSnapshot,
    current_bidder: Option<&str>,
    top: &AutoBidder,
    second: Option<i64>,
) -> (r: Option<i64>)
    requires
        a.current_bid_id is Some ==> i64::MIN <= (match a.current_price {
            Some(c) => c as int,
            None => 0,
        }) + a.increment <= i64::MAX,
        second matches Some(s) ==> i64::MIN <= s + a.increment <= i64::MAX,
    ensures
        match auto_bid_target_spec(
            *a,
            match current_bidder {
                Some(c) => Some(c@),
                None => None,
            },
            *top,
            second,
        ) {
            Some(t) => r == Some(t as i64),
            None => r is None,
        },
        r matches Some(t) ==> a.start_price <= t <= top.max_amount,
        r matches Some(t) ==> (a.current_bid_id is Some ==> t > (match a.current_price {
            Some(c) => c as int,
            None => 0,
        })),
        r matches Some(t) ==> (a.current_bid_id is Some && second is None ==> t == max_int(
            a.start_price as int,
            min_int(
                top.max_amount as int,
                (match a.current_price {
                    Some(c) => c as int,
                    None => 0,
                }) + a.increment,
            ),
        )),
        r matches Some(t) ==> (second matches Some(s) ==> t == max_int(
            a.start_price as int,
            min_int(top.max_amount as int, s + a.increment),
        )),
        r matches Some(t) ==> (a.current_bid_id is None && second is None ==> t == a.start_price),
{
    if !str_eq(a.auction_type.as_str(), "open") || !str_eq(a.status.as_str(), "running") {
        return None;
    }
    if top.max_amount < a.start_price {
        return None;
    }
    let has_current = a.current_bid_id.is_some();
    let current: i64 = match a.current_price {
        Some(c) => c,
        None => 0,
    };
    let min_next: i64 = if has_current {
        current + a.increment
    } else {
        a.start_price
    };
    let raw: i64 = match second {
        Some(s) => {
            let cap = s + a.increment;
            if top.max_amount <= cap {
                top.max_amount
            } else {
                cap
            }
        },
        None => if top.max_amount <= min_next {
            top.max_amount
        } else {
            min_next
        },
    };
    let target = if raw < a.start_price {
        a.start_price
    } else {
        raw
    };
    let compare = if has_current {
        current
    } else {
        0
    };
    if target <= compare {
        return None;
    }
    if let Some(c) = current_bidder {
        if str_eq(c, top.customer_id.as_str()) && current >= target {
            return None;
        }
    }
    Some(target)
}

/// The smaller of two integers.
pub open spec fn min_int(x: int, y: int) -> int {
    if x <= y {
        x
    } else {
        y
    }
}

/// The larger of two integers.
pub open spec fn max_int(x: int, y: int) -> int {
    if x >= y {
        x
    } else {
        y
    }
}

/// Automatic bidding bids as little as it must: with a current bid and no
/// runner-up it bids one increment above the current price, capped by the
/// bidder's ceiling (and never below the start price); with a runner-up it
/// bids one increment above the runner-up's ceiling, capped the same way;
/// with no bid yet and no runner-up it bids the start price. It never bids
/// more than one increment above the current price when that reaches the
/// start price.
pub proof fn lemma_auto_bid_is_minimal(
    a: AuctionSnapshot,
    current_bidder: Option<Seq<char>>,
    top: AutoBidder,
    second: Option<i64>,
)
    requires
        auto_bid_target_spec(a, current_bidder, top, second) is Some,
    ensures
        ({
            let t = auto_bid_target_spec(a, current_bidder, top, second)->0;
            let current = match a.current_price {
                Some(c) => c as int,
                None => 0,
            };
            &&& a.start_price <= t <= top.max_amount
            &&& a.current_bid_id is Some ==> t > current
            &&& a.current_bid_id is Some && second is None ==> t == max_int(
                a.start_price as int,
                min_int(top.max_amount as int, current + a.increment),
            )
            &&& a.current_bid_id is Some && second is None && a.start_price <= current + a.increment
                ==> t <= current + a.increment
            &&& second matches Some(s) ==> t == max_int(
                a.start_price as int,
                min_int(top.max_amount as int, s + a.increment),
            )
            &&& a.current_bid_id is None && second is None ==> t == a.start_price
        }),
{
}

/// A bid is only ever accepted inside the auction's window, on a running or
/// scheduled auction, in its currency, and at no less than the start price
/// (in an open auction that has a current price, no less than that price
/// plus the increment instead); a bid before
/// the start is refused as "auction has not started" and one at or after
/// the end as "auction has already ended".
pub proof fn lemma_bids_only_in_window(a: AuctionSnapshot, amount: i64, currency: Seq<char>, now: i64)
    ensures
        bid_rejection(a, amount, currency, now) is None ==> {
            &&& a.start_at <= now < a.end_at
            &&& a.start_currency@ == currency
            &&& (a.status@ == "running"@ || a.status@ == "scheduled"@)
            &&& !(is_open(a.auction_type@) && a.current_price is Some) ==> amount >= a.start_price
            &&& is_open(a.auction_type@) ==> (a.current_price matches Some(c) ==> amount >= c
                + a.increment)
        },
        now < a.start_at ==> bid_rejection(a, amount, currency, now) == Some(
            "auction has not started"@,
        ),
        a.start_at <= now && now >= a.end_at ==> bid_rejection(a, amount, currency, now) == Some(
            "auction has already ended"@,
        ),
{
}

/// An auction runs only once its start has passed: a new or edited auction
/// is running only when its start is not ahead, and scheduled only when it
/// is; an edit asking for `scheduled` schedules it while the start lies
/// ahead and runs it once the start has come.
pub proof fn lemma_running_only_after_start(requested: Seq<char>, start_at: i64, now: i64)
    ensures
        update_status_spec(requested, start_at, now) == Some(AuctionStatus::Running) ==> start_at
            <= now,
        update_status_spec(requested, start_at, now) == Some(AuctionStatus::Scheduled) ==> start_at
            > now,
        trim_seq(requested) == "scheduled"@ ==> update_status_spec(requested, start_at, now) == Some(
            if start_at > now {
                AuctionStatus::Scheduled
            } else {
                AuctionStatus::Running
            },
        ),
        create_status_spec(requested, start_at, now) == AuctionStatus::Running ==> start_at <= now,
        create_status_spec(requested, start_at, now) == AuctionStatus::Scheduled ==> start_at > now,
{
    reveal_strlit("scheduled");
    reveal_strlit("draft");
    if trim_seq(requested) == "scheduled"@ {
        assert(trim_seq(requested).len() != 0);
        assert(trim_seq(requested) != "draft"@) by {
            assert("scheduled"@.len() != "draft"@.len());
        }
    }
}

/// Automatic bidding never bids above the strongest bidder's ceiling nor
/// below the start price, and always beats the current price.
pub proof fn lemma_auto_bid_bounds(
    a: AuctionSnapshot,
    current_bidder: Option<Seq<char>>,
    top: AutoBidder,
    second: Option<i64>,
)
    requires
        auto_bid_target_spec(a, current_bidder, top, second) is Some,
        a.current_bid_id is Some ==> a.current_price is Some,
    ensures
        ({
            let t = auto_bid_target_spec(a, current_bidder, top, second)->0;
            &&& a.start_price <= t <= top.max_amount
            &&& a.current_bid_id is Some ==> t > a.current_price->0
        }),
{
}

/// The auction after automatic bidding placed bid `bid_id` of `amount` (in
/// the start currency): it leads and wins, and it stops for approval when
/// the amount reaches the buyout.
pub fn apply_auto_bid(a: &AuctionSnapshot, bid_id: String, amount: i64) -> (r: AuctionSnapshot)
    ensures
        r.current_bid_id == Some(bid_id),
        r.current_price == Some(amount),
        r.winning_bid_id == Some(bid_id),
        r.winning_price == Some(amount),
        r.status@ == if hits_buyout(a.buyout_price, a.buyout_currency, amount, a.start_currency@) {
            "awaiting_approval"@
        } else {
            a.status@
        },
        r.auction_type == a.auction_type,
        r.start_at == a.start_at,
        r.end_at == a.end_at,
        r.start_price == a.start_price,
        r.start_currency == a.start_currency,
        r.increment == a.increment,
        r.buyout_price == a.buyout_price,
        r.buyout_currency == a.buyout_currency,
{
    let mut next_status = a.status.clone();
    if let (Some(buyout), Some(cur)) = (a.buyout_price, &a.buyout_currency) {
        if str_eq(cur.as_str(), a.start_currency.as_str()) && amount >= buyout {
            next_status = owned("awaiting_approval");
        }
    }
    AuctionSnapshot {
        auction_type: a.auction_type.clone(),
        status: next_status,
        start_at: a.start_at,
        end_at: a.end_at,
        start_price: a.start_price,
        start_currency: a.start_currency.clone(),
        increment: a.increment,
        buyout_price: a.buyout_price,
        buyout_currency: clone_opt_string(&a.buyout_currency),
        current_bid_id: Some(bid_id.clone()),
        current_price: Some(amount),
        winning_bid_id: Some(bid_id),
        winning_price: Some(amount),
    }
}

/// A placed bid, as settling an auction reads it.
#[derive(Debug, Clone, PartialEq, Eq)]
pub struct PlacedBid {
    pub id: String,
    pub amount: i64,
    pub currency: String,
    pub created_at: i64,
}

/// Bid `i` ranks before bid `j`: a higher amount, or the same amount placed
/// earlier.
pub open spec fn ranks_before(x: PlacedBid, y: PlacedBid) -> bool {
    x.amount > y.amount || (x.amount == y.amount && x.created_at < y.created_at)
}

/// The best bid: the highest amount, the earliest among equal amounts (the
/// first listed among bids placed at the same instant).
pub fn best_bid(bids: &Vec<PlacedBid>) -> (r: Option<usize>)
    ensures
        r is None <==> bids@.len() == 0,
        r matches Some(i) ==> i < bids@.len() && forall|j: int|
            0 <= j < bids@.len() ==> !ranks_before(#[trigger] bids@[j], bids@[i as int]),
{
    if bids.len() == 0 {
        return None;
    }
    let mut best: usize = 0;
    let mut k: usize = 1;
    while k < bids.len()
        invariant
            1 <= k <= bids.len(),
            best < k,
            forall|j: int| 0 <= j < k ==> !ranks_before(#[trigger] bids@[j], bids@[best as int]),
        decreases bids.len() - k,
    {
        let b = &bids[k];
        let cur = &bids[best];
        if b.amount > cur.amount || (b.amount == cur.amount && b.created_at < cur.created_at) {
            best = k;
        }
        k = k + 1;
    }
    Some(best)
}

/// How a closed auction ends: awaiting approval when its best bid meets the
/// reserve (in the reserve's currency) or there is no reserve; else ended.
pub open spec fn close_status_spec(
    best: Option<(i64, Seq<char>)>,
    reserve_amount: Option<i64>,
    reserve_currency: Option<Seq<char>>,
) -> AuctionStatus {
    match best {
        Some((amount, currency)) => if reserve_amount is None || (reserve_currency == Some(
            currency,
        ) && reserve_amount->0 <= amount) {
            AuctionStatus::AwaitingApproval
        } else {
            AuctionStatus::Ended
        },
        None => AuctionStatus::Ended,
    }
}

/// How a closed auction ends, from its best bid and its reserve.
pub fn close_status(
    best: Option<&PlacedBid>,
    reserve_amount: Option<i64>,
    reserve_currency: Option<&str>,
) -> (r: AuctionStatus)
    ensures
        r == close_status_spec(
            match best {
                Some(b) => Some((b.amount, b.currency@)),
                None => None,
            },
            reserve_amount,
            match reserve_currency {
                Some(c) => Some(c@),
                None => None,
            },
        ),
{
    match best {
        Some(b) => {
            let meets = match reserve_amount {
                None => true,
                Some(reserve) => match reserve_currency {
                    Some(c) => str_eq(c, b.currency.as_str()) && reserve <= b.amount,
                    None => false,
                },
            };
            if meets {
                AuctionStatus::AwaitingApproval
            } else {
                AuctionStatus::Ended
            }
        },
        None => AuctionStatus::Ended,
    }
}

/// Only an auction awaiting approval can be approved.
pub fn check_awaiting_approval(status: &str) -> (r: Result<(), RpcError>)
    ensures
        r is Ok <==> status@ == "awaiting_approval"@,
        r matches Err(e) ==> e.status == STATUS_BAD_REQUEST && e.error.code
            == ErrorCode::InvalidArgument && e.error.message@ == "auction is not awaiting approval"@,
{
    if str_eq(status, "awaiting_approval") {
        Ok(())
    } else {
        Err(RpcError::invalid_argument("auction is not awaiting approval"))
    }
}

/// The approver recorded for an approval: the actor's id when it has one.
pub fn approver_id(actor: Option<&ActorContext>) -> (r: Option<String>)
    ensures
        match actor {
            Some(a) => if a.actor_id@.len() == 0 {
                r is None
            } else {
                r is Some && r->0@ == a.actor_id@
            },
            None => r is None,
        },
{
    match actor {
        Some(a) => if a.actor_id.as_str().is_empty() {
            None
        } else {
            Some(a.actor_id.clone())
        },
        None => None,
    }
}

} // verus!
