//! Carts and checkout: item rules, cart totals, what a quantity change asks
//! of inventory, and the checks that turn a cart into an order.
use vstd::prelude::*;
use crate::auction::Money;
use crate::errors::CartError;
use crate::numbers::{parse_i64, parse_i64_spec};
use crate::text::{opt_view, str_eq, to_owned};

verus! {

/// `x` clamped into the range of `i64`: what saturating arithmetic gives.
pub open spec fn clamp_i64(x: int) -> i64 {
    if x > i64::MAX {
        i64::MAX
    } else if x < i64::MIN {
        i64::MIN
    } else {
        x as i64
    }
}

/// `a * b`, saturating at the bounds of `i64` (`i64::saturating_mul`).
pub fn saturating_mul(a: i64, b: i64) -> (r: i64)
    ensures
        r == clamp_i64(a * b),
{
    match a.checked_mul(b) {
        Some(v) => v,
        None => {
            proof {
                if a * b <= i64::MAX && a * b >= i64::MIN {
                    assert(false);
                }
            }
            if (a < 0) == (b < 0) {
                assert(a * b >= 0) by (nonlinear_arith)
                    requires
                        (a < 0) == (b < 0),
                ;
                i64::MAX
            } else {
                assert(a * b <= 0) by (nonlinear_arith)
                    requires
                        (a < 0) != (b < 0),
                ;
                i64::MIN
            }
        },
    }
}

/// `a + b`, saturating at the bounds of `i64` (`i64::saturating_add`).
pub fn saturating_add(a: i64, b: i64) -> (r: i64)
    ensures
        r == clamp_i64(a + b),
{
    match a.checked_add(b) {
        Some(v) => v,
        None => if b > 0 {
            i64::MAX
        } else {
            i64::MIN
        },
    }
}

/// A cart needs a positive quantity.
pub fn validate_quantity(quantity: i32) -> (r: Result<(), CartError>)
    ensures
        r is Ok <==> quantity > 0,
        r matches Err(e) ==> e == CartError::InvalidArgument(e.payload()) && e.payload()@
            == "quantity must be greater than 0"@,
{
    if quantity <= 0 {
        Err(CartError::invalid_argument("quantity must be greater than 0"))
    } else {
        Ok(())
    }
}

/// The item is shipped from stock.
pub open spec fn is_physical(fulfillment_type: Seq<char>) -> bool {
    fulfillment_type == "physical"@
}

/// A physical item needs the location it is shipped from.
pub fn check_location(fulfillment_type: &str, location_id: &str) -> (r: Result<(), CartError>)
    ensures
        r is Ok <==> !(is_physical(fulfillment_type@) && location_id@.len() == 0),
        r matches Err(e) ==> e == CartError::InvalidArgument(e.payload()) && e.payload()@
            == "location_id is required for physical SKU"@,
{
    if str_eq(fulfillment_type, "physical") && location_id.is_empty() {
        Err(CartError::invalid_argument("location_id is required for physical SKU"))
    } else {
        Ok(())
    }
}

/// The total shown right after an item is added: the unit price times the
/// quantity, saturating.
pub fn added_item_total(unit_price: i64, quantity: i32) -> (r: i64)
    ensures
        r == clamp_i64(unit_price * quantity),
{
    saturating_mul(unit_price, quantity as i64)
}

/// One priced line of a cart.
#[derive(Debug, Clone, PartialEq, Eq)]
pub struct CartLine {
    pub unit_price: i64,
    pub currency: String,
    pub quantity: i32,
}

/// The running total of lines, each line's price times quantity added with
/// saturation.
pub open spec fn lines_total(lines: Seq<CartLine>) -> i64
    decreases lines.len(),
{
    if lines.len() == 0 {
        0
    } else {
        clamp_i64(
            lines_total(lines.drop_last()) + lines.last().unit_price * lines.last().quantity,
        )
    }
}

/// Every line's price times quantity fits in `i64`.
pub open spec fn line_products_fit(lines: Seq<CartLine>) -> bool {
    forall|k: int|
        0 <= k < lines.len() ==> i64::MIN <= (#[trigger] lines[k]).unit_price * lines[k].quantity
            <= i64::MAX
}

/// All lines are in the first line's currency.
pub open spec fn single_currency(lines: Seq<CartLine>) -> bool {
    forall|k: int| 0 <= k < lines.len() ==> (#[trigger] lines[k]).currency@ == lines[0].currency@
}

fn line_product(line: &CartLine) -> (r: i64)
    requires
        i64::MIN <= line.unit_price * line.quantity <= i64::MAX,
    ensures
        r == line.unit_price * line.quantity,
{
    let q: i64 = line.quantity as i64;
    line.unit_price * q
}

/// The running total of the lines.
pub fn sum_lines(lines: &Vec<CartLine>) -> (r: i64)
    requires
        line_products_fit(lines@),
    ensures
        r == lines_total(lines@),
{
    let mut total: i64 = 0;
    let mut k: usize = 0;
    while k < lines.len()
        invariant
            k <= lines.len(),
            line_products_fit(lines@),
            total == lines_total(lines@.take(k as int)),
        decreases lines.len() - k,
    {
        assert(lines@.take(k + 1).drop_last() =~= lines@.take(k as int));
        assert(lines@.take(k + 1).last() == lines@[k as int]);
        let p = line_product(&lines[k]);
        total = saturating_add(total, p);
        k = k + 1;
    }
    assert(lines@.take(lines.len() as int) =~= lines@);
    total
}

/// The total a cart shows: `None` when it is empty or mixes currencies,
/// else the saturating total in the one currency.
pub fn cart_total(lines: &Vec<CartLine>) -> (r: Option<Money>)
    requires
        line_products_fit(lines@),
    ensures
        (lines@.len() == 0 || !single_currency(lines@)) ==> r is None,
        (lines@.len() > 0 && single_currency(lines@)) ==> r is Some && r->0.amount == lines_total(
            lines@,
        ) && r->0.currency@ == lines@[0].currency@,
{
    if lines.len() == 0 {
        return None;
    }
    let mut k: usize = 1;
    while k < lines.len()
        invariant
            1 <= k <= lines.len(),
            forall|m: int| 0 <= m < k ==> (#[trigger] lines@[m]).currency@ == lines@[0].currency@,
        decreases lines.len() - k,
    {
        if !str_eq(lines[k].currency.as_str(), lines[0].currency.as_str()) {
            return None;
        }
        k = k + 1;
    }
    let total = sum_lines(lines);
    Some(Money { amount: total, currency: lines[0].currency.clone() })
}

/// The checks of one checkout line, in order: its currency is the cart's
/// (`expected`, set by the first line), and a physical line has an active
/// reservation of at least its quantity (`reserved`).
pub fn check_checkout_line(
    expected: Option<&str>,
    currency: &str,
    physical: bool,
    reserved: Option<i32>,
    quantity: i32,
) -> (r: Result<(), CartError>)
    ensures
        ({
            let mismatch = opt_view(expected) is Some && opt_view(expected)->0 != currency@;
            &&& mismatch ==> r is Err && r->Err_0 == CartError::InvalidArgument(
                r->Err_0.payload(),
            ) && r->Err_0.payload()@ == "mixed currency cart is not supported"@
            &&& !mismatch && physical && reserved is None ==> r is Err && r->Err_0
                == CartError::FailedPrecondition(r->Err_0.payload()) && r->Err_0.payload()@
                == "inventory reservation not ready"@
            &&& !mismatch && physical && reserved is Some && reserved->0 < quantity ==> r is Err
                && r->Err_0 == CartError::FailedPrecondition(r->Err_0.payload())
                && r->Err_0.payload()@ == "reserved quantity is insufficient"@
            &&& r is Ok <==> !mismatch && (physical ==> (reserved is Some && reserved->0
                >= quantity))
        }),
{
    if let Some(c) = expected {
        if !str_eq(c, currency) {
            return Err(CartError::invalid_argument("mixed currency cart is not supported"));
        }
    }
    if physical {
        match reserved {
            None => {
                return Err(CartError::failed_precondition("inventory reservation not ready"));
            },
            Some(q) => {
                if q < quantity {
                    return Err(CartError::failed_precondition("reserved quantity is insufficient"));
                }
            },
        }
    }
    Ok(())
}

/// A checkout needs at least one item.
pub fn require_items(count: usize) -> (r: Result<(), CartError>)
    ensures
        r is Ok <==> count > 0,
        r matches Err(e) ==> e == CartError::InvalidArgument(e.payload()) && e.payload()@
            == "cart has no items"@,
{
    if count == 0 {
        Err(CartError::invalid_argument("cart has no items"))
    } else {
        Ok(())
    }
}

/// The stock of a physical line is taken only when exactly one stock row
/// was updated.
pub fn check_stock_taken(rows_affected: u64) -> (r: Result<(), CartError>)
    ensures
        r is Ok <==> rows_affected == 1,
        r matches Err(e) ==> e == CartError::FailedPrecondition(e.payload()) && e.payload()@
            == "inventory stock is insufficient"@,
{
    if rows_affected != 1 {
        Err(CartError::failed_precondition("inventory stock is insufficient"))
    } else {
        Ok(())
    }
}

/// How an order is paid.
#[derive(Debug, Clone, Copy, PartialEq, Eq)]
pub enum PaymentMethod {
    BankTransfer,
    Cod,
}

/// The state a new order starts in: awaiting payment for a bank transfer,
/// awaiting shipment for cash on delivery.
pub fn order_status_for(method: PaymentMethod) -> (r: &'static str)
    ensures
        r@ == match method {
            PaymentMethod::BankTransfer => "pending_payment"@,
            PaymentMethod::Cod => "pending_shipment"@,
        },
{
    match method {
        PaymentMethod::BankTransfer => "pending_payment",
        PaymentMethod::Cod => "pending_shipment",
    }
}

/// The currency of an order: the cart's, or JPY for a cart without one.
pub fn order_currency(currency: Option<String>) -> (r: String)
    ensures
        match currency {
            Some(c) => r == c,
            None => r@ == "JPY"@,
        },
{
    match currency {
        Some(c) => c,
        None => to_owned("JPY"),
    }
}

/// How long a cart lives, in days: the configured value when it reads as a
/// positive integer, else 30.
pub open spec fn ttl_days_spec(raw: Option<Seq<char>>) -> i64 {
    match raw {
        Some(s) => match parse_i64_spec(s) {
            Some(v) => if v > 0 {
                v
            } else {
                30
            },
            None => 30,
        },
        None => 30,
    }
}

/// How long a cart lives, in days, from the value of `CART_TTL_DAYS`.
pub fn cart_ttl_days(raw: Option<&str>) -> (r: i64)
    ensures
        r == ttl_days_spec(
            match raw {
                Some(s) => Some(s@),
                None => None,
            },
        ),
        r > 0,
{
    match raw {
        Some(s) => match parse_i64(s) {
            Some(v) => if v > 0 {
                v
            } else {
                30
            },
            None => 30,
        },
        None => 30,
    }
}

/// What changing an item's quantity asks of inventory.
#[derive(Debug, Clone, Copy, PartialEq, Eq)]
pub enum QuantityChange {
    /// The quantity stays; nothing is written.
    Unchanged,
    /// The quantity grows by this much: that much more is reserved.
    Increase(i32),
    /// The quantity shrinks by this much: that much is released.
    Decrease(i32),
}

/// What changing an item's quantity from `current` to `requested` asks.
pub fn quantity_change(current: i32, requested: i32) -> (r: QuantityChange)
    requires
        i32::MIN <= requested - current <= i32::MAX,
        i32::MIN < requested - current,
    ensures
        requested == current ==> r == QuantityChange::Unchanged,
        requested > current ==> r == QuantityChange::Increase((requested - current) as i32),
        requested < current ==> r == QuantityChange::Decrease((current - requested) as i32),
{
    if requested == current {
        QuantityChange::Unchanged
    } else {
        let delta = requested - current;
        if delta > 0 {
            QuantityChange::Increase(delta)
        } else {
            QuantityChange::Decrease(-delta)
        }
    }
}

/// A reservation after `release` of it is given back: the remaining
/// quantity, or `None` when nothing remains and it is released whole.
pub fn reservation_after_release(reserved: i32, release: i32) -> (r: Option<i32>)
    requires
        release >= 0,
    ensures
        reserved - release <= 0 ==> r is None,
        reserved - release > 0 ==> r == Some((reserved - release) as i32),
{
    let remaining: i64 = reserved as i64 - release as i64;
    if remaining <= 0 {
        None
    } else {
        Some(remaining as i32)
    }
}

} // verus!
