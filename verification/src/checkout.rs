//! Checkout: the checks of each cart line, in order, against the stock rows
//! the lines draw on, and what a checkout that passes them writes: the
//! order's lines, total and state, and the stock rows after every line has
//! taken its quantity.
use vstd::prelude::*;
use crate::cart::{CartLine, PaymentMethod, line_products_fit, lines_total, saturating_add};
use crate::errors::CartError;
use crate::inventory::StockLevel;
use crate::text::{str_eq, to_owned};

verus! {

/// A cart line as checkout reads it: the item, its price and quantity,
/// whether it is shipped, the quantity its active reservation holds, and
/// the location whose stock it draws on, when it has one.
#[derive(Debug, Clone, PartialEq, Eq)]
pub struct CheckoutLine {
    pub sku_id: String,
    pub unit_price: i64,
    pub currency: String,
    pub quantity: i32,
    pub physical: bool,
    pub reserved: Option<i32>,
    pub location_id: Option<String>,
}

/// A stock row: an item at a location, and its level there.
#[derive(Debug, Clone, PartialEq, Eq)]
pub struct StockRow {
    pub sku_id: String,
    pub location_id: String,
    pub level: StockLevel,
}

/// The state of a cart: open for changes, or turned into an order.
#[derive(Debug, Clone, Copy, PartialEq, Eq)]
pub enum CartStatus {
    Active,
    Ordered,
}

/// What a checkout writes: the order's state, total and currency, its
/// lines (the cart's lines as they stand, with the item each is for), the
/// stock rows once every line has taken its quantity, and the cart's new
/// state.
#[derive(Debug, Clone, PartialEq, Eq)]
pub struct OrderPlan {
    pub status: String,
    pub total: i64,
    pub currency: String,
    pub lines: Vec<CartLine>,
    pub skus: Vec<String>,
    pub stock_after: Vec<StockRow>,
    pub cart_status: CartStatus,
}

/// The item and location of a stock row.
pub open spec fn row_key(r: StockRow) -> (Seq<char>, Seq<char>) {
    (r.sku_id@, r.location_id@)
}

/// The item and location of each stock row, in order.
pub open spec fn row_keys(rows: Seq<StockRow>) -> Seq<(Seq<char>, Seq<char>)> {
    rows.map_values(|r: StockRow| row_key(r))
}

/// The level of each stock row, in order.
pub open spec fn row_levels(rows: Seq<StockRow>) -> Seq<StockLevel> {
    rows.map_values(|r: StockRow| r.level)
}

/// Whether the conditional update that takes `q` units of `sku` at `loc`
/// changes row `i`: the row is for that item and location and holds `q`
/// units both in stock and reserved.
pub open spec fn row_takes(
    keys: Seq<(Seq<char>, Seq<char>)>,
    levels: Seq<StockLevel>,
    i: int,
    sku: Seq<char>,
    loc: Seq<char>,
    q: i32,
) -> bool {
    keys[i] == (sku, loc) && levels[i].consume_spec(q) is Some
}

/// How many of the first `n` rows that update changes.
pub open spec fn taking_count(
    keys: Seq<(Seq<char>, Seq<char>)>,
    levels: Seq<StockLevel>,
    n: int,
    sku: Seq<char>,
    loc: Seq<char>,
    q: i32,
) -> nat
    decreases n,
{
    if n <= 0 {
        0
    } else {
        taking_count(keys, levels, n - 1, sku, loc, q) + if row_takes(keys, levels, n - 1, sku, loc, q) {
            1nat
        } else {
            0nat
        }
    }
}

/// The last of the first `n` rows that update changes, or -1.
pub open spec fn taking_row(
    keys: Seq<(Seq<char>, Seq<char>)>,
    levels: Seq<StockLevel>,
    n: int,
    sku: Seq<char>,
    loc: Seq<char>,
    q: i32,
) -> int
    decreases n,
{
    if n <= 0 {
        -1
    } else if row_takes(keys, levels, n - 1, sku, loc, q) {
        n - 1
    } else {
        taking_row(keys, levels, n - 1, sku, loc, q)
    }
}

/// One line's checks against the order's currency and the stock levels as
/// the earlier lines left them, and the levels after it. A physical line
/// needs its reservation to cover its quantity; one with a location takes
/// its quantity from exactly one row of that item there that holds it
/// (else the stock is insufficient). Kind 0 is an invalid argument, kind 1
/// a failed precondition.
pub open spec fn line_step(
    currency: Seq<char>,
    l: CheckoutLine,
    keys: Seq<(Seq<char>, Seq<char>)>,
    levels: Seq<StockLevel>,
) -> Result<Seq<StockLevel>, (int, Seq<char>)> {
    if l.currency@ != currency {
        Err((0, "mixed currency cart is not supported"@))
    } else if !l.physical {
        Ok(levels)
    } else if l.reserved is None {
        Err((1, "inventory reservation not ready"@))
    } else if l.reserved->0 < l.quantity {
        Err((1, "reserved quantity is insufficient"@))
    } else {
        match l.location_id {
            None => Ok(levels),
            Some(loc) => {
                let n = keys.len() as int;
                if taking_count(keys, levels, n, l.sku_id@, loc@, l.quantity) != 1 {
                    Err((1, "inventory stock is insufficient"@))
                } else {
                    let i = taking_row(keys, levels, n, l.sku_id@, loc@, l.quantity);
                    Ok(levels.update(i, levels[i].consume_spec(l.quantity)->0))
                }
            },
        }
    }
}

/// The lines taken in order, each against the levels the earlier ones left.
pub open spec fn checkout_fold(
    lines: Seq<CheckoutLine>,
    currency: Seq<char>,
    keys: Seq<(Seq<char>, Seq<char>)>,
    levels: Seq<StockLevel>,
) -> Result<Seq<StockLevel>, (int, Seq<char>)>
    decreases lines.len(),
{
    if lines.len() == 0 {
        Ok(levels)
    } else {
        match checkout_fold(lines.drop_last(), currency, keys, levels) {
            Err(e) => Err(e),
            Ok(lv) => line_step(currency, lines.last(), keys, lv),
        }
    }
}

/// What a checkout of `lines` does to the stock `rows`: refused for an empty
/// cart or at the first line that fails (in the first line's currency);
/// else the rows' levels after every line.
pub open spec fn checkout_outcome(lines: Seq<CheckoutLine>, rows: Seq<StockRow>) -> Result<
    Seq<StockLevel>,
    (int, Seq<char>),
> {
    if lines.len() == 0 {
        Err((0, "cart has no items"@))
    } else {
        checkout_fold(lines, lines[0].currency@, row_keys(rows), row_levels(rows))
    }
}

/// The cart line a checkout line is priced as.
pub open spec fn priced(l: CheckoutLine) -> CartLine {
    CartLine { unit_price: l.unit_price, currency: l.currency, quantity: l.quantity }
}

/// The error of a refusal of kind `kind` with message `m`.
pub open spec fn refusal_is(e: CartError, kind: int, m: Seq<char>) -> bool {
    &&& kind == 0 ==> e == CartError::InvalidArgument(e.payload())
    &&& kind == 1 ==> e == CartError::FailedPrecondition(e.payload())
    &&& e.payload()@ == m
}

/// The row that takes `q` units of `sku` at `loc`, when exactly one does.
fn taking_row_of(rows: &Vec<StockRow>, levels: &Vec<StockLevel>, sku: &str, loc: &str, q: i32) -> (r:
    Option<usize>)
    requires
        levels@.len() == rows@.len(),
        q >= 0,
    ensures
        match r {
            Some(i) => taking_count(row_keys(rows@), levels@, rows@.len() as int, sku@, loc@, q) == 1
                && i as int == taking_row(row_keys(rows@), levels@, rows@.len() as int, sku@, loc@, q)
                && i < rows@.len(),
            None => taking_count(row_keys(rows@), levels@, rows@.len() as int, sku@, loc@, q) != 1,
        },
{
    let ghost keys = row_keys(rows@);
    let mut count: usize = 0;
    let mut last: Option<usize> = None;
    let mut i: usize = 0;
    while i < rows.len()
        invariant
            i <= rows@.len(),
            levels@.len() == rows@.len(),
            keys == row_keys(rows@),
            q >= 0,
            count as int == taking_count(keys, levels@, i as int, sku@, loc@, q),
            count <= i,
            (count > 0) == (last is Some),
            match last {
                Some(j) => taking_row(keys, levels@, i as int, sku@, loc@, q) == j as int && j < i,
                None => taking_row(keys, levels@, i as int, sku@, loc@, q) == -1,
            },
        decreases rows.len() - i,
    {
        let takes = str_eq(rows[i].sku_id.as_str(), sku) && str_eq(rows[i].location_id.as_str(), loc)
            && levels[i].consume(q).is_some();
        assert(keys[i as int] == (rows@[i as int].sku_id@, rows@[i as int].location_id@));
        assert(takes == row_takes(keys, levels@, i as int, sku@, loc@, q));
        if takes {
            count = count + 1;
            last = Some(i);
        }
        i = i + 1;
    }
    if count == 1 {
        match last {
            Some(j) => Some(j),
            None => None,
        }
    } else {
        None
    }
}

proof fn lemma_taking_count_positive(
    keys: Seq<(Seq<char>, Seq<char>)>,
    levels: Seq<StockLevel>,
    n: int,
    sku: Seq<char>,
    loc: Seq<char>,
    q: i32,
)
    requires
        taking_count(keys, levels, n, sku, loc, q) > 0,
    ensures
        0 <= taking_row(keys, levels, n, sku, loc, q) < n,
        row_takes(keys, levels, taking_row(keys, levels, n, sku, loc, q), sku, loc, q),
    decreases n,
{
    if n > 0 && !row_takes(keys, levels, n - 1, sku, loc, q) {
        lemma_taking_count_positive(keys, levels, n - 1, sku, loc, q);
    }
}

/// Checks one line against the levels the earlier lines left, and takes
/// its quantity from them.
fn apply_line(
    currency: &str,
    l: &CheckoutLine,
    rows: &Vec<StockRow>,
    levels: &mut Vec<StockLevel>,
) -> (r: Result<(), CartError>)
    requires
        l.quantity > 0,
        old(levels)@.len() == rows@.len(),
    ensures
        final(levels)@.len() == rows@.len(),
        match line_step(currency@, *l, row_keys(rows@), old(levels)@) {
            Ok(lv) => r is Ok && final(levels)@ == lv,
            Err((kind, m)) => r matches Err(e) && refusal_is(e, kind, m),
        },
{
    if !str_eq(l.currency.as_str(), currency) {
        return Err(CartError::invalid_argument("mixed currency cart is not supported"));
    }
    if !l.physical {
        return Ok(());
    }
    match l.reserved {
        None => {
            return Err(CartError::failed_precondition("inventory reservation not ready"));
        },
        Some(q) => {
            if q < l.quantity {
                return Err(CartError::failed_precondition("reserved quantity is insufficient"));
            }
        },
    }
    match &l.location_id {
        None => Ok(()),
        Some(loc) => {
            match taking_row_of(rows, levels, l.sku_id.as_str(), loc.as_str(), l.quantity) {
                None => Err(CartError::failed_precondition("inventory stock is insufficient")),
                Some(i) => {
                    proof {
                        lemma_taking_count_positive(
                            row_keys(rows@),
                            levels@,
                            rows@.len() as int,
                            l.sku_id@,
                            loc@,
                            l.quantity,
                        );
                    }
                    let taken = levels[i].consume(l.quantity);
                    match taken {
                        Some(t) => {
                            levels.set(i, t);
                            Ok(())
                        },
                        None => Err(CartError::failed_precondition("inventory stock is insufficient")),
                    }
                },
            }
        },
    }
}

proof fn lemma_fold_err_stays(
    lines: Seq<CheckoutLine>,
    currency: Seq<char>,
    keys: Seq<(Seq<char>, Seq<char>)>,
    levels: Seq<StockLevel>,
    n: int,
)
    requires
        0 <= n <= lines.len(),
        checkout_fold(lines.take(n), currency, keys, levels) is Err,
    ensures
        checkout_fold(lines, currency, keys, levels) == checkout_fold(
            lines.take(n),
            currency,
            keys,
            levels,
        ),
    decreases lines.len() - n,
{
    if n < lines.len() {
        assert(lines.take(n + 1).drop_last() =~= lines.take(n));
        lemma_fold_err_stays(lines, currency, keys, levels, n + 1);
    } else {
        assert(lines.take(n) =~= lines);
    }
}

/// Checks a cart's lines for checkout against the stock rows they draw on
/// and gives what the checkout writes: the order keeps the cart's lines as
/// they are, its total is their saturating total in the first line's
/// currency, its state follows the payment method, the stock rows are
/// those after every line has taken its quantity in turn (a later line on
/// the same row sees what the earlier ones left), and the cart is ordered.
/// Cart lines always hold a positive quantity.
pub fn checkout_plan(lines: &Vec<CheckoutLine>, stocks: &Vec<StockRow>, method: PaymentMethod) -> (r:
    Result<OrderPlan, CartError>)
    requires
        forall|i: int| 0 <= i < lines@.len() ==> #[trigger] lines@[i].quantity > 0,
        line_products_fit(lines@.map_values(|l: CheckoutLine| priced(l))),
    ensures
        match checkout_outcome(lines@, stocks@) {
            Err((kind, m)) => r matches Err(e) && refusal_is(e, kind, m),
            Ok(after) => r matches Ok(p) && {
                &&& p.status@ == match method {
                    PaymentMethod::BankTransfer => "pending_payment"@,
                    PaymentMethod::Cod => "pending_shipment"@,
                }
                &&& p.currency@ == lines@[0].currency@
                &&& p.total == lines_total(lines@.map_values(|l: CheckoutLine| priced(l)))
                &&& p.lines@.len() == lines@.len()
                &&& p.skus@.len() == lines@.len()
                &&& p.cart_status == CartStatus::Ordered
                &&& forall|i: int|
                    0 <= i < lines@.len() ==> (#[trigger] p.skus@[i])@ == lines@[i].sku_id@
                &&& forall|i: int|
                    0 <= i < lines@.len() ==> (#[trigger] p.lines@[i]).unit_price
                        == lines@[i].unit_price && p.lines@[i].currency@ == lines@[i].currency@
                        && p.lines@[i].quantity == lines@[i].quantity
                &&& row_keys(p.stock_after@) == row_keys(stocks@)
                &&& row_levels(p.stock_after@) == after
            },
        },
{
    if lines.len() == 0 {
        return Err(CartError::invalid_argument("cart has no items"));
    }
    let currency = to_owned(lines[0].currency.as_str());
    let ghost cur = lines@[0].currency@;
    let ghost keys = row_keys(stocks@);
    let ghost levels0 = row_levels(stocks@);
    let ghost priced_all = lines@.map_values(|l: CheckoutLine| priced(l));
    let mut levels: Vec<StockLevel> = Vec::new();
    let mut j: usize = 0;
    while j < stocks.len()
        invariant
            j <= stocks@.len(),
            levels0 == row_levels(stocks@),
            levels@ == levels0.take(j as int),
        decreases stocks.len() - j,
    {
        levels.push(stocks[j].level);
        assert(levels@ =~= levels0.take(j + 1));
        j = j + 1;
    }
    assert(levels@ =~= levels0);
    let mut out: Vec<CartLine> = Vec::new();
    let mut skus: Vec<String> = Vec::new();
    let mut total: i64 = 0;
    let mut k: usize = 0;
    assert(lines@.take(0) =~= Seq::<CheckoutLine>::empty());
    assert(priced_all.take(0) =~= Seq::<CartLine>::empty());
    while k < lines.len()
        invariant
            k <= lines@.len(),
            lines@.len() > 0,
            currency@ == cur,
            cur == lines@[0].currency@,
            keys == row_keys(stocks@),
            levels0 == row_levels(stocks@),
            levels@.len() == stocks@.len(),
            priced_all == lines@.map_values(|l: CheckoutLine| priced(l)),
            forall|i: int| 0 <= i < lines@.len() ==> #[trigger] lines@[i].quantity > 0,
            line_products_fit(priced_all),
            checkout_fold(lines@.take(k as int), cur, keys, levels0) == Ok::<
                Seq<StockLevel>,
                (int, Seq<char>),
            >(levels@),
            total == lines_total(priced_all.take(k as int)),
            out@.len() == k,
            skus@.len() == k,
            forall|i: int| 0 <= i < k ==> (#[trigger] skus@[i])@ == lines@[i].sku_id@,
            forall|i: int|
                0 <= i < k ==> (#[trigger] out@[i]).unit_price == lines@[i].unit_price
                    && out@[i].currency@ == lines@[i].currency@ && out@[i].quantity
                    == lines@[i].quantity,
        decreases lines.len() - k,
    {
        assert(lines@.take(k + 1).drop_last() =~= lines@.take(k as int));
        assert(lines@.take(k + 1).last() == lines@[k as int]);
        assert(priced_all.take(k + 1).drop_last() =~= priced_all.take(k as int));
        assert(priced_all.take(k + 1).last() == priced(lines@[k as int]));
        let l = &lines[k];
        assert(l.quantity > 0);
        let ghost lv_before = levels@;
        match apply_line(currency.as_str(), l, stocks, &mut levels) {
            Err(e) => {
                proof {
                    assert(checkout_fold(lines@.take(k + 1), cur, keys, levels0) == line_step(
                        cur,
                        lines@[k as int],
                        keys,
                        lv_before,
                    ));
                    lemma_fold_err_stays(lines@, cur, keys, levels0, k + 1);
                }
                return Err(e);
            },
            Ok(()) => {},
        }
        assert(priced_all[k as int] == priced(lines@[k as int]));
        let q: i64 = l.quantity as i64;
        let p: i64 = l.unit_price * q;
        total = saturating_add(total, p);
        out.push(CartLine { unit_price: l.unit_price, currency: to_owned(l.currency.as_str()), quantity: l.quantity });
        skus.push(to_owned(l.sku_id.as_str()));
        k = k + 1;
    }
    assert(lines@.take(lines.len() as int) =~= lines@);
    assert(priced_all.take(lines.len() as int) =~= priced_all);
    let mut after: Vec<StockRow> = Vec::new();
    let mut i: usize = 0;
    while i < stocks.len()
        invariant
            i <= stocks@.len(),
            levels@.len() == stocks@.len(),
            row_keys(after@) == row_keys(stocks@).take(i as int),
            row_levels(after@) == levels@.take(i as int),
        decreases stocks.len() - i,
    {
        let ghost before = after@;
        after.push(
            StockRow {
                sku_id: to_owned(stocks[i].sku_id.as_str()),
                location_id: to_owned(stocks[i].location_id.as_str()),
                level: levels[i],
            },
        );
        assert(row_keys(after@) =~= row_keys(stocks@).take(i + 1)) by {
            assert(row_keys(after@) =~= row_keys(before).push(row_key(stocks@[i as int])));
        }
        assert(row_levels(after@) =~= levels@.take(i + 1)) by {
            assert(row_levels(after@) =~= row_levels(before).push(levels@[i as int]));
        }
        i = i + 1;
    }
    assert(row_keys(stocks@).take(stocks.len() as int) =~= row_keys(stocks@));
    assert(levels@.take(stocks.len() as int) =~= levels@);
    let status = match method {
        PaymentMethod::BankTransfer => to_owned("pending_payment"),
        PaymentMethod::Cod => to_owned("pending_shipment"),
    };
    Ok(
        OrderPlan {
            status,
            total,
            currency,
            lines: out,
            skus,
            stock_after: after,
            cart_status: CartStatus::Ordered,
        },
    )
}

proof fn lemma_fold_keeps_levels(
    lines: Seq<CheckoutLine>,
    currency: Seq<char>,
    keys: Seq<(Seq<char>, Seq<char>)>,
    levels: Seq<StockLevel>,
)
    requires
        levels.len() == keys.len(),
        forall|i: int| 0 <= i < levels.len() ==> (#[trigger] levels[i]).well_formed(),
        forall|i: int| 0 <= i < lines.len() ==> (#[trigger] lines[i]).quantity >= 0,
    ensures
        checkout_fold(lines, currency, keys, levels) matches Ok(after) ==> {
            &&& after.len() == levels.len()
            &&& forall|i: int| 0 <= i < after.len() ==> (#[trigger] after[i]).well_formed()
        },
    decreases lines.len(),
{
    if lines.len() > 0 {
        let init = lines.drop_last();
        assert forall|i: int| 0 <= i < init.len() implies (#[trigger] init[i]).quantity >= 0 by {
            assert(init[i] == lines[i]);
        }
        lemma_fold_keeps_levels(init, currency, keys, levels);
        if let Ok(lv) = checkout_fold(init, currency, keys, levels) {
            let l = lines.last();
            assert(l == lines[lines.len() - 1]);
            if l.currency@ == currency && l.physical && l.reserved is Some && l.reserved->0
                >= l.quantity && l.location_id is Some {
                let loc = l.location_id->0;
                let n = keys.len() as int;
                if taking_count(keys, lv, n, l.sku_id@, loc@, l.quantity) == 1 {
                    lemma_taking_count_positive(keys, lv, n, l.sku_id@, loc@, l.quantity);
                    let i = taking_row(keys, lv, n, l.sku_id@, loc@, l.quantity);
                    let t = lv[i].consume_spec(l.quantity)->0;
                    assert(t.well_formed());
                    let after = lv.update(i, t);
                    assert forall|j: int| 0 <= j < after.len() implies (
                    #[trigger] after[j]).well_formed() by {
                        if j != i {
                            assert(after[j] == lv[j]);
                        }
                    }
                }
            }
        }
    }
}

/// Checkout never breaks a stock row: if every row holds no more reserved
/// than in stock and nothing negative, so does every row after a checkout
/// that goes through, and the rows stay the same in number.
pub proof fn lemma_checkout_keeps_stock_well_formed(lines: Seq<CheckoutLine>, rows: Seq<StockRow>)
    requires
        forall|i: int| 0 <= i < rows.len() ==> (#[trigger] rows[i]).level.well_formed(),
        forall|i: int| 0 <= i < lines.len() ==> (#[trigger] lines[i]).quantity >= 0,
    ensures
        checkout_outcome(lines, rows) matches Ok(after) ==> {
            &&& after.len() == rows.len()
            &&& forall|i: int| 0 <= i < after.len() ==> (#[trigger] after[i]).well_formed()
        },
{
    if lines.len() > 0 {
        let levels = row_levels(rows);
        assert forall|i: int| 0 <= i < levels.len() implies (#[trigger] levels[i]).well_formed() by {
            assert(levels[i] == rows[i].level);
        }
        lemma_fold_keeps_levels(lines, lines[0].currency@, row_keys(rows), levels);
    }
}

} // verus!
