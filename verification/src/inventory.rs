//! Stock and reservations of one SKU at one location: a reservation holds
//! units of the stock for a cart, a release gives them back, and a checkout
//! consumes reserved units from the stock.
use vstd::prelude::*;

verus! {

/// The stock of one SKU at one location and how much of it is reserved.
#[derive(Debug, Clone, Copy, PartialEq, Eq)]
pub struct StockLevel {
    pub stock: i32,
    pub reserved: i32,
}

impl StockLevel {
    /// Nothing is negative and no more is reserved than is in stock.
    pub open spec fn well_formed(self) -> bool {
        0 <= self.reserved <= self.stock
    }

    /// Units free to reserve.
    pub open spec fn free(self) -> int {
        self.stock - self.reserved
    }

    /// The level after reserving `quantity` units, when that many are free.
    pub open spec fn reserve_spec(self, quantity: i32) -> Option<StockLevel> {
        if self.free() >= quantity {
            Some(StockLevel { stock: self.stock, reserved: (self.reserved + quantity) as i32 })
        } else {
            None
        }
    }

    /// The level after giving back `quantity` reserved units, never below zero.
    pub open spec fn release_spec(self, quantity: i32) -> StockLevel {
        StockLevel {
            stock: self.stock,
            reserved: if self.reserved - quantity > 0 {
                (self.reserved - quantity) as i32
            } else {
                0
            },
        }
    }

    /// The level after a checkout takes `quantity` reserved units, when both
    /// the stock and the reservation hold that many.
    pub open spec fn consume_spec(self, quantity: i32) -> Option<StockLevel> {
        if self.stock >= quantity && self.reserved >= quantity {
            Some(
                StockLevel {
                    stock: (self.stock - quantity) as i32,
                    reserved: (self.reserved - quantity) as i32,
                },
            )
        } else {
            None
        }
    }

    /// Reserves `quantity` units when that many are free; `None` leaves the
    /// level as it is (the request fails).
    pub fn try_reserve(self, quantity: i32) -> (r: Option<StockLevel>)
        requires
            i32::MIN <= self.reserved as int + quantity <= i32::MAX,
        ensures
            r == self.reserve_spec(quantity),
    {
        let free: i64 = self.stock as i64 - self.reserved as i64;
        if free >= quantity as i64 {
            Some(StockLevel { stock: self.stock, reserved: self.reserved + quantity })
        } else {
            None
        }
    }

    /// Gives back `quantity` reserved units; the reservation never goes
    /// below zero.
    pub fn release(self, quantity: i32) -> (r: StockLevel)
        requires
            quantity >= 0,
        ensures
            r == self.release_spec(quantity),
    {
        let left: i64 = self.reserved as i64 - quantity as i64;
        StockLevel { stock: self.stock, reserved: if left > 0 {
            left as i32
        } else {
            0
        } }
    }

    /// Takes `quantity` reserved units out of the stock at checkout, when
    /// both the stock and the reservation hold that many.
    pub fn consume(self, quantity: i32) -> (r: Option<StockLevel>)
        requires
            quantity >= 0,
        ensures
            r == self.consume_spec(quantity),
    {
        if self.stock >= quantity && self.reserved >= quantity {
            Some(StockLevel { stock: self.stock - quantity, reserved: self.reserved - quantity })
        } else {
            None
        }
    }
}

/// Every operation keeps a well-formed level well formed: a reservation
/// never takes more than is free, a release never leaves a negative
/// reservation, and a checkout takes from both sides.
pub proof fn lemma_stock_operations_keep_level(s: StockLevel, quantity: i32)
    requires
        s.well_formed(),
        quantity >= 0,
        s.reserved as int + quantity <= i32::MAX,
    ensures
        s.reserve_spec(quantity) matches Some(t) ==> t.well_formed(),
        s.release_spec(quantity).well_formed(),
        s.consume_spec(quantity) matches Some(t) ==> t.well_formed(),
{
}

/// Releasing what was just reserved restores the level.
pub proof fn lemma_release_undoes_reserve(s: StockLevel, quantity: i32)
    requires
        s.well_formed(),
        quantity >= 0,
        s.reserve_spec(quantity) is Some,
    ensures
        s.reserve_spec(quantity)->0.release_spec(quantity) == s,
{
}

/// The state a reservation request ends in: `done` when stock was reserved,
/// else `failed`.
pub fn reservation_request_outcome(reserved: bool) -> (r: &'static str)
    ensures
        r@ == if reserved {
            "done"@
        } else {
            "failed"@
        },
{
    if reserved {
        "done"
    } else {
        "failed"
    }
}

} // verus!
