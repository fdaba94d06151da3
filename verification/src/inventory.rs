//! Stock ledger rules: what each posting checks, how it moves the per-location
//! balance (on hand, reserved, damaged), FIFO cost layers, and movement numbers.
use vstd::prelude::*;
use crate::error::{AppError, validation};
use crate::dashboard::{json_string_value, parse_json_string};
use crate::text::{eq_ignore_ascii_case, fmt_padded, format_padded, int_text, num_text, owned, str_eq_ignore_ascii_case};

verus! {

/// One `stock_balances` row: units on hand, reserved for customers, and
/// damaged (not sellable), for one product at one location.
#[derive(Debug, Clone, Copy, PartialEq, Eq, Structural)]
pub struct StockBalance {
    pub on_hand: i64,
    pub reserved: i64,
    pub damaged: i64,
}

/// The row a missing balance reads as.
pub open spec fn zero_balance() -> StockBalance {
    StockBalance { on_hand: 0, reserved: 0, damaged: 0 }
}

pub open spec fn row_of(row: Option<StockBalance>) -> StockBalance {
    match row {
        Some(b) => b,
        None => zero_balance(),
    }
}

/// Units free to leave a location: on hand, less reserved and damaged units.
pub open spec fn free_units(b: StockBalance) -> int {
    b.on_hand - b.reserved - b.damaged
}

/// Units free to be reserved: on hand, less units already reserved.
pub open spec fn reservable_units(b: StockBalance) -> int {
    b.on_hand - b.reserved
}

/// The boolean a JSON text holds, if it holds one.
pub uninterp spec fn json_bool_value(text: Seq<char>) -> Option<bool>;

/// `serde_json::from_str::<bool>` of serde_json; `None` on an error. The
/// result is named, not described.
#[verifier::external_body]
fn parse_json_bool(text: &str) -> (r: Option<bool>)
    ensures
        r == json_bool_value(text@),
{
    serde_json::from_str::<bool>(text).ok()
}

/// Whether the stored `inventory.allow_negative` setting allows negative
/// stock: a JSON `true`, or a JSON string reading `true`, `1` or `yes` in any
/// ASCII case; anything else, or nothing stored, does not.
pub open spec fn negative_stock_allowed(setting: Option<String>) -> bool {
    match setting {
        None => false,
        Some(raw) => match json_bool_value(raw@) {
            Some(b) => b,
            None => match json_string_value(raw@) {
                Some(s) => eq_ignore_ascii_case(s, "true"@) || eq_ignore_ascii_case(s, "1"@)
                    || eq_ignore_ascii_case(s, "yes"@),
                None => false,
            },
        },
    }
}

pub fn allow_negative_stock(setting: Option<String>) -> (r: bool)
    ensures
        r == negative_stock_allowed(setting),
{
    match setting {
        None => false,
        Some(raw) => match parse_json_bool(raw.as_str()) {
            Some(b) => b,
            None => match parse_json_string(raw.as_str()) {
                Some(s) => str_eq_ignore_ascii_case(s.as_str(), "true") || str_eq_ignore_ascii_case(s.as_str(), "1")
                    || str_eq_ignore_ascii_case(s.as_str(), "yes"),
                None => false,
            },
        },
    }
}

pub open spec fn fits(x: int) -> bool {
    i64::MIN <= x <= i64::MAX
}

/// A balance whose derived figures can be computed without overflow.
pub open spec fn sane(b: StockBalance) -> bool {
    fits(b.on_hand - b.reserved - b.damaged) && fits(b.on_hand - b.reserved)
}

/// The balance after adding `delta` to on hand; a missing row starts at zero.
pub open spec fn with_on_hand_delta(row: Option<StockBalance>, delta: int) -> StockBalance {
    let b = row_of(row);
    StockBalance { on_hand: (b.on_hand + delta) as i64, ..b }
}

/// A row after `quantity` units are marked damaged.
pub open spec fn damaged_balance(b: StockBalance, quantity: int) -> StockBalance {
    StockBalance {
        on_hand: if b.on_hand - quantity > 0 { (b.on_hand - quantity) as i64 } else { 0 },
        damaged: (b.damaged + quantity) as i64,
        ..b
    }
}

/// A row after `quantity` damaged units are repaired.
pub open spec fn repaired_balance(b: StockBalance, quantity: int) -> StockBalance {
    StockBalance {
        damaged: if b.damaged - quantity > 0 { (b.damaged - quantity) as i64 } else { 0 },
        on_hand: (b.on_hand + quantity) as i64,
        ..b
    }
}

/// A row after `quantity` units are reserved.
pub open spec fn reserved_balance(b: StockBalance, quantity: int) -> StockBalance {
    StockBalance { reserved: (b.reserved + quantity) as i64, ..b }
}

/// A row after `quantity` reserved units are released.
pub open spec fn released_balance(b: StockBalance, quantity: int) -> StockBalance {
    StockBalance { reserved: if b.reserved - quantity > 0 { (b.reserved - quantity) as i64 } else { 0 }, ..b }
}

/// `apply_on_hand_delta`: the row is created at zero if needed, then `delta`
/// is added to on hand.
pub fn apply_on_hand_delta(row: Option<StockBalance>, delta: i64) -> (r: StockBalance)
    requires
        fits(row_of(row).on_hand + delta),
    ensures
        r == with_on_hand_delta(row, delta as int),
{
    let b = match row {
        Some(b) => b,
        None => StockBalance { on_hand: 0, reserved: 0, damaged: 0 },
    };
    StockBalance { on_hand: b.on_hand + delta, ..b }
}

/// A posting that moves stock must name a positive quantity.
pub fn require_positive_quantity(quantity: i64, message: &str) -> (r: Result<(), AppError>)
    ensures
        r is Ok <==> quantity > 0,
        r matches Err(e) ==> e matches AppError::Validation(m) && m@ == message@,
{
    if quantity <= 0 {
        Err(validation(message))
    } else {
        Ok(())
    }
}

/// Opening stock: a positive quantity at a non-negative unit cost (absent cost
/// is zero). Returns the unit cost of the FIFO layer it posts.
pub fn validate_opening(quantity: i64, unit_cost_minor: Option<i64>) -> (r: Result<i64, AppError>)
    ensures
        quantity <= 0 ==> (r matches Err(AppError::Validation(m)) && m@ == "opening stock quantity must be positive"@),
        quantity > 0 ==> match unit_cost_minor {
            Some(c) => if c < 0 {
                r matches Err(AppError::Validation(m)) && m@ == "unit cost cannot be negative"@
            } else {
                r == Ok::<i64, AppError>(c)
            },
            None => r == Ok::<i64, AppError>(0),
        },
{
    if quantity <= 0 {
        return Err(validation("opening stock quantity must be positive"));
    }
    let cost = match unit_cost_minor {
        Some(c) => c,
        None => 0,
    };
    if cost < 0 {
        return Err(validation("unit cost cannot be negative"));
    }
    Ok(cost)
}

/// A transfer moves a positive quantity between two different locations.
pub fn validate_transfer(quantity: i64, from_location_id: i64, to_location_id: i64) -> (r: Result<(), AppError>)
    ensures
        quantity <= 0 ==> (r matches Err(AppError::Validation(m)) && m@ == "transfer quantity must be positive"@),
        quantity > 0 && from_location_id == to_location_id ==> (r matches Err(AppError::Validation(m))
            && m@ == "source and destination must differ"@),
        quantity > 0 && from_location_id != to_location_id ==> r is Ok,
{
    if quantity <= 0 {
        return Err(validation("transfer quantity must be positive"));
    }
    if from_location_id == to_location_id {
        return Err(validation("source and destination must differ"));
    }
    Ok(())
}

/// Balances after a transfer of `quantity` from `from` to `to`. Unless negative
/// stock is allowed, the source must have that many free units.
/// What a transfer of `quantity` from `from` to `to` answers: unless negative
/// stock is allowed, more than the source's free units is refused; otherwise
/// the units leave the source's on hand and join the destination's.
pub open spec fn transfer_outcome(from: Option<StockBalance>, to: Option<StockBalance>, quantity: int, allow_negative: bool,
    r: Result<(StockBalance, StockBalance), AppError>) -> bool {
    &&& r is Err <==> (!allow_negative && quantity > free_units(row_of(from)))
    &&& r matches Err(e) ==> e matches AppError::InsufficientStock(m) && m@ == "requested "@
        + num_text(quantity) + " but only "@ + num_text(free_units(row_of(from)))
        + " available at source"@
    &&& r matches Ok((f, t)) ==> f == with_on_hand_delta(from, -quantity) && t == with_on_hand_delta(to, quantity)
}

pub fn plan_transfer(from: Option<StockBalance>, to: Option<StockBalance>, quantity: i64, allow_negative: bool)
    -> (r: Result<(StockBalance, StockBalance), AppError>)
    requires
        quantity > 0,
        sane(row_of(from)),
        fits(row_of(from).on_hand - quantity),
        fits(row_of(to).on_hand + quantity),
    ensures
        transfer_outcome(from, to, quantity as int, allow_negative, r),
{
    let src = match from {
        Some(b) => b,
        None => StockBalance { on_hand: 0, reserved: 0, damaged: 0 },
    };
    let available = src.on_hand - src.reserved - src.damaged;
    if !allow_negative && quantity > available {
        let mut m = owned("requested ");
        m.append(int_text(quantity).as_str());
        m.append(" but only ");
        m.append(int_text(available).as_str());
        m.append(" available at source");
        return Err(AppError::InsufficientStock(m));
    }
    let f = apply_on_hand_delta(from, -quantity);
    let t = apply_on_hand_delta(to, quantity);
    Ok((f, t))
}

/// An adjustment names a non-zero quantity and a non-negative unit cost (absent
/// cost is zero). Returns that cost.
pub fn validate_adjust(adjustment_qty: i64, unit_cost_minor: Option<i64>) -> (r: Result<i64, AppError>)
    ensures
        adjustment_qty == 0 ==> (r matches Err(AppError::Validation(m)) && m@ == "adjustment quantity cannot be zero"@),
        adjustment_qty != 0 ==> match unit_cost_minor {
            Some(c) => if c < 0 {
                r matches Err(AppError::Validation(m)) && m@ == "unit cost cannot be negative"@
            } else {
                r == Ok::<i64, AppError>(c)
            },
            None => r == Ok::<i64, AppError>(0),
        },
{
    if adjustment_qty == 0 {
        return Err(validation("adjustment quantity cannot be zero"));
    }
    let cost = match unit_cost_minor {
        Some(c) => c,
        None => 0,
    };
    if cost < 0 {
        return Err(validation("unit cost cannot be negative"));
    }
    Ok(cost)
}

/// `q.unsigned_abs() as i64`: the magnitude, which for `i64::MIN` wraps back to
/// `i64::MIN`.
pub open spec fn magnitude(q: i64) -> int {
    if q == i64::MIN { i64::MIN as int } else if q < 0 { -q } else { q as int }
}

pub fn magnitude_of(q: i64) -> (r: i64)
    ensures
        r == magnitude(q),
{
    if q == i64::MIN {
        i64::MIN
    } else if q < 0 {
        -q
    } else {
        q
    }
}

/// Balance after a manual adjustment. A decrease larger than the units on hand
/// is refused unless negative stock is allowed.
/// What an adjustment of `adjustment_qty` answers: unless negative stock is
/// allowed, taking out more than on hand is refused; otherwise on hand moves
/// by the adjustment.
pub open spec fn adjust_outcome(row: Option<StockBalance>, adjustment_qty: i64, allow_negative: bool,
    r: Result<StockBalance, AppError>) -> bool {
    &&& r is Err <==> (adjustment_qty < 0 && !allow_negative && magnitude(adjustment_qty) > row_of(row).on_hand)
    &&& r matches Err(e) ==> e matches AppError::InsufficientStock(m) && m@ == "adjustment of "@
        + num_text(adjustment_qty as int) + " would put stock below zero (on hand: "@
        + num_text(row_of(row).on_hand as int) + ")"@
    &&& r matches Ok(b) ==> b == with_on_hand_delta(row, adjustment_qty as int)
}

pub fn plan_adjust(row: Option<StockBalance>, adjustment_qty: i64, allow_negative: bool) -> (r: Result<StockBalance, AppError>)
    requires
        adjustment_qty != 0,
        fits(row_of(row).on_hand + adjustment_qty),
    ensures
        adjust_outcome(row, adjustment_qty, allow_negative, r),
{
    if adjustment_qty < 0 {
        let on_hand = match row {
            Some(b) => b.on_hand,
            None => 0,
        };
        if !allow_negative && magnitude_of(adjustment_qty) > on_hand {
            let mut m = owned("adjustment of ");
            m.append(int_text(adjustment_qty).as_str());
            m.append(" would put stock below zero (on hand: ");
            m.append(int_text(on_hand).as_str());
            m.append(")");
            return Err(AppError::InsufficientStock(m));
        }
    }
    Ok(apply_on_hand_delta(row, adjustment_qty))
}

/// What an adjustment does to the FIFO cost layers.
#[derive(Debug)]
pub enum LayerEffect {
    /// A new layer of this many units at this unit cost.
    Post(i64, i64),
    /// This many units leave the oldest layers.
    Withdraw(i64),
    Untouched,
}

/// An increase with a positive cost posts a layer; a decrease withdraws its
/// magnitude; an increase at zero cost leaves the layers alone.
pub fn adjust_layer_effect(adjustment_qty: i64, unit_cost: i64) -> (r: LayerEffect)
    ensures
        adjustment_qty > 0 && unit_cost > 0 ==> r == LayerEffect::Post(adjustment_qty, unit_cost),
        adjustment_qty < 0 ==> r == LayerEffect::Withdraw(magnitude(adjustment_qty) as i64),
        adjustment_qty >= 0 && !(adjustment_qty > 0 && unit_cost > 0) ==> r == LayerEffect::Untouched,
{
    if adjustment_qty > 0 && unit_cost > 0 {
        LayerEffect::Post(adjustment_qty, unit_cost)
    } else if adjustment_qty < 0 {
        LayerEffect::Withdraw(magnitude_of(adjustment_qty))
    } else {
        LayerEffect::Untouched
    }
}

/// What marking `quantity` units damaged answers: more than on hand is
/// refused; otherwise an existing row moves them to damaged.
pub open spec fn damage_outcome(row: Option<StockBalance>, quantity: int, r: Result<Option<StockBalance>, AppError>) -> bool {
    &&& r is Err <==> quantity > row_of(row).on_hand
    &&& r matches Err(e) ==> e matches AppError::InsufficientStock(m) && m@ == "cannot mark "@
        + num_text(quantity) + " as damaged: only "@ + num_text(row_of(row).on_hand as int)
        + " on hand"@
    &&& r matches Ok(n) ==> match row {
        Some(b) => n == Some(damaged_balance(b, quantity)),
        None => n is None,
    }
}

/// Marking units damaged: at most the units on hand; they leave on hand
/// (floored at zero) and join the damaged units. A missing row stays missing.
pub fn plan_damage(row: Option<StockBalance>, quantity: i64) -> (r: Result<Option<StockBalance>, AppError>)
    requires
        quantity > 0,
        fits(row_of(row).damaged + quantity),
    ensures
        damage_outcome(row, quantity as int, r),
{
    let on_hand = match row {
        Some(b) => b.on_hand,
        None => 0,
    };
    if quantity > on_hand {
        let mut m = owned("cannot mark ");
        m.append(int_text(quantity).as_str());
        m.append(" as damaged: only ");
        m.append(int_text(on_hand).as_str());
        m.append(" on hand");
        return Err(AppError::InsufficientStock(m));
    }
    match row {
        None => Ok(None),
        Some(b) => {
            let left = b.on_hand - quantity;
            Ok(Some(StockBalance { on_hand: if left > 0 { left } else { 0 }, damaged: b.damaged + quantity, ..b }))
        },
    }
}

/// What recovering `quantity` repaired units answers: more than damaged is
/// refused; otherwise an existing row moves them back to on hand.
pub open spec fn repair_outcome(row: Option<StockBalance>, quantity: int, r: Result<Option<StockBalance>, AppError>) -> bool {
    &&& r is Err <==> quantity > row_of(row).damaged
    &&& r matches Err(e) ==> e matches AppError::InsufficientStock(m) && m@ == "cannot recover "@
        + num_text(quantity) + " from damaged: only "@ + num_text(row_of(row).damaged as int)
        + " damaged"@
    &&& r matches Ok(n) ==> match row {
        Some(b) => n == Some(repaired_balance(b, quantity)),
        None => n is None,
    }
}

/// Recovering repaired units: at most the damaged units; they leave damaged
/// (floored at zero) and return to on hand.
pub fn plan_repair(row: Option<StockBalance>, quantity: i64) -> (r: Result<Option<StockBalance>, AppError>)
    requires
        quantity > 0,
        fits(row_of(row).on_hand + quantity),
    ensures
        repair_outcome(row, quantity as int, r),
{
    let damaged = match row {
        Some(b) => b.damaged,
        None => 0,
    };
    if quantity > damaged {
        let mut m = owned("cannot recover ");
        m.append(int_text(quantity).as_str());
        m.append(" from damaged: only ");
        m.append(int_text(damaged).as_str());
        m.append(" damaged");
        return Err(AppError::InsufficientStock(m));
    }
    match row {
        None => Ok(None),
        Some(b) => {
            let left = b.damaged - quantity;
            Ok(Some(StockBalance { damaged: if left > 0 { left } else { 0 }, on_hand: b.on_hand + quantity, ..b }))
        },
    }
}

/// What reserving `quantity` units answers: unless negative stock is allowed,
/// more than the reservable units is refused; otherwise an existing row gains
/// the reservation.
pub open spec fn reserve_outcome(row: Option<StockBalance>, quantity: int, allow_negative: bool,
    r: Result<Option<StockBalance>, AppError>) -> bool {
    &&& r is Err <==> (!allow_negative && quantity > reservable_units(row_of(row)))
    &&& r matches Err(e) ==> e matches AppError::InsufficientStock(m) && m@ == "cannot reserve "@
        + num_text(quantity) + ": only "@ + num_text(reservable_units(row_of(row)))
        + " available"@
    &&& r matches Ok(n) ==> match row {
        Some(b) => n == Some(reserved_balance(b, quantity)),
        None => n is None,
    }
}

/// Reserving units for a customer: unless negative stock is allowed, at most
/// the units on hand that are not already reserved. An existing row gains the
/// reservation; a missing row stays missing.
pub fn plan_reserve(row: Option<StockBalance>, quantity: i64, allow_negative: bool) -> (r: Result<Option<StockBalance>, AppError>)
    requires
        quantity > 0,
        sane(row_of(row)),
        fits(row_of(row).reserved + quantity),
    ensures
        reserve_outcome(row, quantity as int, allow_negative, r),
{
    let (on_hand, reserved) = match row {
        Some(b) => (b.on_hand, b.reserved),
        None => (0, 0),
    };
    let available = on_hand - reserved;
    if !allow_negative && quantity > available {
        let mut m = owned("cannot reserve ");
        m.append(int_text(quantity).as_str());
        m.append(": only ");
        m.append(int_text(available).as_str());
        m.append(" available");
        return Err(AppError::InsufficientStock(m));
    }
    match row {
        Some(b) => Ok(Some(StockBalance { reserved: b.reserved + quantity, ..b })),
        None => Ok(None),
    }
}

/// What releasing `quantity` reserved units answers: more than reserved is
/// refused; otherwise an existing row's reservation shrinks.
pub open spec fn release_outcome(row: Option<StockBalance>, quantity: int, r: Result<Option<StockBalance>, AppError>) -> bool {
    &&& r is Err <==> quantity > row_of(row).reserved
    &&& r matches Err(e) ==> e matches AppError::InsufficientStock(m) && m@ == "cannot release "@
        + num_text(quantity) + ": only "@ + num_text(row_of(row).reserved as int)
        + " reserved"@
    &&& r matches Ok(n) ==> match row {
        Some(b) => n == Some(released_balance(b, quantity)),
        None => n is None,
    }
}

/// Releasing a reservation: at most the reserved units; the reservation shrinks
/// (floored at zero).
pub fn plan_release(row: Option<StockBalance>, quantity: i64) -> (r: Result<Option<StockBalance>, AppError>)
    requires
        quantity > 0,
    ensures
        release_outcome(row, quantity as int, r),
{
    let reserved = match row {
        Some(b) => b.reserved,
        None => 0,
    };
    if quantity > reserved {
        let mut m = owned("cannot release ");
        m.append(int_text(quantity).as_str());
        m.append(": only ");
        m.append(int_text(reserved).as_str());
        m.append(" reserved");
        return Err(AppError::InsufficientStock(m));
    }
    match row {
        None => Ok(None),
        Some(b) => {
            let left = b.reserved - quantity;
            Ok(Some(StockBalance { reserved: if left > 0 { left } else { 0 }, ..b }))
        },
    }
}

/// Reversing a movement: a movement that is itself marked reversed, or that a
/// reversal already points to, is refused; otherwise the reversal posts the
/// opposite quantity.
pub fn plan_reversal(movement_id: i64, existing_reversal: Option<i64>, already_reversed: bool, original_delta: i64) -> (r: Result<i64, AppError>)
    requires
        original_delta != i64::MIN,
    ensures
        r is Err <==> (existing_reversal is Some || already_reversed),
        r matches Err(e) ==> e matches AppError::Validation(m) && m@ == "movement "@
            + num_text(movement_id as int) + " has already been reversed"@,
        r matches Ok(d) ==> d == -original_delta,
{
    if existing_reversal.is_some() || already_reversed {
        let mut m = owned("movement ");
        m.append(int_text(movement_id).as_str());
        m.append(" has already been reversed");
        return Err(AppError::Validation(m));
    }
    Ok(-original_delta)
}

/// Count variance of one line: counted less expected.
pub fn count_variance(expected_qty: i64, counted_qty: i64) -> (r: i64)
    requires
        fits(counted_qty - expected_qty),
    ensures
        r == counted_qty - expected_qty,
{
    counted_qty - expected_qty
}

/// A count session can be opened at a location only while no other one is open
/// there.
pub fn check_no_open_count(open_session: Option<i64>) -> (r: Result<(), AppError>)
    ensures
        r is Ok <==> open_session is None,
        r matches Err(e) ==> open_session matches Some(id) && e matches AppError::Validation(m) && m@
            == "a count session ("@ + num_text(id as int) + ") is already open at this location"@,
{
    match open_session {
        Some(id) => {
            let mut m = owned("a count session (");
            m.append(int_text(id).as_str());
            m.append(") is already open at this location");
            Err(AppError::Validation(m))
        },
        None => Ok(()),
    }
}

// ---------------------------------------------------------------------------
// Laws of the stock ledger
// ---------------------------------------------------------------------------

/// A transfer neither creates nor destroys stock: the units on hand at the two
/// locations add up to the same total before and after, and reserved and
/// damaged units do not move.
pub proof fn law_transfer_conserves_stock(from: Option<StockBalance>, to: Option<StockBalance>, quantity: int)
    requires
        fits(row_of(from).on_hand - quantity),
        fits(row_of(to).on_hand + quantity),
    ensures
        with_on_hand_delta(from, -quantity).on_hand + with_on_hand_delta(to, quantity).on_hand
            == row_of(from).on_hand + row_of(to).on_hand,
        with_on_hand_delta(from, -quantity).reserved == row_of(from).reserved,
        with_on_hand_delta(from, -quantity).damaged == row_of(from).damaged,
        with_on_hand_delta(to, quantity).reserved == row_of(to).reserved,
        with_on_hand_delta(to, quantity).damaged == row_of(to).damaged,
{
}

/// Without negative stock, a transfer that is accepted leaves the source with
/// no fewer than zero free units.
pub proof fn law_transfer_keeps_source_free_units(from: Option<StockBalance>, quantity: int)
    requires
        quantity <= free_units(row_of(from)),
        fits(row_of(from).on_hand - quantity),
    ensures
        free_units(with_on_hand_delta(from, -quantity)) >= 0,
        free_units(with_on_hand_delta(from, -quantity)) == free_units(row_of(from)) - quantity,
{
}

/// Only free units leave a location: without negative stock, a transfer of
/// more than the source's on-hand units less its reserved and damaged units is
/// refused, and an accepted one takes exactly the quantity off the source and
/// adds it to the destination, leaving the source with at least as many units
/// on hand as it has reserved and damaged.
pub proof fn law_transfer_moves_only_free_units(from: Option<StockBalance>, to: Option<StockBalance>, quantity: int,
    r: Result<(StockBalance, StockBalance), AppError>)
    requires
        quantity > 0,
        fits(row_of(from).on_hand - quantity),
        fits(row_of(to).on_hand + quantity),
        transfer_outcome(from, to, quantity, false, r),
    ensures
        quantity > row_of(from).on_hand - row_of(from).reserved - row_of(from).damaged ==> r is Err,
        quantity <= row_of(from).on_hand - row_of(from).reserved - row_of(from).damaged ==> r is Ok,
        r matches Ok((f, t)) ==> {
            &&& f.on_hand == row_of(from).on_hand - quantity
            &&& t.on_hand == row_of(to).on_hand + quantity
            &&& f.reserved == row_of(from).reserved && f.damaged == row_of(from).damaged
            &&& f.on_hand >= f.reserved + f.damaged
        },
{
}

/// A reservation never takes units already reserved: without negative stock,
/// reserving more than on hand less reserved is refused, and an accepted
/// reservation adds exactly the quantity to the reserved units, leaves on hand
/// alone, and never leaves more reserved than on hand.
pub proof fn law_reservation_stays_within_stock(b: StockBalance, quantity: int, r: Result<Option<StockBalance>, AppError>)
    requires
        quantity > 0,
        fits(b.reserved + quantity),
        reserve_outcome(Some(b), quantity, false, r),
    ensures
        quantity > b.on_hand - b.reserved ==> r is Err,
        quantity <= b.on_hand - b.reserved ==> r is Ok,
        r matches Ok(Some(n)) ==> n.reserved == b.reserved + quantity && n.on_hand == b.on_hand
            && n.damaged == b.damaged && n.reserved <= n.on_hand,
{
}

/// Releasing q reserved units (at most those reserved) takes exactly q off
/// the reservation and leaves on hand and damaged units alone; releasing more
/// than is reserved is refused.
pub proof fn law_release_frees_reserved_units(b: StockBalance, quantity: int, r: Result<Option<StockBalance>, AppError>)
    requires
        quantity > 0,
        release_outcome(Some(b), quantity, r),
    ensures
        quantity > b.reserved ==> r is Err,
        quantity <= b.reserved ==> (r matches Ok(Some(n)) && n.reserved == b.reserved - quantity
            && n.on_hand == b.on_hand && n.damaged == b.damaged),
{
}

/// An adjustment moves on hand by exactly its quantity and touches nothing
/// else; without negative stock, taking out more than is on hand is refused,
/// so an accepted adjustment never takes a non-negative on hand below zero.
/// (An adjustment of `i64::MIN` is left out: its magnitude, as `unsigned_abs` reads it back into `i64`,
/// wraps to a negative number and is never refused.)
pub proof fn law_adjustment_moves_on_hand(row: Option<StockBalance>, adjustment_qty: i64, r: Result<StockBalance, AppError>)
    requires
        adjustment_qty != 0,
        adjustment_qty != i64::MIN,
        fits(row_of(row).on_hand + adjustment_qty),
        adjust_outcome(row, adjustment_qty, false, r),
    ensures
        adjustment_qty > 0 ==> r is Ok,
        adjustment_qty < 0 && row_of(row).on_hand + adjustment_qty < 0 ==> r is Err,
        adjustment_qty < 0 && row_of(row).on_hand + adjustment_qty >= 0 ==> r is Ok,
        r matches Ok(b) ==> b.on_hand == row_of(row).on_hand + adjustment_qty && b.reserved == row_of(row).reserved
            && b.damaged == row_of(row).damaged,
        row_of(row).on_hand >= 0 ==> (r matches Ok(b) ==> b.on_hand >= 0),
{
}

/// Damage and repair move units between on hand and damaged: marking q units
/// damaged (at most those on hand) takes q off on hand and adds q to damaged;
/// recovering q repaired units (at most those damaged) takes q off damaged and
/// adds q to on hand. Either way on hand plus damaged is unchanged.
pub proof fn law_damage_and_repair_move_units(b: StockBalance, quantity: int,
    marked: Result<Option<StockBalance>, AppError>, repaired: Result<Option<StockBalance>, AppError>)
    requires
        quantity > 0,
        b.damaged >= 0,
        fits(b.damaged + quantity),
        fits(b.on_hand + quantity),
        damage_outcome(Some(b), quantity, marked),
        repair_outcome(Some(b), quantity, repaired),
    ensures
        quantity <= b.on_hand ==> (marked matches Ok(Some(n)) && n.on_hand == b.on_hand - quantity
            && n.damaged == b.damaged + quantity && n.on_hand + n.damaged == b.on_hand + b.damaged
            && n.reserved == b.reserved),
        quantity > b.on_hand ==> marked is Err,
        quantity <= b.damaged ==> (repaired matches Ok(Some(n)) && n.on_hand == b.on_hand + quantity
            && n.damaged == b.damaged - quantity && n.on_hand + n.damaged == b.on_hand + b.damaged
            && n.reserved == b.reserved),
        quantity > b.damaged ==> repaired is Err,
{
}

/// Repairing exactly the units that were just marked damaged gives the row
/// back unchanged (the damage was accepted, so the units were on hand).
pub proof fn law_repair_undoes_damage(b: StockBalance, quantity: int)
    requires
        0 < quantity <= b.on_hand,
        b.damaged >= 0,
        fits(b.damaged + quantity),
    ensures
        quantity <= damaged_balance(b, quantity).damaged,
        repaired_balance(damaged_balance(b, quantity), quantity) == b,
{
}

/// Releasing exactly the units that were just reserved gives the row back
/// unchanged.
pub proof fn law_release_undoes_reserve(b: StockBalance, quantity: int)
    requires
        0 < quantity,
        b.reserved >= 0,
        fits(b.reserved + quantity),
    ensures
        quantity <= reserved_balance(b, quantity).reserved,
        released_balance(reserved_balance(b, quantity), quantity) == b,
{
}

/// A reversal posts the opposite of the original quantity, so applying a
/// movement and then its reversal leaves on hand where it was.
pub proof fn law_reversal_restores_on_hand(row: Option<StockBalance>, delta: int)
    requires
        fits(row_of(row).on_hand + delta),
    ensures
        with_on_hand_delta(Some(with_on_hand_delta(row, delta)), -delta) == row_of(row),
{
}

// ---------------------------------------------------------------------------
// FIFO cost layers
// ---------------------------------------------------------------------------

/// One FIFO cost layer: units still in it and their unit cost.
#[derive(Debug, Clone, Copy, PartialEq, Eq, Structural)]
pub struct CostLayer {
    pub id: i64,
    pub quantity: i64,
    pub unit_cost_minor: i64,
}

/// Sum of the first `n` elements of `s`.
pub open spec fn sum_upto(s: Seq<int>, n: int) -> int
    decreases n,
{
    if n <= 0 {
        0
    } else {
        sum_upto(s, n - 1) + s[n - 1]
    }
}

/// Sum of `t[j] * c[j]` over the first `n` indices.
pub open spec fn cost_upto(t: Seq<int>, c: Seq<int>, n: int) -> int
    decreases n,
{
    if n <= 0 {
        0
    } else {
        cost_upto(t, c, n - 1) + t[n - 1] * c[n - 1]
    }
}

/// `need` limited to `0..=cap`.
pub open spec fn clamp(need: int, cap: int) -> int {
    if need <= 0 { 0 } else if need < cap { need } else { cap }
}

/// Units the oldest-first withdrawal of `need` units takes from layer `i`:
/// whatever of the need the older layers have not covered, up to the layer's
/// own units.
pub open spec fn fifo_take(qs: Seq<int>, need: int, i: int) -> int {
    let rem = need - sum_upto(qs, i);
    if rem <= 0 { 0 } else if qs[i] < rem { qs[i] } else { rem }
}

pub open spec fn fifo_takes(qs: Seq<int>, need: int) -> Seq<int> {
    Seq::new(qs.len(), |i: int| fifo_take(qs, need, i))
}

pub open spec fn layer_qtys(layers: Seq<CostLayer>) -> Seq<int> {
    layers.map_values(|l: CostLayer| l.quantity as int)
}

pub open spec fn layer_costs(layers: Seq<CostLayer>) -> Seq<int> {
    layers.map_values(|l: CostLayer| l.unit_cost_minor as int)
}

/// Layers as `withdraw_cost_layers` reads them: positive quantities whose
/// total fits a 64-bit integer.
pub open spec fn layers_ok(layers: Seq<CostLayer>) -> bool {
    &&& forall|i: int| 0 <= i < layers.len() ==> (#[trigger] layers[i]).quantity > 0
    &&& sum_upto(layer_qtys(layers), layers.len() as int) <= i64::MAX
}

/// The 64-bit running cost of a withdrawal of `need` units never overflows:
/// each layer's taken cost and every running total fit.
pub open spec fn withdrawal_costs_fit(layers: Seq<CostLayer>, need: int) -> bool {
    &&& forall|k: int| 0 <= k < layers.len() ==> fits(#[trigger] fifo_take(layer_qtys(layers), need, k) * layers[k].unit_cost_minor)
    &&& forall|n: int| 0 <= n <= layers.len() ==> fits(#[trigger] cost_upto(fifo_takes(layer_qtys(layers), need), layer_costs(layers), n))
}

/// Units a withdrawal of `need` takes from `layers` in all.
pub open spec fn fifo_taken(layers: Seq<CostLayer>, need: int) -> int {
    sum_upto(fifo_takes(layer_qtys(layers), need), layers.len() as int)
}

/// Cost of the units a withdrawal of `need` takes from `layers`.
pub open spec fn fifo_cost(layers: Seq<CostLayer>, need: int) -> int {
    cost_upto(fifo_takes(layer_qtys(layers), need), layer_costs(layers), layers.len() as int)
}

/// Result of a FIFO withdrawal: the units taken from each layer (same order),
/// and the average unit cost of what was taken, if anything was.
#[derive(Debug)]
pub struct Withdrawal {
    pub takes: Vec<i64>,
    pub average_cost: Option<i64>,
}

pub(crate) proof fn lemma_sum_mono(q: Seq<int>, i: int, j: int)
    requires
        0 <= i <= j <= q.len(),
        forall|k: int| 0 <= k < q.len() ==> q[k] >= 0,
    ensures
        sum_upto(q, i) <= sum_upto(q, j),
        sum_upto(q, i) >= 0,
    decreases j,
{
    if j > i {
        lemma_sum_mono(q, i, j - 1);
    } else if i > 0 {
        lemma_sum_mono(q, 0, i - 1);
        lemma_sum_mono(q, i - 1, i - 1);
    }
}

pub(crate) proof fn lemma_taken_upto(qs: Seq<int>, need: int, n: int)
    requires
        0 <= n <= qs.len(),
        forall|k: int| 0 <= k < qs.len() ==> qs[k] > 0,
    ensures
        sum_upto(fifo_takes(qs, need), n) == clamp(need, sum_upto(qs, n)),
    decreases n,
{
    if n > 0 {
        lemma_taken_upto(qs, need, n - 1);
        lemma_sum_mono(qs, 0, n - 1);
    }
}

/// Withdraw `need` units from the oldest layers first. Each layer gives what it
/// has, up to what is still needed; the average cost is the taken cost divided
/// by the taken units (`None` when there are no layers or nothing was taken).
pub fn withdraw_fifo(layers: &Vec<CostLayer>, need: i64) -> (w: Withdrawal)
    requires
        layers_ok(layers@),
        withdrawal_costs_fit(layers@, need as int),
    ensures
        w.takes.len() == layers.len(),
        forall|i: int| 0 <= i < layers.len() ==> w.takes@[i] == fifo_take(layer_qtys(layers@), need as int, i),
        fifo_taken(layers@, need as int) == clamp(need as int, sum_upto(layer_qtys(layers@), layers.len() as int)),
        w.average_cost == if layers.len() == 0 || fifo_taken(layers@, need as int) == 0 {
            None::<i64>
        } else {
            Some(crate::fulfilment::tdiv(fifo_cost(layers@, need as int), fifo_taken(layers@, need as int)) as i64)
        },
{
    let ghost qs = layer_qtys(layers@);
    let ghost cs = layer_costs(layers@);
    let ghost ft = fifo_takes(qs, need as int);
    let ghost n = layers.len() as int;
    proof {
        assert forall|k: int| 0 <= k < qs.len() implies qs[k] > 0 by {
            assert(qs[k] == layers@[k].quantity);
        }
        assert forall|k: int| 0 <= k < ft.len() implies 0 <= #[trigger] ft[k] <= qs[k] by {
            assert(ft[k] == fifo_take(qs, need as int, k));
        }
        lemma_taken_upto(qs, need as int, n);
        lemma_sum_mono(qs, 0, n);
    }
    let mut takes: Vec<i64> = Vec::new();
    let mut total_cost: i64 = 0;
    let mut total_qty: i64 = 0;
    let mut left: i64 = need;
    let mut i: usize = 0;
    while i < layers.len()
        invariant
            i <= layers.len(),
            n == layers.len(),
            qs == layer_qtys(layers@),
            cs == layer_costs(layers@),
            ft == fifo_takes(qs, need as int),
            layers_ok(layers@),
            withdrawal_costs_fit(layers@, need as int),
            forall|k: int| 0 <= k < qs.len() ==> qs[k] > 0,
            forall|k: int| 0 <= k < ft.len() ==> 0 <= #[trigger] ft[k] <= qs[k],
            takes.len() == i,
            forall|k: int| 0 <= k < i ==> takes@[k] == ft[k],
            total_qty == sum_upto(ft, i as int),
            total_qty == clamp(need as int, sum_upto(qs, i as int)),
            total_cost == cost_upto(ft, cs, i as int),
            left == need - total_qty,
        decreases layers.len() - i,
    {
        let avail = layers[i].quantity;
        let take: i64 = if left <= 0 { 0 } else if avail < left { avail } else { left };
        proof {
            lemma_taken_upto(qs, need as int, i + 1);
            lemma_sum_mono(qs, i as int, n);
            lemma_sum_mono(qs, i + 1, n);
            assert(qs[i as int] == avail);
            assert(take == ft[i as int]);
            assert(cs[i as int] == layers@[i as int].unit_cost_minor);
            assert(fits(fifo_take(qs, need as int, i as int) * layers@[i as int].unit_cost_minor));
            assert(cost_upto(ft, cs, i + 1) == total_cost + take * layers@[i as int].unit_cost_minor);
            assert(fits(cost_upto(ft, cs, i + 1)));
        }
        total_cost = total_cost + take * layers[i].unit_cost_minor;
        total_qty = total_qty + take;
        left = left - take;
        takes.push(take);
        i += 1;
    }
    assert forall|k: int| 0 <= k < layers.len() implies takes@[k] == fifo_take(layer_qtys(layers@), need as int, k) by {
        assert(ft[k] == fifo_take(qs, need as int, k));
    }
    if layers.len() == 0 || total_qty == 0 {
        Withdrawal { takes, average_cost: None }
    } else {
        let avg = crate::fulfilment::div_toward_zero(total_cost as i128, total_qty as i128);
        assert(crate::fulfilment::abs(avg as int) <= crate::fulfilment::abs(total_cost as int)) by (nonlinear_arith)
            requires avg == crate::fulfilment::tdiv(total_cost as int, total_qty as int), total_qty >= 1;
        Withdrawal { takes, average_cost: Some(avg as i64) }
    }
}

// ---------------------------------------------------------------------------
// Movement numbers
// ---------------------------------------------------------------------------

/// `format!("{prefix}-{seq:06}")`.
pub open spec fn move_number_text(prefix: Seq<char>, seq: int) -> Seq<char> {
    prefix + seq!['-'] + fmt_padded(seq, 6)
}

/// Number of a stock movement at a location: its kind prefix (`OPN`, `TRF`,
/// `ADJ`, ...) and the location's sequence value padded to six digits.
pub fn move_number(prefix: &str, seq: i64) -> (r: String)
    ensures
        r@ == move_number_text(prefix@, seq as int),
{
    let mut out = owned(prefix);
    out.append("-");
    let digits = format_padded(seq, 6);
    out.append(digits.as_str());
    proof {
        reveal_strlit("-");
        assert(out@ =~= move_number_text(prefix@, seq as int));
    }
    out
}

} // verus!
