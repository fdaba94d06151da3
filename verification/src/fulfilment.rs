//! Deliveries, sales returns with their refunds, and damage records: what each
//! step checks and what it computes.
use vstd::prelude::*;
use crate::error::{AppError, kind_and_message, validation};
use crate::inventory::fits;
use crate::text::{int_text, is_blank, num_text, owned, str_eq, str_is_blank};

verus! {

// ---------------------------------------------------------------------------
// Delivery lifecycle
// ---------------------------------------------------------------------------

#[derive(Debug, Clone, Copy, PartialEq, Eq, Structural)]
pub enum DeliveryStatus {
    Pending,
    Ready,
    Dispatched,
    Delivered,
    Failed,
    Cancelled,
}

#[derive(Debug, Clone, Copy, PartialEq, Eq, Structural)]
pub enum DeliveryAction {
    Ready,
    Dispatch,
    Deliver,
    Fail,
    Cancel,
    Reschedule,
}

pub open spec fn status_text(s: DeliveryStatus) -> Seq<char> {
    match s {
        DeliveryStatus::Pending => "pending"@,
        DeliveryStatus::Ready => "ready"@,
        DeliveryStatus::Dispatched => "dispatched"@,
        DeliveryStatus::Delivered => "delivered"@,
        DeliveryStatus::Failed => "failed"@,
        DeliveryStatus::Cancelled => "cancelled"@,
    }
}

pub open spec fn action_text(a: DeliveryAction) -> Seq<char> {
    match a {
        DeliveryAction::Ready => "ready"@,
        DeliveryAction::Dispatch => "dispatched"@,
        DeliveryAction::Deliver => "delivered"@,
        DeliveryAction::Fail => "failed"@,
        DeliveryAction::Cancel => "cancelled"@,
        DeliveryAction::Reschedule => "reschedule"@,
    }
}

/// The stored status a text names, if any.
pub fn parse_delivery_status(s: &str) -> (r: Option<DeliveryStatus>)
    ensures
        r matches Some(st) ==> status_text(st) == s@,
        r is None ==> forall|st: DeliveryStatus| status_text(st) != s@,
{
    if str_eq(s, "pending") {
        Some(DeliveryStatus::Pending)
    } else if str_eq(s, "ready") {
        Some(DeliveryStatus::Ready)
    } else if str_eq(s, "dispatched") {
        Some(DeliveryStatus::Dispatched)
    } else if str_eq(s, "delivered") {
        Some(DeliveryStatus::Delivered)
    } else if str_eq(s, "failed") {
        Some(DeliveryStatus::Failed)
    } else if str_eq(s, "cancelled") {
        Some(DeliveryStatus::Cancelled)
    } else {
        None
    }
}

/// The action a text names, if any.
pub fn parse_delivery_action(s: &str) -> (r: Option<DeliveryAction>)
    ensures
        r matches Some(a) ==> action_text(a) == s@,
        r is None ==> forall|a: DeliveryAction| action_text(a) != s@,
{
    if str_eq(s, "ready") {
        Some(DeliveryAction::Ready)
    } else if str_eq(s, "dispatched") {
        Some(DeliveryAction::Dispatch)
    } else if str_eq(s, "delivered") {
        Some(DeliveryAction::Deliver)
    } else if str_eq(s, "failed") {
        Some(DeliveryAction::Fail)
    } else if str_eq(s, "cancelled") {
        Some(DeliveryAction::Cancel)
    } else if str_eq(s, "reschedule") {
        Some(DeliveryAction::Reschedule)
    } else {
        None
    }
}

/// The status an action leads to from the current one, if the lifecycle
/// allows it: pending → ready → dispatched → delivered; an open delivery can
/// fail; a pending, ready or failed one can be cancelled or rescheduled (back
/// to pending).
pub open spec fn next_status(current: DeliveryStatus, action: DeliveryAction) -> Option<DeliveryStatus> {
    match action {
        DeliveryAction::Ready => if current == DeliveryStatus::Pending { Some(DeliveryStatus::Ready) } else { None },
        DeliveryAction::Dispatch => if current == DeliveryStatus::Ready { Some(DeliveryStatus::Dispatched) } else { None },
        DeliveryAction::Deliver => if current == DeliveryStatus::Dispatched { Some(DeliveryStatus::Delivered) } else { None },
        DeliveryAction::Fail => if current == DeliveryStatus::Pending || current == DeliveryStatus::Ready
            || current == DeliveryStatus::Dispatched { Some(DeliveryStatus::Failed) } else { None },
        DeliveryAction::Cancel => if current == DeliveryStatus::Pending || current == DeliveryStatus::Ready
            || current == DeliveryStatus::Failed { Some(DeliveryStatus::Cancelled) } else { None },
        DeliveryAction::Reschedule => if current == DeliveryStatus::Pending || current == DeliveryStatus::Ready
            || current == DeliveryStatus::Failed { Some(DeliveryStatus::Pending) } else { None },
    }
}

/// Decide a delivery transition: the new status when the lifecycle allows the
/// action from the stored status (a reschedule must also name a non-blank
/// date); any other request is a conflict.
pub fn transition_delivery(delivery_id: i64, current: &str, action: &str, scheduled_at: &Option<String>) -> (r: Result<DeliveryStatus, AppError>)
    ensures
        match (parse_status_spec(current@), parse_action_spec(action@)) {
            (Some(c), Some(a)) => match next_status(c, a) {
                Some(n) => if a == DeliveryAction::Reschedule && !date_given(*scheduled_at) {
                    r matches Err(AppError::Validation(m)) && m@ == "reschedule requires a scheduled_at date"@
                } else {
                    r == Ok::<DeliveryStatus, AppError>(n)
                },
                None => r matches Err(AppError::Conflict(m)) && m@ == transition_refused(delivery_id, current@, action@),
            },
            _ => r matches Err(AppError::Conflict(m)) && m@ == transition_refused(delivery_id, current@, action@),
        },
{
    let c = parse_delivery_status(current);
    let a = parse_delivery_action(action);
    proof {
        lemma_parse_status(current@, c);
        lemma_parse_action(action@, a);
    }
    match (c, a) {
        (Some(c), Some(a)) => {
            let next = match a {
                DeliveryAction::Ready => if c == DeliveryStatus::Pending { Some(DeliveryStatus::Ready) } else { None },
                DeliveryAction::Dispatch => if c == DeliveryStatus::Ready { Some(DeliveryStatus::Dispatched) } else { None },
                DeliveryAction::Deliver => if c == DeliveryStatus::Dispatched { Some(DeliveryStatus::Delivered) } else { None },
                DeliveryAction::Fail => if c == DeliveryStatus::Pending || c == DeliveryStatus::Ready
                    || c == DeliveryStatus::Dispatched { Some(DeliveryStatus::Failed) } else { None },
                DeliveryAction::Cancel => if c == DeliveryStatus::Pending || c == DeliveryStatus::Ready
                    || c == DeliveryStatus::Failed { Some(DeliveryStatus::Cancelled) } else { None },
                DeliveryAction::Reschedule => if c == DeliveryStatus::Pending || c == DeliveryStatus::Ready
                    || c == DeliveryStatus::Failed { Some(DeliveryStatus::Pending) } else { None },
            };
            match next {
                None => Err(transition_conflict(delivery_id, current, action)),
                Some(n) => {
                    if a == DeliveryAction::Reschedule {
                        let given = match scheduled_at {
                            Some(d) => !str_is_blank(d.as_str()),
                            None => false,
                        };
                        if !given {
                            return Err(validation("reschedule requires a scheduled_at date"));
                        }
                    }
                    Ok(n)
                },
            }
        },
        _ => Err(transition_conflict(delivery_id, current, action)),
    }
}

/// `delivery id cannot transition from 'current' via 'action'`.
pub open spec fn transition_refused(delivery_id: i64, current: Seq<char>, action: Seq<char>) -> Seq<char> {
    "delivery "@ + num_text(delivery_id as int) + " cannot transition from '"@ + current + "' via '"@
        + action + "'"@
}

fn transition_conflict(delivery_id: i64, current: &str, action: &str) -> (e: AppError)
    ensures
        e matches AppError::Conflict(m) && m@ == transition_refused(delivery_id, current@, action@),
{
    let mut m = owned("delivery ");
    m.append(int_text(delivery_id).as_str());
    m.append(" cannot transition from '");
    m.append(current);
    m.append("' via '");
    m.append(action);
    m.append("'");
    AppError::Conflict(m)
}

pub open spec fn date_given(d: Option<String>) -> bool {
    match d {
        Some(s) => !is_blank(s@),
        None => false,
    }
}

pub open spec fn parse_status_spec(s: Seq<char>) -> Option<DeliveryStatus> {
    if exists|st: DeliveryStatus| status_text(st) == s {
        Some(choose|st: DeliveryStatus| status_text(st) == s)
    } else {
        None
    }
}

pub open spec fn parse_action_spec(s: Seq<char>) -> Option<DeliveryAction> {
    if exists|a: DeliveryAction| action_text(a) == s {
        Some(choose|a: DeliveryAction| action_text(a) == s)
    } else {
        None
    }
}

proof fn lemma_status_texts_distinct(a: DeliveryStatus, b: DeliveryStatus)
    ensures
        status_text(a) == status_text(b) ==> a == b,
{
    reveal_strlit("pending");
    reveal_strlit("ready");
    reveal_strlit("dispatched");
    reveal_strlit("delivered");
    reveal_strlit("failed");
    reveal_strlit("cancelled");
    if status_text(a) == status_text(b) && a != b {
        assert(status_text(a).len() != status_text(b).len() || status_text(a)[0] != status_text(b)[0]
            || status_text(a)[1] != status_text(b)[1] || status_text(a)[2] != status_text(b)[2]);
    }
}

proof fn lemma_action_texts_distinct(a: DeliveryAction, b: DeliveryAction)
    ensures
        action_text(a) == action_text(b) ==> a == b,
{
    reveal_strlit("ready");
    reveal_strlit("dispatched");
    reveal_strlit("delivered");
    reveal_strlit("failed");
    reveal_strlit("cancelled");
    reveal_strlit("reschedule");
    if action_text(a) == action_text(b) && a != b {
        assert(action_text(a).len() != action_text(b).len() || action_text(a)[0] != action_text(b)[0]
            || action_text(a)[1] != action_text(b)[1] || action_text(a)[2] != action_text(b)[2]);
    }
}

proof fn lemma_parse_status(s: Seq<char>, r: Option<DeliveryStatus>)
    requires
        r matches Some(st) ==> status_text(st) == s,
        r is None ==> forall|st: DeliveryStatus| status_text(st) != s,
    ensures
        parse_status_spec(s) == r,
{
    if let Some(st) = r {
        let c = choose|x: DeliveryStatus| status_text(x) == s;
        lemma_status_texts_distinct(c, st);
    }
}

proof fn lemma_parse_action(s: Seq<char>, r: Option<DeliveryAction>)
    requires
        r matches Some(a) ==> action_text(a) == s,
        r is None ==> forall|a: DeliveryAction| action_text(a) != s,
    ensures
        parse_action_spec(s) == r,
{
    if let Some(a) = r {
        let c = choose|x: DeliveryAction| action_text(x) == s;
        lemma_action_texts_distinct(c, a);
    }
}

/// The delivery lifecycle: each action is allowed from exactly these states
/// and leads to exactly this one. A pending delivery becomes ready, a ready
/// one is dispatched, a dispatched one is delivered; any delivery not yet
/// delivered, cancelled or failed can fail; only a pending, ready or failed
/// one can be cancelled or rescheduled (back to pending). So a dispatched
/// delivery can only be delivered or fail.
pub proof fn law_delivery_lifecycle(current: DeliveryStatus, action: DeliveryAction)
    ensures
        action == DeliveryAction::Ready ==> (next_status(current, action) is Some <==> current == DeliveryStatus::Pending),
        action == DeliveryAction::Dispatch ==> (next_status(current, action) is Some <==> current == DeliveryStatus::Ready),
        action == DeliveryAction::Deliver ==> (next_status(current, action) is Some <==> current == DeliveryStatus::Dispatched),
        action == DeliveryAction::Fail ==> (next_status(current, action) is Some <==> (current == DeliveryStatus::Pending
            || current == DeliveryStatus::Ready || current == DeliveryStatus::Dispatched)),
        action == DeliveryAction::Cancel ==> (next_status(current, action) is Some <==> (current == DeliveryStatus::Pending
            || current == DeliveryStatus::Ready || current == DeliveryStatus::Failed)),
        action == DeliveryAction::Reschedule ==> (next_status(current, action) is Some <==> (current == DeliveryStatus::Pending
            || current == DeliveryStatus::Ready || current == DeliveryStatus::Failed)),
        next_status(current, action) matches Some(n) ==> n == match action {
            DeliveryAction::Ready => DeliveryStatus::Ready,
            DeliveryAction::Dispatch => DeliveryStatus::Dispatched,
            DeliveryAction::Deliver => DeliveryStatus::Delivered,
            DeliveryAction::Fail => DeliveryStatus::Failed,
            DeliveryAction::Cancel => DeliveryStatus::Cancelled,
            DeliveryAction::Reschedule => DeliveryStatus::Pending,
        },
        current == DeliveryStatus::Dispatched && next_status(current, action) is Some ==> (action == DeliveryAction::Deliver
            || action == DeliveryAction::Fail),
{
}

/// Delivered and cancelled deliveries are final: no action moves them.
pub proof fn law_delivery_final_states(action: DeliveryAction)
    ensures
        next_status(DeliveryStatus::Delivered, action) is None,
        next_status(DeliveryStatus::Cancelled, action) is None,
{
}

/// A delivery is delivered only straight after being dispatched.
pub proof fn law_delivered_only_after_dispatch(current: DeliveryStatus, action: DeliveryAction)
    ensures
        next_status(current, action) == Some(DeliveryStatus::Delivered) ==> current == DeliveryStatus::Dispatched,
{
}

/// Rescheduling, whenever it is allowed, puts the delivery back to pending.
pub proof fn law_reschedule_returns_to_pending(current: DeliveryStatus)
    ensures
        next_status(current, DeliveryAction::Reschedule) is Some ==> next_status(current, DeliveryAction::Reschedule) == Some(DeliveryStatus::Pending),
{
}

// ---------------------------------------------------------------------------
// Delivery creation
// ---------------------------------------------------------------------------

#[derive(Debug, Clone, Copy)]
pub struct DeliveryLine {
    pub sale_item_id: i64,
    pub quantity: i64,
}

/// A delivery request names at least one line, every quantity positive, and a
/// non-negative charge (absent is zero). Returns the charge.
pub fn check_delivery_request(items: &Vec<DeliveryLine>, charge: Option<i64>) -> (r: Result<i64, AppError>)
    ensures
        items.len() == 0 ==> (r matches Err(AppError::Validation(m)) && m@ == "delivery has no items"@),
        items.len() > 0 && !(forall|i: int| 0 <= i < items.len() ==> #[trigger] items@[i].quantity > 0)
            ==> (r matches Err(AppError::Validation(m)) && m@ == "delivery item quantities must be positive"@),
        items.len() > 0 && (forall|i: int| 0 <= i < items.len() ==> #[trigger] items@[i].quantity > 0)
            ==> match charge {
                Some(c) => if c < 0 {
                    r matches Err(AppError::Validation(m)) && m@ == "delivery charge cannot be negative"@
                } else {
                    r == Ok::<i64, AppError>(c)
                },
                None => r == Ok::<i64, AppError>(0),
            },
{
    if items.len() == 0 {
        return Err(validation("delivery has no items"));
    }
    let mut i: usize = 0;
    while i < items.len()
        invariant
            i <= items.len(),
            forall|j: int| 0 <= j < i ==> #[trigger] items@[j].quantity > 0,
        decreases items.len() - i,
    {
        if items[i].quantity <= 0 {
            assert(items@[i as int].quantity <= 0);
            return Err(validation("delivery item quantities must be positive"));
        }
        i += 1;
    }
    let c = match charge { Some(c) => c, None => 0 };
    if c < 0 {
        return Err(validation("delivery charge cannot be negative"));
    }
    Ok(c)
}

/// Deliveries require a confirmed sale.
pub fn check_sale_deliverable(sale_id: i64, sale_status: &str) -> (r: Result<(), AppError>)
    ensures
        r is Ok <==> sale_status@ == "confirmed"@,
        r matches Err(e) ==> e matches AppError::Conflict(m) && m@ == "deliveries require a confirmed sale (sale "@
            + num_text(sale_id as int) + " is '"@ + sale_status@ + "')"@,
{
    if str_eq(sale_status, "confirmed") {
        Ok(())
    } else {
        let mut m = owned("deliveries require a confirmed sale (sale ");
        m.append(int_text(sale_id).as_str());
        m.append(" is '");
        m.append(sale_status);
        m.append("')");
        Err(AppError::Conflict(m))
    }
}

/// Quantity ordered on a sale line.
#[derive(Debug, Clone, Copy)]
pub struct SaleLineQty {
    pub id: i64,
    pub quantity: i64,
}

/// Index of the first element of `lines` from `j` on with this id.
pub open spec fn find_from(ids: Seq<i64>, id: i64, j: int) -> Option<int>
    decreases ids.len() - j,
{
    if j >= ids.len() || j < 0 {
        None
    } else if ids[j] == id {
        Some(j)
    } else {
        find_from(ids, id, j + 1)
    }
}

pub open spec fn line_ids(lines: Seq<SaleLineQty>) -> Seq<i64> {
    lines.map_values(|l: SaleLineQty| l.id)
}

fn find_index(ids: &Vec<i64>, id: i64) -> (r: Option<usize>)
    ensures
        r matches Some(j) ==> find_from(ids@, id, 0) == Some(j as int) && j < ids.len(),
        r is None ==> find_from(ids@, id, 0) is None,
{
    let mut j: usize = 0;
    while j < ids.len()
        invariant
            j <= ids.len(),
            find_from(ids@, id, 0) == find_from(ids@, id, j as int),
        decreases ids.len() - j,
    {
        if ids[j] == id {
            return Some(j);
        }
        j += 1;
    }
    None
}

pub fn ids_of(lines: &Vec<SaleLineQty>) -> (r: Vec<i64>)
    ensures
        r@ == line_ids(lines@),
{
    let mut r: Vec<i64> = Vec::new();
    let mut i: usize = 0;
    while i < lines.len()
        invariant
            i <= lines.len(),
            r@ == line_ids(lines@).take(i as int),
        decreases lines.len() - i,
    {
        r.push(lines[i].id);
        assert(r@ =~= line_ids(lines@).take(i + 1));
        i += 1;
    }
    assert(line_ids(lines@).take(lines.len() as int) =~= line_ids(lines@));
    r
}

/// Whether delivery line `i` fits its sale line: the sale line exists and the
/// quantity is at most what is still undelivered (`delivered[i]` counts the
/// units already on deliveries that were not cancelled).
pub open spec fn delivery_line_ok(items: Seq<DeliveryLine>, sale_lines: Seq<SaleLineQty>, delivered: Seq<i64>, i: int) -> bool {
    match find_from(line_ids(sale_lines), items[i].sale_item_id, 0) {
        None => false,
        Some(j) => items[i].quantity <= sale_lines[j].quantity - delivered[i],
    }
}

/// Why delivery line `i` is refused.
pub open spec fn delivery_line_fault(items: Seq<DeliveryLine>, sale_lines: Seq<SaleLineQty>, delivered: Seq<i64>, i: int, sale_id: i64) -> Seq<char> {
    match find_from(line_ids(sale_lines), items[i].sale_item_id, 0) {
        None => "sale item "@ + num_text(items[i].sale_item_id as int) + " is not on sale "@ + num_text(sale_id as int),
        Some(j) => "sale item "@ + num_text(items[i].sale_item_id as int) + ": delivery of "@
            + num_text(items[i].quantity as int) + " exceeds remaining "@
            + num_text(sale_lines[j].quantity - delivered[i]),
    }
}

/// Every delivery line must name a line of the sale and stay within what is
/// left to deliver of it; the first line at fault decides the error.
pub fn check_delivery_lines(sale_id: i64, items: &Vec<DeliveryLine>, sale_lines: &Vec<SaleLineQty>, delivered: &Vec<i64>) -> (r: Result<(), AppError>)
    requires
        delivered.len() == items.len(),
        forall|i: int, j: int| 0 <= i < items.len() && 0 <= j < sale_lines.len() ==> fits(sale_lines@[j].quantity - delivered@[i]),
    ensures
        r is Ok <==> forall|i: int| 0 <= i < items.len() ==> delivery_line_ok(items@, sale_lines@, delivered@, i),
        r matches Err(e) ==> exists|i: int| 0 <= i < items.len()
            && (forall|k: int| 0 <= k < i ==> delivery_line_ok(items@, sale_lines@, delivered@, k))
            && !delivery_line_ok(items@, sale_lines@, delivered@, i)
            && (e matches AppError::Validation(m) && m@ == delivery_line_fault(items@, sale_lines@, delivered@, i, sale_id)),
{
    let ids = ids_of(sale_lines);
    let mut i: usize = 0;
    while i < items.len()
        invariant
            i <= items.len(),
            delivered.len() == items.len(),
            ids@ == line_ids(sale_lines@),
            ids.len() == sale_lines.len(),
            forall|a: int, b: int| 0 <= a < items.len() && 0 <= b < sale_lines.len() ==> fits(sale_lines@[b].quantity - delivered@[a]),
            forall|k: int| 0 <= k < i ==> delivery_line_ok(items@, sale_lines@, delivered@, k),
        decreases items.len() - i,
    {
        match find_index(&ids, items[i].sale_item_id) {
            None => {
                assert(!delivery_line_ok(items@, sale_lines@, delivered@, i as int));
                let mut m = owned("sale item ");
                m.append(int_text(items[i].sale_item_id).as_str());
                m.append(" is not on sale ");
                m.append(int_text(sale_id).as_str());
                return Err(AppError::Validation(m));
            },
            Some(j) => {
                let remaining = sale_lines[j].quantity - delivered[i];
                if items[i].quantity > remaining {
                    assert(!delivery_line_ok(items@, sale_lines@, delivered@, i as int));
                    let mut m = owned("sale item ");
                    m.append(int_text(items[i].sale_item_id).as_str());
                    m.append(": delivery of ");
                    m.append(int_text(items[i].quantity).as_str());
                    m.append(" exceeds remaining ");
                    m.append(int_text(remaining).as_str());
                    return Err(AppError::Validation(m));
                }
            },
        }
        i += 1;
    }
    Ok(())
}

// ---------------------------------------------------------------------------
// Sales returns
// ---------------------------------------------------------------------------

pub open spec fn abs(a: int) -> int {
    if a < 0 { -a } else { a }
}

/// Integer division rounding toward zero, as Rust's `/` does.
pub open spec fn tdiv(a: int, b: int) -> int {
    let q = abs(a) / abs(b);
    if (a < 0) != (b < 0) { -q } else { q }
}

pub(crate) fn div_toward_zero(a: i128, b: i128) -> (r: i128)
    requires
        b != 0,
        a != i128::MIN,
        b != i128::MIN,
    ensures
        r == tdiv(a as int, b as int),
{
    let ua: u128 = if a < 0 { (-a) as u128 } else { a as u128 };
    let ub: u128 = if b < 0 { (-b) as u128 } else { b as u128 };
    let q = ua / ub;
    assert(q <= ua) by (nonlinear_arith)
        requires ub >= 1, q == ua / ub;
    let qi = q as i128;
    if (a < 0) != (b < 0) { -qi } else { qi }
}

/// Refund value of the returned units of a sale line: the line's share of the
/// discounted subtotal, per unit (rounded toward zero), times the returned
/// units, capped at the 64-bit maximum; zero when the sale has no positive
/// subtotal.
pub open spec fn refund_value(line_total: int, subtotal: int, discount: int, quantity: int, returned_qty: int) -> int {
    if subtotal <= 0 {
        0
    } else {
        let goods = tdiv(line_total * (subtotal - discount), subtotal);
        let v = tdiv(goods, quantity) * returned_qty;
        if v > i64::MAX { i64::MAX as int } else { v }
    }
}

/// The inputs on which `line_refund_alloc` computes without a fault: the unit
/// share exists (non-zero line quantity) and every step fits its integer type.
pub open spec fn refund_defined(line_total: int, subtotal: int, discount: int, quantity: int, returned_qty: int) -> bool {
    subtotal > 0 ==> {
        &&& fits(subtotal - discount)
        &&& quantity != 0
        &&& i128::MIN <= tdiv(tdiv(line_total * (subtotal - discount), subtotal), quantity) * returned_qty <= i128::MAX
        &&& tdiv(tdiv(line_total * (subtotal - discount), subtotal), quantity) * returned_qty >= i64::MIN
    }
}

/// Returned-goods value with the sale discount allocated fairly across the
/// returned line. Zero when the sale has no items (mathematically undefined).
pub fn line_refund_alloc(line_total: i64, subtotal: i64, discount: i64, quantity: i64, returned_qty: i64) -> (r: i64)
    requires
        refund_defined(line_total as int, subtotal as int, discount as int, quantity as int, returned_qty as int),
    ensures
        r == refund_value(line_total as int, subtotal as int, discount as int, quantity as int, returned_qty as int),
{
    if subtotal <= 0 {
        return 0;
    }
    let net = (subtotal - discount) as i128;
    let lt = line_total as i128;
    assert(-0x4000_0000_0000_0000_0000_0000_0000_0000 <= lt * net <= 0x4000_0000_0000_0000_0000_0000_0000_0000) by (nonlinear_arith)
        requires -0x8000_0000_0000_0000 <= lt <= 0x7fff_ffff_ffff_ffff, -0x8000_0000_0000_0000 <= net <= 0x7fff_ffff_ffff_ffff;
    let prod = lt * net;
    let goods = div_toward_zero(prod, subtotal as i128);
    assert(abs(goods as int) <= abs(prod as int)) by (nonlinear_arith)
        requires goods == tdiv(prod as int, subtotal as int), subtotal >= 1;
    let unit = div_toward_zero(goods, quantity as i128);
    let v = unit * (returned_qty as i128);
    if v > (i64::MAX as i128) {
        i64::MAX
    } else {
        v as i64
    }
}

#[derive(Debug, Clone, Copy, PartialEq, Eq, Structural)]
pub enum ReturnClass {
    Sellable,
    Damaged,
    Repair,
    Disposed,
}

pub open spec fn class_text(c: ReturnClass) -> Seq<char> {
    match c {
        ReturnClass::Sellable => "sellable"@,
        ReturnClass::Damaged => "damaged"@,
        ReturnClass::Repair => "repair"@,
        ReturnClass::Disposed => "disposed"@,
    }
}

pub open spec fn known_class(s: Seq<char>) -> bool {
    s == "sellable"@ || s == "damaged"@ || s == "repair"@ || s == "disposed"@
}

/// The classification a returned line names, if supported.
pub fn parse_return_class(s: &str) -> (r: Option<ReturnClass>)
    ensures
        r matches Some(c) ==> class_text(c) == s@,
        r is None <==> !known_class(s@),
{
    if str_eq(s, "sellable") {
        Some(ReturnClass::Sellable)
    } else if str_eq(s, "damaged") {
        Some(ReturnClass::Damaged)
    } else if str_eq(s, "repair") {
        Some(ReturnClass::Repair)
    } else if str_eq(s, "disposed") {
        Some(ReturnClass::Disposed)
    } else {
        None
    }
}

/// A line's refund stays within the line's discounted value: with a positive
/// sale subtotal, a discount no larger than it, a non-negative line total and
/// no more units returned than were sold, the refund is zero for nothing
/// returned, never negative, at most the line's share of the discounted sale
/// (and so at most its own total), and grows with the units returned. With no
/// subtotal the refund is zero.
pub proof fn law_line_refund_bounded(line_total: int, subtotal: int, discount: int, quantity: int, returned: int, more: int)
    requires
        subtotal > 0 ==> (quantity > 0 && 0 <= discount <= subtotal && 0 <= line_total && 0 <= returned <= more <= quantity),
    ensures
        subtotal <= 0 ==> refund_value(line_total, subtotal, discount, quantity, returned) == 0,
        subtotal > 0 ==> {
            let rv = refund_value(line_total, subtotal, discount, quantity, returned);
            &&& returned == 0 ==> rv == 0
            &&& 0 <= rv <= line_total * (subtotal - discount) / subtotal <= line_total
            &&& rv <= refund_value(line_total, subtotal, discount, quantity, more)
        },
{
    if subtotal > 0 {
        let net = subtotal - discount;
        assert(0 <= line_total * net <= line_total * subtotal) by (nonlinear_arith)
            requires 0 <= line_total, 0 <= net <= subtotal;
        let goods = line_total * net / subtotal;
        assert(0 <= goods <= line_total) by (nonlinear_arith)
            requires 0 <= line_total * net <= line_total * subtotal, subtotal > 0, goods == line_total * net / subtotal;
        assert(tdiv(line_total * net, subtotal) == goods);
        let unit = goods / quantity;
        assert(0 <= unit && unit * quantity <= goods) by (nonlinear_arith)
            requires goods >= 0, quantity > 0, unit == goods / quantity;
        assert(tdiv(goods, quantity) == unit);
        assert(0 <= unit * returned <= unit * more <= unit * quantity) by (nonlinear_arith)
            requires unit >= 0, 0 <= returned <= more <= quantity;
        assert(returned == 0 ==> unit * returned == 0) by (nonlinear_arith);
    }
}

/// One returned line as requested.
#[derive(Debug)]
pub struct ReturnRequestLine {
    pub sale_item_id: i64,
    pub quantity: i64,
    pub classification: String,
}

pub open spec fn known_refund_type(s: Seq<char>) -> bool {
    s == "credit"@ || s == "cash"@ || s == "exchange"@
}

pub open spec fn request_line_ok(l: ReturnRequestLine) -> bool {
    l.quantity > 0 && known_class(l.classification@)
}

/// Why a requested return line is refused.
pub open spec fn request_line_fault(l: ReturnRequestLine) -> Seq<char> {
    if l.quantity <= 0 {
        "return item quantities must be positive"@
    } else {
        "unsupported classification '"@ + l.classification@ + "'"@
    }
}

/// Request checks of a sales return, before anything is read, in this order:
/// at least one line; refund type credit, cash or exchange; a non-blank date;
/// every line a positive quantity with a supported classification (the first
/// line at fault decides the message). Returns whether the refund is paid in
/// cash.
pub fn check_return_request(items: &Vec<ReturnRequestLine>, refund_type: &str, return_date: &str) -> (r: Result<bool, AppError>)
    ensures
        items.len() == 0 ==> (r matches Err(AppError::Validation(m)) && m@ == "return has no items"@),
        items.len() > 0 && !known_refund_type(refund_type@) ==> (r matches Err(AppError::Validation(m))
            && m@ == "refund_type must be credit, cash, or exchange"@),
        items.len() > 0 && known_refund_type(refund_type@) && is_blank(return_date@) ==> (r matches Err(
            AppError::Validation(m)) && m@ == "return date is required"@),
        r is Ok <==> (items.len() > 0 && known_refund_type(refund_type@) && !is_blank(return_date@)
            && forall|i: int| 0 <= i < items.len() ==> request_line_ok(#[trigger] items@[i])),
        r matches Ok(cash) ==> cash == (refund_type@ == "cash"@),
        items.len() > 0 && known_refund_type(refund_type@) && !is_blank(return_date@) && r is Err ==> exists|i: int|
            0 <= i < items.len() && (forall|k: int| 0 <= k < i ==> request_line_ok(#[trigger] items@[k]))
            && !request_line_ok(items@[i])
            && (r matches Err(AppError::Validation(m)) && m@ == request_line_fault(items@[i])),
{
    if items.len() == 0 {
        return Err(validation("return has no items"));
    }
    if !(str_eq(refund_type, "credit") || str_eq(refund_type, "cash") || str_eq(refund_type, "exchange")) {
        return Err(validation("refund_type must be credit, cash, or exchange"));
    }
    if str_is_blank(return_date) {
        return Err(validation("return date is required"));
    }
    let mut i: usize = 0;
    while i < items.len()
        invariant
            i <= items.len(),
            items.len() > 0,
            known_refund_type(refund_type@),
            !is_blank(return_date@),
            forall|j: int| 0 <= j < i ==> request_line_ok(#[trigger] items@[j]),
        decreases items.len() - i,
    {
        if items[i].quantity <= 0 {
            assert(!request_line_ok(items@[i as int]));
            return Err(validation("return item quantities must be positive"));
        }
        if parse_return_class(items[i].classification.as_str()).is_none() {
            assert(!request_line_ok(items@[i as int]));
            let mut m = owned("unsupported classification '");
            m.append(items[i].classification.as_str());
            m.append("'");
            return Err(AppError::Validation(m));
        }
        i += 1;
    }
    Ok(str_eq(refund_type, "cash"))
}

/// The replay step of posting a return. Only a non-blank idempotency key is
/// looked up (`existing` is the (return, sale) it is stored with, if any): a
/// key already used for a return of this sale replays that return
/// (`Ok(Some(id))`); one used for another sale is a conflict; otherwise the
/// posting goes ahead (`Ok(None)`).
pub fn replay_return(idempotency_key: &Option<String>, existing: Option<(i64, i64)>, sale_id: i64)
    -> (r: Result<Option<i64>, AppError>)
    ensures
        match idempotency_key {
            Some(key) if !is_blank(key@) => match existing {
                Some((id, other)) => if other == sale_id {
                    r == Ok::<Option<i64>, AppError>(Some(id))
                } else {
                    r matches Err(AppError::Conflict(m)) && m@ == "idempotency key '"@ + key@
                        + "' was already used for a different sale"@
                },
                None => r == Ok::<Option<i64>, AppError>(None),
            },
            _ => r == Ok::<Option<i64>, AppError>(None),
        },
{
    match idempotency_key {
        Some(key) => {
            if str_is_blank(key.as_str()) {
                return Ok(None);
            }
            match existing {
                Some((id, other)) => {
                    if other != sale_id {
                        let mut m = owned("idempotency key '");
                        m.append(key.as_str());
                        m.append("' was already used for a different sale");
                        return Err(AppError::Conflict(m));
                    }
                    Ok(Some(id))
                },
                None => Ok(None),
            }
        },
        None => Ok(None),
    }
}

/// A sale can be returned against only while it is confirmed.
pub fn check_sale_returnable(sale_id: i64, sale_status: &str) -> (r: Result<(), AppError>)
    ensures
        r is Ok <==> sale_status@ == "confirmed"@,
        r matches Err(e) ==> e matches AppError::Conflict(m) && m@ == "sale "@ + num_text(sale_id as int)
            + " cannot be returned in status '"@ + sale_status@ + "'"@,
{
    if str_eq(sale_status, "confirmed") {
        Ok(())
    } else {
        let mut m = owned("sale ");
        m.append(int_text(sale_id).as_str());
        m.append(" cannot be returned in status '");
        m.append(sale_status);
        m.append("'");
        Err(AppError::Conflict(m))
    }
}

/// Money figures of a sale that a return works from.
#[derive(Debug, Clone, Copy)]
pub struct SaleFigures {
    pub subtotal: i64,
    pub discount: i64,
    pub total: i64,
    pub paid: i64,
    pub advance_used: i64,
    pub due: i64,
    pub has_customer: bool,
}

/// A sale line as a return sees it.
#[derive(Debug, Clone, Copy)]
pub struct SaleItemFigures {
    pub id: i64,
    pub quantity: i64,
    pub line_total: i64,
}

pub open spec fn item_ids(meta: Seq<SaleItemFigures>) -> Seq<i64> {
    meta.map_values(|m: SaleItemFigures| m.id)
}

/// Refund of returned line `i` (its sale line found at `j`).
pub open spec fn line_refund_at(sale: SaleFigures, items: Seq<(i64, i64)>, meta: Seq<SaleItemFigures>, i: int, j: int) -> int {
    refund_value(meta[j].line_total as int, sale.subtotal as int, sale.discount as int, meta[j].quantity as int, items[i].1 as int)
}

/// Whether returned line `i` is acceptable: its sale line is on the sale and
/// no more units come back than were sold less already returned (`already[i]`).
pub open spec fn return_line_ok(items: Seq<(i64, i64)>, meta: Seq<SaleItemFigures>, already: Seq<i64>, i: int) -> bool {
    match find_from(item_ids(meta), items[i].0, 0) {
        None => false,
        Some(j) => items[i].1 <= meta[j].quantity - already[i],
    }
}

/// Why returned line `i` is refused.
pub open spec fn return_line_fault(items: Seq<(i64, i64)>, meta: Seq<SaleItemFigures>, already: Seq<i64>, i: int, sale_id: i64) -> Seq<char> {
    match find_from(item_ids(meta), items[i].0, 0) {
        None => "sale item "@ + num_text(items[i].0 as int) + " is not on sale "@ + num_text(sale_id as int),
        Some(j) => "sale item "@ + num_text(items[i].0 as int) + ": only "@ + num_text(meta[j].quantity - already[i])
            + " of "@ + num_text(meta[j].quantity as int) + " remain returnable"@,
    }
}

/// Sum of the refunds of the first `n` returned lines.
pub open spec fn refund_total(sale: SaleFigures, items: Seq<(i64, i64)>, meta: Seq<SaleItemFigures>, n: int) -> int
    decreases n,
{
    if n <= 0 {
        0
    } else {
        refund_total(sale, items, meta, n - 1) + match find_from(item_ids(meta), items[n - 1].0, 0) {
            Some(j) => line_refund_at(sale, items, meta, n - 1, j),
            None => 0,
        }
    }
}

/// Refund amounts of the returned lines.
#[derive(Debug)]
pub struct ReturnLinesPlan {
    /// Per returned line: (unit refund, line refund).
    pub lines: Vec<(i64, i64)>,
    /// Sum of the line refunds.
    pub total: i64,
}

fn item_ids_of(meta: &Vec<SaleItemFigures>) -> (r: Vec<i64>)
    ensures
        r@ == item_ids(meta@),
{
    let mut r: Vec<i64> = Vec::new();
    let mut i: usize = 0;
    while i < meta.len()
        invariant
            i <= meta.len(),
            r@ == item_ids(meta@).take(i as int),
        decreases meta.len() - i,
    {
        r.push(meta[i].id);
        assert(r@ =~= item_ids(meta@).take(i + 1));
        i += 1;
    }
    assert(item_ids(meta@).take(meta.len() as int) =~= item_ids(meta@));
    r
}

/// Price the returned lines (`items[i]` = (sale line id, returned units)):
/// each must be acceptable (else a validation error for the first that is
/// not); its refund is its share of the discounted sale value, and its unit
/// refund that refund divided by the returned units.
pub fn plan_return_lines(sale_id: i64, sale: SaleFigures, items: &Vec<(i64, i64)>, meta: &Vec<SaleItemFigures>, already: &Vec<i64>)
    -> (r: Result<ReturnLinesPlan, AppError>)
    requires
        already.len() == items.len(),
        forall|i: int| 0 <= i < items.len() ==> (#[trigger] items@[i]).1 > 0,
        forall|i: int, j: int| 0 <= i < items.len() && 0 <= j < meta.len() ==> fits(#[trigger] meta@[j].quantity - #[trigger] already@[i]),
        forall|i: int, j: int| 0 <= i < items.len() && 0 <= j < meta.len() ==> refund_defined(
            #[trigger] meta@[j].line_total as int, sale.subtotal as int, sale.discount as int, meta@[j].quantity as int, #[trigger] items@[i].1 as int),
        forall|n: int| 0 <= n <= items.len() ==> fits(#[trigger] refund_total(sale, items@, meta@, n)),
    ensures
        r is Ok <==> forall|i: int| 0 <= i < items.len() ==> return_line_ok(items@, meta@, already@, i),
        r matches Err(e) ==> exists|i: int| 0 <= i < items.len()
            && (forall|k: int| 0 <= k < i ==> return_line_ok(items@, meta@, already@, k))
            && !return_line_ok(items@, meta@, already@, i)
            && (e matches AppError::Validation(m) && m@ == return_line_fault(items@, meta@, already@, i, sale_id)),
        r matches Ok(p) ==> {
            &&& p.lines.len() == items.len()
            &&& p.total == refund_total(sale, items@, meta@, items.len() as int)
            &&& forall|i: int| 0 <= i < items.len() ==> match find_from(item_ids(meta@), (#[trigger] items@[i]).0, 0) {
                Some(j) => p.lines@[i].1 == line_refund_at(sale, items@, meta@, i, j)
                    && p.lines@[i].0 == tdiv(p.lines@[i].1 as int, items@[i].1 as int),
                None => false,
            }
        },
{
    let ids = item_ids_of(meta);
    let mut lines: Vec<(i64, i64)> = Vec::new();
    let mut total: i64 = 0;
    let mut i: usize = 0;
    while i < items.len()
        invariant
            i <= items.len(),
            already.len() == items.len(),
            ids@ == item_ids(meta@),
            ids.len() == meta.len(),
            forall|a: int| 0 <= a < items.len() ==> (#[trigger] items@[a]).1 > 0,
            forall|a: int, b: int| 0 <= a < items.len() && 0 <= b < meta.len() ==> fits(#[trigger] meta@[b].quantity - #[trigger] already@[a]),
            forall|a: int, b: int| 0 <= a < items.len() && 0 <= b < meta.len() ==> refund_defined(
                #[trigger] meta@[b].line_total as int, sale.subtotal as int, sale.discount as int, meta@[b].quantity as int, #[trigger] items@[a].1 as int),
            forall|n: int| 0 <= n <= items.len() ==> fits(#[trigger] refund_total(sale, items@, meta@, n)),
            forall|k: int| 0 <= k < i ==> return_line_ok(items@, meta@, already@, k),
            lines.len() == i,
            total == refund_total(sale, items@, meta@, i as int),
            forall|k: int| 0 <= k < i ==> match find_from(item_ids(meta@), (#[trigger] items@[k]).0, 0) {
                Some(j) => lines@[k].1 == line_refund_at(sale, items@, meta@, k, j)
                    && lines@[k].0 == tdiv(lines@[k].1 as int, items@[k].1 as int),
                None => false,
            },
        decreases items.len() - i,
    {
        let (sale_item_id, qty) = items[i];
        match find_index(&ids, sale_item_id) {
            None => {
                assert(!return_line_ok(items@, meta@, already@, i as int));
                let mut m = owned("sale item ");
                m.append(int_text(sale_item_id).as_str());
                m.append(" is not on sale ");
                m.append(int_text(sale_id).as_str());
                return Err(AppError::Validation(m));
            },
            Some(j) => {
                let m = meta[j];
                let remaining = m.quantity - already[i];
                if qty > remaining {
                    assert(!return_line_ok(items@, meta@, already@, i as int));
                    let mut msg = owned("sale item ");
                    msg.append(int_text(sale_item_id).as_str());
                    msg.append(": only ");
                    msg.append(int_text(remaining).as_str());
                    msg.append(" of ");
                    msg.append(int_text(m.quantity).as_str());
                    msg.append(" remain returnable");
                    return Err(AppError::Validation(msg));
                }
                let line_refund = line_refund_alloc(m.line_total, sale.subtotal, sale.discount, m.quantity, qty);
                let unit_wide = div_toward_zero(line_refund as i128, qty as i128);
                assert(abs(unit_wide as int) <= abs(line_refund as int)) by (nonlinear_arith)
                    requires unit_wide == tdiv(line_refund as int, qty as int), qty >= 1;
                let unit_refund = unit_wide as i64;
                proof {
                    assert(fits(refund_total(sale, items@, meta@, i + 1)));
                }
                total = total + line_refund;
                lines.push((unit_refund, line_refund));
            },
        }
        i += 1;
    }
    Ok(ReturnLinesPlan { lines, total })
}

/// How the money of a return settles.
#[derive(Debug)]
pub struct RefundPlan {
    /// Money owed back: what was collected beyond the reduced sale total.
    pub refundable: i64,
    /// Part of it paid out in cash.
    pub cash_refund: i64,
    /// Part of it issued as a credit note.
    pub credit_note: i64,
    /// The sale's due after the return (never negative).
    pub new_due: i64,
}

pub open spec fn refundable_of(sale: SaleFigures, returned_total: int) -> int {
    let v = sale.paid + sale.advance_used + returned_total - sale.total;
    if v > 0 { v } else { 0 }
}

pub open spec fn due_after_return(due: int, returned_total: int) -> int {
    let d = due - returned_total;
    let s = if d < i64::MIN { i64::MIN as int } else if d > i64::MAX { i64::MAX as int } else { d };
    if s > 0 { s } else { 0 }
}

/// `cannot refund walk-in sale N as T — credit notes require a customer; ...`.
pub open spec fn walk_in_refused(sale_number: Seq<char>, refund_type: Seq<char>) -> Seq<char> {
    "cannot refund walk-in sale "@ + sale_number + " as "@ + refund_type
        + " — credit notes require a customer; refund to cash instead"@
}

/// Settle a return worth `returned_total` with the requested refund type:
/// what was collected (paid plus advance used) beyond the reduced total is
/// refundable; a cash return pays it out, otherwise it becomes a credit note,
/// which needs a customer (a walk-in sale with money owed back must be
/// refunded in cash). The sale's due drops by the returned value, never below
/// zero.
pub fn plan_refund(sale: SaleFigures, sale_number: &str, refund_type: &str, returned_total: i64) -> (r: Result<RefundPlan, AppError>)
    requires
        fits(sale.paid + sale.advance_used),
        fits(sale.paid + sale.advance_used + returned_total),
        fits(sale.paid + sale.advance_used + returned_total - sale.total),
    ensures
        ({
            let cash_mode = refund_type@ == "cash"@;
            &&& r is Err <==> (!sale.has_customer && !cash_mode && refundable_of(sale, returned_total as int) > 0)
            &&& r matches Err(e) ==> e matches AppError::Validation(m) && m@ == walk_in_refused(sale_number@, refund_type@)
            &&& r matches Ok(p) ==> {
                &&& p.refundable == refundable_of(sale, returned_total as int)
                &&& p.cash_refund == if cash_mode { p.refundable } else { 0 }
                &&& p.credit_note == if !cash_mode && p.refundable > 0 { p.refundable } else { 0 }
                &&& p.new_due == due_after_return(sale.due as int, returned_total as int)
            }
        }),
{
    let cash_mode = str_eq(refund_type, "cash");
    let collected = sale.paid + sale.advance_used;
    let over = collected + returned_total - sale.total;
    let refundable = if over > 0 { over } else { 0 };
    if !sale.has_customer && !cash_mode && refundable > 0 {
        let mut m = owned("cannot refund walk-in sale ");
        m.append(sale_number);
        m.append(" as ");
        m.append(refund_type);
        m.append(" — credit notes require a customer; refund to cash instead");
        return Err(AppError::Validation(m));
    }
    let wide = (sale.due as i128) - (returned_total as i128);
    let reduced: i64 = if wide < (i64::MIN as i128) {
        i64::MIN
    } else if wide > (i64::MAX as i128) {
        i64::MAX
    } else {
        wide as i64
    };
    Ok(RefundPlan {
        refundable,
        cash_refund: if cash_mode { refundable } else { 0 },
        credit_note: if !cash_mode && refundable > 0 { refundable } else { 0 },
        new_due: if reduced > 0 { reduced } else { 0 },
    })
}

/// A priced and settled sales return.
#[derive(Debug)]
pub struct SalesReturnPlan {
    pub lines: ReturnLinesPlan,
    pub refund: RefundPlan,
}

/// The money side of posting a return against a confirmed sale, in the order
/// the posting decides it: every line must be acceptable (the first that is
/// not decides the error); the return's value is the sum of the line refunds;
/// then the refund settles that value (a walk-in sale owed money back must be
/// refunded in cash).
pub fn plan_sales_return(sale_id: i64, sale: SaleFigures, sale_number: &str, refund_type: &str, items: &Vec<(i64, i64)>,
    meta: &Vec<SaleItemFigures>, already: &Vec<i64>) -> (r: Result<SalesReturnPlan, AppError>)
    requires
        already.len() == items.len(),
        forall|i: int| 0 <= i < items.len() ==> (#[trigger] items@[i]).1 > 0,
        forall|i: int, j: int| 0 <= i < items.len() && 0 <= j < meta.len() ==> fits(#[trigger] meta@[j].quantity - #[trigger] already@[i]),
        forall|i: int, j: int| 0 <= i < items.len() && 0 <= j < meta.len() ==> refund_defined(
            #[trigger] meta@[j].line_total as int, sale.subtotal as int, sale.discount as int, meta@[j].quantity as int, #[trigger] items@[i].1 as int),
        forall|n: int| 0 <= n <= items.len() ==> fits(#[trigger] refund_total(sale, items@, meta@, n)),
        fits(sale.paid + sale.advance_used),
        fits(sale.paid + sale.advance_used + refund_total(sale, items@, meta@, items.len() as int)),
        fits(sale.paid + sale.advance_used + refund_total(sale, items@, meta@, items.len() as int) - sale.total),
    ensures
        ({
            let lines_ok = forall|i: int| 0 <= i < items.len() ==> return_line_ok(items@, meta@, already@, i);
            let total = refund_total(sale, items@, meta@, items.len() as int);
            let cash_mode = refund_type@ == "cash"@;
            &&& !lines_ok ==> (r matches Err(e) && exists|i: int| 0 <= i < items.len()
                && (forall|k: int| 0 <= k < i ==> return_line_ok(items@, meta@, already@, k))
                && !return_line_ok(items@, meta@, already@, i)
                && (e matches AppError::Validation(m) && m@ == return_line_fault(items@, meta@, already@, i, sale_id)))
            &&& lines_ok && !sale.has_customer && !cash_mode && refundable_of(sale, total) > 0 ==> (r matches Err(
                AppError::Validation(m)) && m@ == walk_in_refused(sale_number@, refund_type@))
            &&& r matches Ok(p) ==> {
                &&& lines_ok
                &&& p.lines.total == total
                &&& p.lines.lines.len() == items.len()
                &&& p.refund.refundable == refundable_of(sale, total)
                &&& p.refund.cash_refund == if cash_mode { p.refund.refundable } else { 0 }
                &&& p.refund.credit_note == if !cash_mode && p.refund.refundable > 0 { p.refund.refundable } else { 0 }
                &&& p.refund.new_due == due_after_return(sale.due as int, total)
            }
            &&& lines_ok && !(!sale.has_customer && !cash_mode && refundable_of(sale, total) > 0) ==> r is Ok
        }),
{
    let lines = match plan_return_lines(sale_id, sale, items, meta, already) {
        Ok(l) => l,
        Err(e) => return Err(e),
    };
    let refund = match plan_refund(sale, sale_number, refund_type, lines.total) {
        Ok(p) => p,
        Err(e) => return Err(e),
    };
    Ok(SalesReturnPlan { lines, refund })
}

/// A return can be voided only while posted; if it issued a credit note, that
/// note (`credit_note_status`, read when there is one) must still be open.
pub fn check_return_voidable(return_id: i64, status: &str, credit_note_minor: i64, credit_note_status: Option<String>)
    -> (r: Result<(), AppError>)
    requires
        credit_note_minor > 0 ==> credit_note_status is Some,
    ensures
        r is Ok <==> (status@ == "posted"@ && (credit_note_minor > 0 ==> (credit_note_status matches Some(s) && s@ == "open"@))),
        status@ != "posted"@ ==> (r matches Err(AppError::Conflict(m)) && m@ == "sales return "@
            + num_text(return_id as int) + " cannot be voided in status '"@ + status@ + "'"@),
        status@ == "posted"@ && r is Err ==> (credit_note_status matches Some(s) && (r matches Err(AppError::Conflict(m))
            && m@ == "sales return "@ + num_text(return_id as int) + " has a credit note that is already '"@ + s@ + "'"@)),
{
    if !str_eq(status, "posted") {
        let mut m = owned("sales return ");
        m.append(int_text(return_id).as_str());
        m.append(" cannot be voided in status '");
        m.append(status);
        m.append("'");
        return Err(AppError::Conflict(m));
    }
    if credit_note_minor > 0 {
        if let Some(s) = credit_note_status {
            if !str_eq(s.as_str(), "open") {
                let mut m = owned("sales return ");
                m.append(int_text(return_id).as_str());
                m.append(" has a credit note that is already '");
                m.append(s.as_str());
                m.append("'");
                return Err(AppError::Conflict(m));
            }
        }
    }
    Ok(())
}

/// The sale's due restored by voiding a return worth `returned_total`: the due
/// grows back by it, but never past what the sale still lacks (total less paid
/// and advance used, not below zero).
pub open spec fn due_after_void(total: int, paid: int, advance: int, due: int, returned_total: int) -> int {
    let cap = if total - paid - advance > 0 { total - paid - advance } else { 0 };
    if due + returned_total < cap { due + returned_total } else { cap }
}

pub fn restored_due(total: i64, paid: i64, advance: i64, due: i64, returned_total: i64) -> (r: i64)
    requires
        fits(due + returned_total),
        fits(total - paid),
        fits(total - paid - advance),
    ensures
        r == due_after_void(total as int, paid as int, advance as int, due as int, returned_total as int),
{
    let lacking = total - paid - advance;
    let cap = if lacking > 0 { lacking } else { 0 };
    let grown = due + returned_total;
    if grown < cap { grown } else { cap }
}

/// Voiding a return gives the sale back exactly the due it had, for a sale
/// whose due is what it lacks (total less paid and advance used).
pub proof fn law_void_return_restores_due(total: int, paid: int, advance: int, due: int, returned_total: int)
    requires
        due == total - paid - advance,
        due >= 0,
        returned_total >= 0,
        fits(due),
    ensures
        due_after_void(total, paid, advance, due_after_return(due, returned_total), returned_total) == due,
{
}

/// The money entries posting a return makes, as (customer-ledger entries in
/// order, cash-book entry): the customer owes the returned value less, and a
/// cash refund is both paid out of the till and entered on the customer's
/// account. `cash_refund` is the plan's cash refund.
pub open spec fn return_money_of(returned_total: int, cash_refund: int) -> (Seq<int>, int) {
    if cash_refund > 0 {
        (seq![-returned_total, cash_refund], -cash_refund)
    } else {
        (seq![-returned_total], 0)
    }
}

/// The money entries voiding that return makes: the cash refund is taken
/// back off the customer's account and returned to the till, and the
/// returned value is owed again.
pub open spec fn void_money_of(returned_total: int, cash_refund: int) -> (Seq<int>, int) {
    if cash_refund > 0 {
        (seq![-cash_refund, returned_total], cash_refund)
    } else {
        (seq![returned_total], 0)
    }
}

pub open spec fn entries_total(s: Seq<int>) -> int {
    if s.len() == 0 { 0 } else if s.len() == 1 { s[0] } else { s[0] + s[1] }
}

/// The money entries of posting (`voiding` false) or voiding a return worth
/// `returned_total` with this cash refund.
pub fn return_money(returned_total: i64, cash_refund: i64, voiding: bool) -> (r: (Vec<i64>, i64))
    requires
        returned_total != i64::MIN,
        cash_refund != i64::MIN,
    ensures
        ({
            let want = if voiding { void_money_of(returned_total as int, cash_refund as int) }
                else { return_money_of(returned_total as int, cash_refund as int) };
            r.0@.map_values(|x: i64| x as int) == want.0 && r.1 == want.1
        }),
{
    let mut ledger: Vec<i64> = Vec::new();
    let cash: i64;
    if voiding {
        if cash_refund > 0 {
            ledger.push(-cash_refund);
        }
        ledger.push(returned_total);
        cash = if cash_refund > 0 { cash_refund } else { 0 };
    } else {
        ledger.push(-returned_total);
        if cash_refund > 0 {
            ledger.push(cash_refund);
        }
        cash = if cash_refund > 0 { -cash_refund } else { 0 };
    }
    proof {
        let want = if voiding { void_money_of(returned_total as int, cash_refund as int) }
            else { return_money_of(returned_total as int, cash_refund as int) };
        assert(ledger@.map_values(|x: i64| x as int) =~= want.0);
    }
    (ledger, cash)
}

/// Posting a return and then voiding it leaves the customer's account and the
/// cash account where they were: the void's entries undo the posting's, for
/// the cash refund `plan_refund` decided (the refundable amount in cash mode,
/// else nothing).
pub proof fn law_return_and_void_balance_out(balance: int, cash: int, sale: SaleFigures, returned_total: int, cash_mode: bool)
    ensures
        ({
            let refundable = refundable_of(sale, returned_total);
            let cash_refund = if cash_mode { refundable } else { 0 };
            let posted = return_money_of(returned_total, cash_refund);
            let voided = void_money_of(returned_total, cash_refund);
            &&& balance + entries_total(posted.0) + entries_total(voided.0) == balance
            &&& cash + posted.1 + voided.1 == cash
        }),
{
}

/// With no more collected than the sale total, a return never refunds more
/// than its own value.
pub proof fn law_refund_bounded_by_return(sale: SaleFigures, returned_total: int)
    requires
        returned_total >= 0,
        sale.paid + sale.advance_used <= sale.total,
    ensures
        0 <= refundable_of(sale, returned_total) <= returned_total,
{
}

/// A return refunds exactly what the sale would otherwise keep beyond its
/// reduced total: after the refund, what the sale keeps (collected less the
/// refund) is at most the total less the returned value, and whenever
/// something is refunded it is exactly that. Nothing is refunded while the
/// reduced total still covers what was collected.
pub proof fn law_refund_settles_the_excess(sale: SaleFigures, returned_total: int)
    ensures
        ({
            let collected = sale.paid + sale.advance_used;
            let refund = refundable_of(sale, returned_total);
            &&& refund >= 0
            &&& collected - refund <= sale.total - returned_total
            &&& refund > 0 ==> collected - refund == sale.total - returned_total
            &&& collected <= sale.total - returned_total ==> refund == 0
        }),
{
}

/// A return lowers the sale's due by its value, never below zero: the new due
/// is at most the old one, at least the old due less the returned value, and
/// is either that difference or zero.
pub proof fn law_return_lowers_due(due: int, returned_total: int)
    requires
        due >= 0,
        returned_total >= 0,
        fits(due),
    ensures
        due_after_return(due, returned_total) <= due,
        due_after_return(due, returned_total) >= 0,
        due_after_return(due, returned_total) >= due - returned_total,
        due_after_return(due, returned_total) == due - returned_total || due_after_return(due, returned_total) == 0,
{
}

// ---------------------------------------------------------------------------
// Stock side of a sales return
// ---------------------------------------------------------------------------

/// The products a returned sale line puts back, as (product, units, unit
/// cost): a product line is itself; a bundle line is each of its components
/// (`components`: product, units per bundle, unit cost), times the units
/// returned; a line with neither puts nothing back.
pub open spec fn restore_targets_of(product_id: Option<i64>, is_bundle: bool, unit_cost: i64,
    components: Seq<(i64, i64, i64)>, qty: i64) -> Seq<(i64, i64, i64)> {
    match product_id {
        Some(pid) => seq![(pid, qty, unit_cost)],
        None => if is_bundle {
            components.map_values(|c: (i64, i64, i64)| (c.0, (c.1 * qty) as i64, c.2))
        } else {
            Seq::empty()
        },
    }
}

pub fn restore_targets(product_id: Option<i64>, is_bundle: bool, unit_cost: i64, components: &Vec<(i64, i64, i64)>,
    qty: i64) -> (r: Vec<(i64, i64, i64)>)
    requires
        forall|i: int| 0 <= i < components.len() ==> fits(#[trigger] components@[i].1 * qty),
    ensures
        r@ == restore_targets_of(product_id, is_bundle, unit_cost, components@, qty),
{
    match product_id {
        Some(pid) => {
            let mut r: Vec<(i64, i64, i64)> = Vec::new();
            r.push((pid, qty, unit_cost));
            proof {
                assert(r@ =~= seq![(pid, qty, unit_cost)]);
            }
            r
        },
        None => {
            let mut r: Vec<(i64, i64, i64)> = Vec::new();
            if !is_bundle {
                proof {
                    assert(r@ =~= Seq::<(i64, i64, i64)>::empty());
                }
                return r;
            }
            let ghost want = components@.map_values(|c: (i64, i64, i64)| (c.0, (c.1 * qty) as i64, c.2));
            let mut i: usize = 0;
            while i < components.len()
                invariant
                    i <= components.len(),
                    forall|k: int| 0 <= k < components.len() ==> fits(#[trigger] components@[k].1 * qty),
                    want == components@.map_values(|c: (i64, i64, i64)| (c.0, (c.1 * qty) as i64, c.2)),
                    r@ == want.take(i as int),
                decreases components.len() - i,
            {
                let (cid, per, cost) = components[i];
                assert(fits(components@[i as int].1 * qty));
                r.push((cid, per * qty, cost));
                assert(r@ =~= want.take(i + 1));
                i += 1;
            }
            assert(want.take(components.len() as int) =~= want);
            r
        },
    }
}

/// One step of putting a returned product back into stock, in order.
#[derive(Debug, Clone, Copy, PartialEq, Eq, Structural)]
pub enum RestoreStep {
    /// A `customer_return` movement of the returned units at this unit cost.
    ReturnMovement { quantity: i64, unit_cost: i64 },
    /// The `adjustment` movement that writes disposed units off.
    WriteOffMovement { quantity: i64 },
    /// Add to the units on hand.
    OnHandDelta { delta: i64 },
    /// Move units from on hand to damaged.
    DamageShift { quantity: i64 },
    /// Apply a delta to the damaged units.
    DamagedDelta { delta: i64 },
    /// Open a FIFO cost layer for the returned units.
    CostLayer { quantity: i64, unit_cost: i64 },
}

/// The steps a returned product goes through for each classification:
/// sellable units come back on hand at their cost (with a cost layer when the
/// cost is known); damaged or repair units come back and move to damaged at
/// no cost; disposed units do the same and are then written off.
pub open spec fn restore_steps_of(class: ReturnClass, qty: i64, unit_cost: i64) -> Seq<RestoreStep> {
    match class {
        ReturnClass::Sellable => seq![
            RestoreStep::ReturnMovement { quantity: qty, unit_cost: unit_cost },
            RestoreStep::OnHandDelta { delta: qty },
        ] + if unit_cost > 0 { seq![RestoreStep::CostLayer { quantity: qty, unit_cost: unit_cost }] } else { Seq::empty() },
        ReturnClass::Damaged | ReturnClass::Repair => seq![
            RestoreStep::ReturnMovement { quantity: qty, unit_cost: 0 },
            RestoreStep::OnHandDelta { delta: qty },
            RestoreStep::DamageShift { quantity: qty },
        ],
        ReturnClass::Disposed => seq![
            RestoreStep::ReturnMovement { quantity: qty, unit_cost: 0 },
            RestoreStep::OnHandDelta { delta: qty },
            RestoreStep::DamageShift { quantity: qty },
            RestoreStep::WriteOffMovement { quantity: -qty as i64 },
            RestoreStep::DamagedDelta { delta: qty },
        ],
    }
}

/// How a returned product goes back into stock under the line's
/// classification; an unknown classification is refused.
pub fn restore_steps(classification: &str, qty: i64, unit_cost: i64) -> (r: Result<Vec<RestoreStep>, AppError>)
    requires
        qty != i64::MIN,
    ensures
        match parse_class_spec(classification@) {
            Some(c) => r matches Ok(v) && v@ == restore_steps_of(c, qty, unit_cost),
            None => r matches Err(AppError::Validation(m)) && m@ == "unsupported return classification '"@
                + classification@ + "'"@,
        },
{
    let class = parse_return_class(classification);
    proof {
        lemma_parse_class(classification@, class);
    }
    match class {
        None => {
            let mut m = owned("unsupported return classification '");
            m.append(classification);
            m.append("'");
            Err(AppError::Validation(m))
        },
        Some(c) => {
            let mut v: Vec<RestoreStep> = Vec::new();
            match c {
                ReturnClass::Sellable => {
                    v.push(RestoreStep::ReturnMovement { quantity: qty, unit_cost });
                    v.push(RestoreStep::OnHandDelta { delta: qty });
                    if unit_cost > 0 {
                        v.push(RestoreStep::CostLayer { quantity: qty, unit_cost });
                    }
                },
                ReturnClass::Damaged | ReturnClass::Repair => {
                    v.push(RestoreStep::ReturnMovement { quantity: qty, unit_cost: 0 });
                    v.push(RestoreStep::OnHandDelta { delta: qty });
                    v.push(RestoreStep::DamageShift { quantity: qty });
                },
                ReturnClass::Disposed => {
                    v.push(RestoreStep::ReturnMovement { quantity: qty, unit_cost: 0 });
                    v.push(RestoreStep::OnHandDelta { delta: qty });
                    v.push(RestoreStep::DamageShift { quantity: qty });
                    v.push(RestoreStep::WriteOffMovement { quantity: -qty });
                    v.push(RestoreStep::DamagedDelta { delta: qty });
                },
            }
            proof {
                assert(v@ =~= restore_steps_of(c, qty, unit_cost));
            }
            Ok(v)
        },
    }
}

/// The classification a text names, if supported.
pub open spec fn parse_class_spec(s: Seq<char>) -> Option<ReturnClass> {
    if s == "sellable"@ {
        Some(ReturnClass::Sellable)
    } else if s == "damaged"@ {
        Some(ReturnClass::Damaged)
    } else if s == "repair"@ {
        Some(ReturnClass::Repair)
    } else if s == "disposed"@ {
        Some(ReturnClass::Disposed)
    } else {
        None
    }
}

proof fn lemma_parse_class(s: Seq<char>, r: Option<ReturnClass>)
    requires
        r matches Some(c) ==> class_text(c) == s,
        r is None <==> !known_class(s),
    ensures
        r == parse_class_spec(s),
{
    reveal_strlit("sellable");
    reveal_strlit("damaged");
    reveal_strlit("repair");
    reveal_strlit("disposed");
    assert("sellable"@[0] != "disposed"@[0]);
    assert("sellable"@ != "damaged"@ && "sellable"@ != "repair"@ && "sellable"@ != "disposed"@);
    assert("damaged"@.len() != "repair"@.len() && "damaged"@.len() != "disposed"@.len()
        && "repair"@.len() != "disposed"@.len());
}

/// What voiding a return does to the stock of one returned product: a
/// `cancellation_reversal` movement (`quantity`, at `unit_cost` unless the
/// withdrawn cost layers give an average), and the balance update.
#[derive(Debug, Clone, Copy, PartialEq, Eq, Structural)]
pub enum VoidStock {
    /// Sellable units leave again: the oldest cost layers are withdrawn, the
    /// movement takes them out at their average cost, and on hand drops.
    Withdraw { quantity: i64, fallback_cost: i64 },
    /// Damaged or repair units leave the damaged stock.
    FromDamaged { quantity: i64 },
    /// Disposed units: the write-off is undone.
    UndoWriteOff { quantity: i64 },
}

/// The stock reversal of one returned product; an unknown classification is
/// an internal error (it was accepted when the return was posted).
pub fn void_stock(classification: &str, qty: i64, unit_cost: i64) -> (r: Result<VoidStock, AppError>)
    ensures
        match parse_class_spec(classification@) {
            Some(ReturnClass::Sellable) => r == Ok::<VoidStock, AppError>(VoidStock::Withdraw { quantity: qty, fallback_cost: unit_cost }),
            Some(ReturnClass::Damaged) | Some(ReturnClass::Repair) => r == Ok::<VoidStock, AppError>(VoidStock::FromDamaged { quantity: qty }),
            Some(ReturnClass::Disposed) => r == Ok::<VoidStock, AppError>(VoidStock::UndoWriteOff { quantity: qty }),
            None => r matches Err(AppError::Internal(m)) && m@ == "unsupported classification '"@
                + classification@ + "' on return"@,
        },
{
    let class = parse_return_class(classification);
    proof {
        lemma_parse_class(classification@, class);
    }
    match class {
        Some(ReturnClass::Sellable) => Ok(VoidStock::Withdraw { quantity: qty, fallback_cost: unit_cost }),
        Some(ReturnClass::Damaged) | Some(ReturnClass::Repair) => Ok(VoidStock::FromDamaged { quantity: qty }),
        Some(ReturnClass::Disposed) => Ok(VoidStock::UndoWriteOff { quantity: qty }),
        None => {
            let mut m = owned("unsupported classification '");
            m.append(classification);
            m.append("' on return");
            Err(AppError::Internal(m))
        },
    }
}

/// The (movement delta, unit cost, on-hand delta, damaged delta) a void step
/// posts; `average` is the average cost of the withdrawn layers, if any.
pub open spec fn void_postings_of(v: VoidStock, average: Option<i64>) -> (int, int, int, int) {
    match v {
        VoidStock::Withdraw { quantity, fallback_cost } => (-quantity, match average { Some(a) => a as int, None => fallback_cost as int }, -quantity, 0),
        VoidStock::FromDamaged { quantity } => (-quantity, 0, 0, quantity as int),
        VoidStock::UndoWriteOff { quantity } => (quantity as int, 0, 0, -quantity),
    }
}

pub fn void_postings(v: VoidStock, average: Option<i64>) -> (r: (i64, i64, i64, i64))
    requires
        match v {
            VoidStock::Withdraw { quantity, .. } => quantity != i64::MIN,
            VoidStock::FromDamaged { quantity } => quantity != i64::MIN,
            VoidStock::UndoWriteOff { quantity } => quantity != i64::MIN,
        },
    ensures
        (r.0 as int, r.1 as int, r.2 as int, r.3 as int) == void_postings_of(v, average),
{
    match v {
        VoidStock::Withdraw { quantity, fallback_cost } => {
            let cost = match average { Some(a) => a, None => fallback_cost };
            (-quantity, cost, -quantity, 0)
        },
        VoidStock::FromDamaged { quantity } => (-quantity, 0, 0, quantity),
        VoidStock::UndoWriteOff { quantity } => (quantity, 0, 0, -quantity),
    }
}

/// Voiding a sellable return takes back out exactly what posting it put on
/// hand: the two movements cancel and on hand returns to where it was.
pub proof fn law_void_undoes_sellable_return(qty: i64, unit_cost: i64, average: Option<i64>, on_hand: int)
    requires
        qty != i64::MIN,
    ensures
        ({
            let posted = restore_steps_of(ReturnClass::Sellable, qty, unit_cost);
            let voided = void_postings_of(VoidStock::Withdraw { quantity: qty, fallback_cost: unit_cost }, average);
            &&& posted[0] == RestoreStep::ReturnMovement { quantity: qty, unit_cost: unit_cost }
            &&& posted[1] == RestoreStep::OnHandDelta { delta: qty }
            &&& qty + voided.0 == 0
            &&& on_hand + qty + voided.2 == on_hand
        }),
{
}

// ---------------------------------------------------------------------------
// Damage records
// ---------------------------------------------------------------------------

pub open spec fn known_damage_source(s: Seq<char>) -> bool {
    s == "in_hand"@ || s == "customer_return"@ || s == "count"@ || s == "other"@
}

/// Request checks of a damage record, in this order: a positive quantity, a
/// known source, a non-negative estimated loss (absent is zero) and a
/// non-blank date.
pub fn check_damage_record(quantity: i64, source: &str, estimated_loss: Option<i64>, damage_date: &str) -> (r: Result<(), AppError>)
    ensures
        ({
            let loss_ok = match estimated_loss { Some(l) => l >= 0, None => true };
            &&& r is Ok <==> (quantity > 0 && known_damage_source(source@) && loss_ok && !is_blank(damage_date@))
            &&& quantity <= 0 ==> (r matches Err(AppError::Validation(m)) && m@ == "damage quantity must be positive"@)
            &&& quantity > 0 && !known_damage_source(source@) ==> (r matches Err(AppError::Validation(m))
                && m@ == "unsupported damage source '"@ + source@ + "'"@)
            &&& quantity > 0 && known_damage_source(source@) && !loss_ok ==> (r matches Err(AppError::Validation(m))
                && m@ == "estimated loss cannot be negative"@)
            &&& quantity > 0 && known_damage_source(source@) && loss_ok && is_blank(damage_date@) ==> (r matches Err(
                AppError::Validation(m)) && m@ == "damage date is required"@)
        }),
{
    if quantity <= 0 {
        return Err(validation("damage quantity must be positive"));
    }
    if !(str_eq(source, "in_hand") || str_eq(source, "customer_return") || str_eq(source, "count") || str_eq(source, "other")) {
        let mut m = owned("unsupported damage source '");
        m.append(source);
        m.append("'");
        return Err(AppError::Validation(m));
    }
    let loss = match estimated_loss { Some(l) => l, None => 0 };
    if loss < 0 {
        return Err(validation("estimated loss cannot be negative"));
    }
    if str_is_blank(damage_date) {
        return Err(validation("damage date is required"));
    }
    Ok(())
}

/// Damage can be recorded only out of units on hand at the location.
pub fn check_damage_on_hand(quantity: i64, on_hand: i64) -> (r: Result<(), AppError>)
    ensures
        r is Ok <==> quantity <= on_hand,
        r matches Err(e) ==> e matches AppError::InsufficientStock(m) && m@ == "cannot record damage of "@
            + num_text(quantity as int) + ": only "@ + num_text(on_hand as int) + " on hand"@,
{
    if quantity > on_hand {
        let mut m = owned("cannot record damage of ");
        m.append(int_text(quantity).as_str());
        m.append(": only ");
        m.append(int_text(on_hand).as_str());
        m.append(" on hand");
        return Err(AppError::InsufficientStock(m));
    }
    Ok(())
}

#[derive(Debug, Clone, Copy, PartialEq, Eq, Structural)]
pub enum DamageDecision {
    Repair,
    SupplierReturn,
    DamagedSale,
    WriteOff,
}

pub open spec fn decision_text(d: DamageDecision) -> Seq<char> {
    match d {
        DamageDecision::Repair => "repair"@,
        DamageDecision::SupplierReturn => "supplier_return"@,
        DamageDecision::DamagedSale => "damaged_sale"@,
        DamageDecision::WriteOff => "write_off"@,
    }
}

pub open spec fn known_decision(s: Seq<char>) -> bool {
    s == "repair"@ || s == "supplier_return"@ || s == "damaged_sale"@ || s == "write_off"@
}

/// Request checks of a damage decision: a known decision; a damaged sale must
/// name the sale.
pub fn check_damage_decision(decision: &str, linked_sale_id: Option<i64>) -> (r: Result<DamageDecision, AppError>)
    ensures
        r is Ok <==> (known_decision(decision@) && (decision@ == "damaged_sale"@ ==> linked_sale_id is Some)),
        r matches Ok(d) ==> decision_text(d) == decision@,
        !known_decision(decision@) ==> (r matches Err(AppError::Validation(m))
            && m@ == "unsupported damage decision '"@ + decision@ + "'"@),
        known_decision(decision@) && r is Err ==> (r matches Err(AppError::Validation(m))
            && m@ == "damaged_sale requires a linked sale"@),
{
    let d = if str_eq(decision, "repair") {
        DamageDecision::Repair
    } else if str_eq(decision, "supplier_return") {
        DamageDecision::SupplierReturn
    } else if str_eq(decision, "damaged_sale") {
        DamageDecision::DamagedSale
    } else if str_eq(decision, "write_off") {
        DamageDecision::WriteOff
    } else {
        let mut m = owned("unsupported damage decision '");
        m.append(decision);
        m.append("'");
        return Err(AppError::Validation(m));
    };
    proof {
        reveal_strlit("repair");
        reveal_strlit("supplier_return");
        reveal_strlit("damaged_sale");
        reveal_strlit("write_off");
        assert("repair"@.len() != "damaged_sale"@.len());
        assert("supplier_return"@.len() != "damaged_sale"@.len());
        assert("write_off"@.len() != "damaged_sale"@.len());
    }
    if d == DamageDecision::DamagedSale && linked_sale_id.is_none() {
        return Err(validation("damaged_sale requires a linked sale"));
    }
    Ok(d)
}

/// What `check_damage_resolution` answers, in the order the checks are made.
pub open spec fn resolution_outcome(damage_id: i64, record_status: Seq<char>, linked_sale: Option<(i64, Option<String>)>,
    quantity: i64, damaged: i64) -> Result<(), (Seq<char>, Seq<char>)> {
    if record_status != "open"@ {
        Err(("conflict"@, "damage record "@ + num_text(damage_id as int) + " is already resolved"@))
    } else {
        match linked_sale {
            Some((sid, None)) => Err(("not_found"@, "sale "@ + num_text(sid as int))),
            Some((sid, Some(st))) if st@ != "confirmed"@ =>
                Err(("validation"@, "linked sale "@ + num_text(sid as int) + " is not confirmed"@)),
            _ => if quantity > damaged {
                Err(("insufficient_stock"@, "cannot resolve damage of "@ + num_text(quantity as int) + ": only "@
                    + num_text(damaged as int) + " damaged on hand"@))
            } else {
                Ok(())
            },
        }
    }
}

/// Checks made once the damage record is read: it must still be open; a
/// linked sale (its id and the status read for it, if it exists) must exist
/// and be confirmed; the damaged units must cover the record.
pub fn check_damage_resolution(damage_id: i64, record_status: &str, linked_sale: Option<(i64, Option<String>)>,
    quantity: i64, damaged: i64) -> (r: Result<(), AppError>)
    ensures
        match resolution_outcome(damage_id, record_status@, linked_sale, quantity, damaged) {
            Ok(()) => r is Ok,
            Err(want) => r matches Err(e) && kind_and_message(e) == want,
        },
{
    proof {
        reveal_strlit("conflict");
        reveal_strlit("not_found");
        reveal_strlit("validation");
        reveal_strlit("insufficient_stock");
    }
    if !str_eq(record_status, "open") {
        let mut m = owned("damage record ");
        m.append(int_text(damage_id).as_str());
        m.append(" is already resolved");
        return Err(AppError::Conflict(m));
    }
    match linked_sale {
        Some((sid, None)) => {
            let mut m = owned("sale ");
            m.append(int_text(sid).as_str());
            return Err(AppError::NotFound(m));
        },
        Some((sid, Some(st))) => {
            if !str_eq(st.as_str(), "confirmed") {
                let mut m = owned("linked sale ");
                m.append(int_text(sid).as_str());
                m.append(" is not confirmed");
                return Err(AppError::Validation(m));
            }
        },
        None => {},
    }
    if quantity > damaged {
        let mut m = owned("cannot resolve damage of ");
        m.append(int_text(quantity).as_str());
        m.append(": only ");
        m.append(int_text(damaged).as_str());
        m.append(" damaged on hand");
        return Err(AppError::InsufficientStock(m));
    }
    Ok(())
}

/// Movement kind a damage decision posts.
#[derive(Debug, Clone, Copy, PartialEq, Eq, Structural)]
pub enum DecisionMovement {
    RepairRecovery,
    SupplierReturn,
    Adjustment,
}

/// A repair brings the units back (positive quantity); every other decision
/// takes them out (negative), as a supplier return or an adjustment.
pub fn decision_movement(decision: DamageDecision, quantity: i64) -> (r: (DecisionMovement, i64))
    requires
        quantity != i64::MIN,
    ensures
        r == match decision {
            DamageDecision::Repair => (DecisionMovement::RepairRecovery, quantity),
            DamageDecision::SupplierReturn => (DecisionMovement::SupplierReturn, -quantity as i64),
            DamageDecision::DamagedSale => (DecisionMovement::Adjustment, -quantity as i64),
            DamageDecision::WriteOff => (DecisionMovement::Adjustment, -quantity as i64),
        },
{
    match decision {
        DamageDecision::Repair => (DecisionMovement::RepairRecovery, quantity),
        DamageDecision::SupplierReturn => (DecisionMovement::SupplierReturn, -quantity),
        DamageDecision::DamagedSale => (DecisionMovement::Adjustment, -quantity),
        DamageDecision::WriteOff => (DecisionMovement::Adjustment, -quantity),
    }
}

} // verus!
