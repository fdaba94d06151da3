//! The dashboard: which figures a user may see, the shop's calendar day, and
//! the summary, in which a figure the user may not see is absent rather than
//! shown as zero.
use vstd::prelude::*;

use chrono::{DateTime, Datelike};
use chrono_tz::Tz;

use crate::auth::Principal;
use crate::text::{fmt_padded, format_padded, owned};

verus! {

/// Whether the principal holds at least one of `any`.
pub fn allowed(principal: &Principal, any: &Vec<&str>) -> (r: bool)
    ensures
        r == exists|i: int| 0 <= i < any.len() && principal.holds(#[trigger] any@[i]@),
{
    principal.require_any(any).is_ok()
}

/// Which parts of the dashboard a user may see.
#[derive(Debug, Clone, Copy, PartialEq, Eq, Structural)]
pub struct DashboardAccess {
    pub sales: bool,
    pub receipts: bool,
    pub customers: bool,
    pub payables: bool,
    pub deliveries: bool,
    pub damage: bool,
}

pub open spec fn access_of(p: Principal) -> DashboardAccess {
    DashboardAccess {
        sales: p.holds("sale.create"@) || p.holds("invoice.print"@),
        receipts: p.holds("payment.receive"@) || p.holds("customer.view"@),
        customers: p.holds("payment.receive"@) || p.holds("customer.view"@),
        payables: p.holds("payable.view"@),
        deliveries: p.holds("delivery.view"@),
        damage: p.holds("damage.record"@),
    }
}

fn any_of(principal: &Principal, a: &str, b: &str) -> (r: bool)
    ensures
        r == (principal.holds(a@) || principal.holds(b@)),
{
    principal.require(a).is_ok() || principal.require(b).is_ok()
}

pub fn dashboard_access(principal: &Principal) -> (r: DashboardAccess)
    ensures
        r == access_of(*principal),
{
    DashboardAccess {
        sales: any_of(principal, "sale.create", "invoice.print"),
        receipts: any_of(principal, "payment.receive", "customer.view"),
        customers: any_of(principal, "payment.receive", "customer.view"),
        payables: principal.require("payable.view").is_ok(),
        deliveries: principal.require("delivery.view").is_ok(),
        damage: principal.require("damage.record").is_ok(),
    }
}

// ---------------------------------------------------------------------------
// The shop's calendar day
// ---------------------------------------------------------------------------

/// The string a JSON text holds, if it holds one.
pub uninterp spec fn json_string_value(text: Seq<char>) -> Option<Seq<char>>;

/// `serde_json::from_str::<String>` of serde_json; `None` on an error. The
/// result is named, not described.
#[verifier::external_body]
pub(crate) fn parse_json_string(text: &str) -> (r: Option<String>)
    ensures
        match json_string_value(text@) {
            Some(s) => r matches Some(x) && x@ == s,
            None => r is None,
        },
{
    serde_json::from_str::<String>(text).ok()
}

/// The first and last instants (seconds after the epoch, UTC) the shop's
/// calendar is read for: chrono's range of dates less one day at each end
/// (2 January of year -262143 to 30 December of year 262142), so that no
/// zone's offset, always under a day, takes the local date out of range.
pub const EARLIEST_SHOP_SECS: i64 = -8334601228800;
pub const LATEST_SHOP_SECS: i64 = 8210266790399;

/// Year, month and day, in the time zone named `zone`, of the instant `secs`
/// seconds after the epoch; `None` when the zone is not in the time-zone
/// database.
pub uninterp spec fn zone_date(zone: Seq<char>, secs: i64) -> Option<(i32, u32, u32)>;

/// chrono-tz: `zone.parse::<Tz>()`, then chrono's `DateTime::from_timestamp`
/// moved into that zone with `with_timezone` and read back as
/// `date_naive()`'s year, month and day. `date_naive` panics when the zone's
/// offset takes the local time outside what a naive date-time can hold, so
/// the instant is held a day inside chrono's range. The result is named, not
/// described.
#[verifier::external_body]
fn local_date(zone: &str, secs: i64) -> (r: Option<(i32, u32, u32)>)
    requires
        EARLIEST_SHOP_SECS <= secs <= LATEST_SHOP_SECS,
    ensures
        r == zone_date(zone@, secs),
{
    let tz = zone.parse::<Tz>().ok()?;
    let d = DateTime::from_timestamp(secs, 0)?.with_timezone(&tz).date_naive();
    Some((d.year(), d.month(), d.day()))
}

/// The RFC 3339 text of the UTC instant `secs` seconds and `nanos`
/// nanoseconds after the epoch; `None` when there is no such instant.
pub uninterp spec fn utc_rfc3339_text(secs: i64, nanos: u32) -> Option<Seq<char>>;

/// chrono: `DateTime::from_timestamp(secs, nanos)` (`None` when out of range),
/// written by `to_rfc3339`, which cannot fail on a `String`. The result is
/// named, not described.
#[verifier::external_body]
fn utc_rfc3339(secs: i64, nanos: u32) -> (r: Option<String>)
    ensures
        match utc_rfc3339_text(secs, nanos) {
            Some(t) => r matches Some(x) && x@ == t,
            None => r is None,
        },
{
    DateTime::from_timestamp(secs, nanos).map(|t| t.to_rfc3339())
}

/// A year as `%Y` writes it: four digits for the years 0 to 9999, otherwise
/// with its sign and at least four digits.
pub open spec fn year_text(year: int) -> Seq<char> {
    if 0 <= year <= 9999 {
        fmt_padded(year, 4)
    } else if year < 0 {
        fmt_padded(year, 5)
    } else {
        seq!['+'] + fmt_padded(year, 4)
    }
}

/// A date as `%Y-%m-%d` writes it.
pub open spec fn ymd_text(year: int, month: int, day: int) -> Seq<char> {
    year_text(year) + "-"@ + fmt_padded(month, 2) + "-"@ + fmt_padded(day, 2)
}

fn ymd(year: i32, month: u32, day: u32) -> (r: String)
    ensures
        r@ == ymd_text(year as int, month as int, day as int),
{
    let mut s = if 0 <= year && year <= 9999 {
        format_padded(year as i64, 4)
    } else if year < 0 {
        format_padded(year as i64, 5)
    } else {
        let mut plus = owned("+");
        plus.append(format_padded(year as i64, 4).as_str());
        proof {
            reveal_strlit("+");
            assert(plus@ =~= seq!['+'] + fmt_padded(year as int, 4));
        }
        plus
    };
    s.append("-");
    s.append(format_padded(month as i64, 2).as_str());
    s.append("-");
    s.append(format_padded(day as i64, 2).as_str());
    s
}

/// The shop's time zone: the stored setting's string, `Asia/Karachi` when
/// none is stored or it is not a JSON string.
pub open spec fn shop_zone(setting: Option<String>) -> Seq<char> {
    match setting {
        Some(raw) => match json_string_value(raw@) {
            Some(name) => name,
            None => "Asia/Karachi"@,
        },
        None => "Asia/Karachi"@,
    }
}

/// The dashboard's clock at an instant: the shop's day, the first day of its
/// month, and the instant itself as RFC 3339 text.
#[derive(Debug)]
pub struct ShopClock {
    pub shop_date: String,
    pub month_start: String,
    pub as_of: String,
}

/// The shop's clock at `secs` (and `nanos`) UTC. A time zone that is not in
/// the database falls back to UTC.
pub fn shop_dates(setting: &Option<String>, secs: i64, nanos: u32) -> (r: Option<ShopClock>)
    requires
        EARLIEST_SHOP_SECS <= secs <= LATEST_SHOP_SECS,
    ensures
        ({
            let day = match zone_date(shop_zone(*setting), secs) {
                Some(d) => Some(d),
                None => zone_date("UTC"@, secs),
            };
            match (day, utc_rfc3339_text(secs, nanos)) {
                (Some((y, m, d)), Some(t)) => r matches Some(c) && c.shop_date@ == ymd_text(y as int, m as int, d as int)
                    && c.month_start@ == ymd_text(y as int, m as int, 1) && c.as_of@ == t,
                _ => r is None,
            }
        }),
{
    let zone = match setting {
        Some(raw) => match parse_json_string(raw.as_str()) {
            Some(name) => name,
            None => owned("Asia/Karachi"),
        },
        None => owned("Asia/Karachi"),
    };
    let day = match local_date(zone.as_str(), secs) {
        Some(d) => Some(d),
        None => local_date("UTC", secs),
    };
    let as_of = utc_rfc3339(secs, nanos);
    match (day, as_of) {
        (Some((y, m, d)), Some(t)) => Some(ShopClock { shop_date: ymd(y, m, d), month_start: ymd(y, m, 1), as_of: t }),
        _ => None,
    }
}

// ---------------------------------------------------------------------------
// The summary
// ---------------------------------------------------------------------------

/// An open delivery as the dashboard lists it.
#[derive(Debug)]
pub struct DashboardDelivery {
    pub id: i64,
    pub delivery_number: Option<String>,
    pub sale_id: i64,
    pub customer_id: Option<i64>,
    pub customer_name: String,
    pub items: String,
    pub scheduled_at: Option<String>,
    pub status: String,
    pub is_overdue: bool,
}

/// Whether a recent transaction is a confirmed sale or a posted receipt.
#[derive(Debug, Clone, Copy, PartialEq, Eq, Structural)]
pub enum TransactionKind {
    Sale,
    Payment,
}

/// A recent transaction as the dashboard lists it.
#[derive(Debug)]
pub struct DashboardTransaction {
    pub id: i64,
    pub customer_id: Option<i64>,
    pub transaction_date: String,
    pub customer_name: String,
    pub reference: String,
    pub kind: TransactionKind,
    pub amount_minor: i64,
}

/// The figures the dashboard read, each group where it was read.
#[derive(Debug)]
pub struct DashboardFigures {
    /// Sales today: count, net total; net total of the month.
    pub sales: Option<(i64, i64, i64)>,
    /// Receipts today: count and total.
    pub receipts: Option<(i64, i64)>,
    /// Customer dues, overdue customer count and total.
    pub customers: Option<(i64, i64, i64)>,
    /// Supplier payables, overdue supplier count and total.
    pub payables: Option<(i64, i64, i64)>,
    pub pending_deliveries: Option<i64>,
    pub open_damage: Option<i64>,
    pub low_stock_count: i64,
    /// The open deliveries read, soonest due first.
    pub upcoming_deliveries: Vec<DashboardDelivery>,
    /// The latest sales and receipts read, newest first.
    pub recent_transactions: Vec<DashboardTransaction>,
}

#[derive(Debug)]
pub struct DashboardSummary {
    pub as_of: String,
    pub shop_date: String,
    pub today_sales_count: Option<i64>,
    pub today_sales_minor: Option<i64>,
    pub month_sales_minor: Option<i64>,
    pub today_received_count: Option<i64>,
    pub today_received_minor: Option<i64>,
    pub customer_dues_minor: Option<i64>,
    pub overdue_customer_count: Option<i64>,
    pub overdue_customer_minor: Option<i64>,
    pub supplier_payables_minor: Option<i64>,
    pub overdue_supplier_count: Option<i64>,
    pub overdue_supplier_minor: Option<i64>,
    pub pending_deliveries: Option<i64>,
    pub low_stock_count: i64,
    pub open_damage_count: Option<i64>,
    pub upcoming_deliveries: Vec<DashboardDelivery>,
    pub recent_transactions: Vec<DashboardTransaction>,
}

/// A group of figures shows only where the user may see it.
pub open spec fn shown<T>(visible: bool, read: Option<T>) -> Option<T> {
    if visible {
        read
    } else {
        None
    }
}

pub open spec fn first_of(v: Option<(i64, i64, i64)>) -> Option<i64> {
    match v {
        Some(t) => Some(t.0),
        None => None,
    }
}

pub open spec fn second_of(v: Option<(i64, i64, i64)>) -> Option<i64> {
    match v {
        Some(t) => Some(t.1),
        None => None,
    }
}

pub open spec fn third_of(v: Option<(i64, i64, i64)>) -> Option<i64> {
    match v {
        Some(t) => Some(t.2),
        None => None,
    }
}

/// A sale shows to those who may see sales, a receipt to those who may see
/// receipts.
pub open spec fn transaction_visible(access: DashboardAccess, t: DashboardTransaction) -> bool {
    match t.kind {
        TransactionKind::Sale => access.sales,
        TransactionKind::Payment => access.receipts,
    }
}

/// The transactions of `s` the user may see, in their order.
pub open spec fn visible_transactions(access: DashboardAccess, s: Seq<DashboardTransaction>) -> Seq<DashboardTransaction>
    decreases s.len(),
{
    if s.len() == 0 {
        s
    } else {
        let rest = visible_transactions(access, s.drop_last());
        if transaction_visible(access, s.last()) { rest.push(s.last()) } else { rest }
    }
}

fn keep_visible(access: DashboardAccess, read: Vec<DashboardTransaction>) -> (r: Vec<DashboardTransaction>)
    ensures
        r@ == visible_transactions(access, read@),
{
    let ghost all = read@;
    let mut rest = read;
    let mut out: Vec<DashboardTransaction> = Vec::new();
    let ghost mut k: int = 0;
    while rest.len() > 0
        invariant
            0 <= k <= all.len(),
            rest@ == all.subrange(k, all.len() as int),
            out@ == visible_transactions(access, all.take(k)),
        decreases rest.len(),
    {
        let t = rest.remove(0);
        proof {
            assert(all.take(k + 1).drop_last() =~= all.take(k));
            assert(all.take(k + 1).last() == t);
        }
        let show = match t.kind {
            TransactionKind::Sale => access.sales,
            TransactionKind::Payment => access.receipts,
        };
        if show {
            out.push(t);
        }
        proof {
            k = k + 1;
            assert(rest@ =~= all.subrange(k, all.len() as int));
        }
    }
    proof {
        assert(all.take(k) =~= all);
    }
    out
}

fn gate3(visible: bool, v: Option<(i64, i64, i64)>) -> (r: (Option<i64>, Option<i64>, Option<i64>))
    ensures
        r.0 == first_of(shown(visible, v)),
        r.1 == second_of(shown(visible, v)),
        r.2 == third_of(shown(visible, v)),
{
    if !visible {
        return (None, None, None);
    }
    match v {
        Some((a, b, c)) => (Some(a), Some(b), Some(c)),
        None => (None, None, None),
    }
}

/// What the summary of these figures is for a user with this access: each
/// figure shows where the user may see its group and it was read, every other
/// figure is absent (never a zero); the open deliveries show only to those
/// who may see deliveries, and of the recent transactions only the kinds the
/// user may see.
pub open spec fn summary_of(r: DashboardSummary, access: DashboardAccess, clock: ShopClock, figures: DashboardFigures) -> bool {
    &&& r.as_of == clock.as_of
    &&& r.shop_date == clock.shop_date
    &&& r.today_sales_count == first_of(shown(access.sales, figures.sales))
    &&& r.today_sales_minor == second_of(shown(access.sales, figures.sales))
    &&& r.month_sales_minor == third_of(shown(access.sales, figures.sales))
    &&& r.today_received_count == (match shown(access.receipts, figures.receipts) {
        Some(t) => Some(t.0),
        None => None::<i64>,
    })
    &&& r.today_received_minor == (match shown(access.receipts, figures.receipts) {
        Some(t) => Some(t.1),
        None => None::<i64>,
    })
    &&& r.customer_dues_minor == first_of(shown(access.customers, figures.customers))
    &&& r.overdue_customer_count == second_of(shown(access.customers, figures.customers))
    &&& r.overdue_customer_minor == third_of(shown(access.customers, figures.customers))
    &&& r.supplier_payables_minor == first_of(shown(access.payables, figures.payables))
    &&& r.overdue_supplier_count == second_of(shown(access.payables, figures.payables))
    &&& r.overdue_supplier_minor == third_of(shown(access.payables, figures.payables))
    &&& r.pending_deliveries == shown(access.deliveries, figures.pending_deliveries)
    &&& r.low_stock_count == figures.low_stock_count
    &&& r.open_damage_count == shown(access.damage, figures.open_damage)
    &&& r.upcoming_deliveries@ == if access.deliveries { figures.upcoming_deliveries@ } else { Seq::empty() }
    &&& r.recent_transactions@ == visible_transactions(access, figures.recent_transactions@)
}

/// The summary of the figures read at the shop's clock, for a user with
/// this access.
pub fn dashboard_summary(access: DashboardAccess, clock: ShopClock, figures: DashboardFigures) -> (r: DashboardSummary)
    ensures
        summary_of(r, access, clock, figures),
{
    let (today_sales_count, today_sales_minor, month_sales_minor) = gate3(access.sales, figures.sales);
    let (today_received_count, today_received_minor) = if access.receipts {
        match figures.receipts {
            Some((a, b)) => (Some(a), Some(b)),
            None => (None, None),
        }
    } else {
        (None, None)
    };
    let (customer_dues_minor, overdue_customer_count, overdue_customer_minor) = gate3(access.customers, figures.customers);
    let (supplier_payables_minor, overdue_supplier_count, overdue_supplier_minor) = gate3(access.payables, figures.payables);
    let upcoming_deliveries = if access.deliveries { figures.upcoming_deliveries } else { Vec::new() };
    let recent_transactions = keep_visible(access, figures.recent_transactions);
    DashboardSummary {
        as_of: clock.as_of,
        shop_date: clock.shop_date,
        today_sales_count,
        today_sales_minor,
        month_sales_minor,
        today_received_count,
        today_received_minor,
        customer_dues_minor,
        overdue_customer_count,
        overdue_customer_minor,
        supplier_payables_minor,
        overdue_supplier_count,
        overdue_supplier_minor,
        pending_deliveries: if access.deliveries { figures.pending_deliveries } else { None },
        low_stock_count: figures.low_stock_count,
        open_damage_count: if access.damage { figures.open_damage } else { None },
        upcoming_deliveries,
        recent_transactions,
    }
}

proof fn lemma_none_visible(access: DashboardAccess, s: Seq<DashboardTransaction>)
    requires
        !access.sales,
        !access.receipts,
    ensures
        visible_transactions(access, s).len() == 0,
    decreases s.len(),
{
    if s.len() > 0 {
        lemma_none_visible(access, s.drop_last());
    }
}

/// Restricted figures are absent, not zero: for a user with no permission
/// the summary shows no sales, receipt, customer, payable, delivery or damage
/// figure, no upcoming delivery and no recent transaction, whatever was read.
pub proof fn law_restricted_figures_absent(principal: Principal, r: DashboardSummary, clock: ShopClock, figures: DashboardFigures)
    requires
        principal.permissions@.len() == 0,
        summary_of(r, access_of(principal), clock, figures),
    ensures
        r.today_sales_count is None,
        r.today_sales_minor is None,
        r.month_sales_minor is None,
        r.today_received_count is None,
        r.today_received_minor is None,
        r.customer_dues_minor is None,
        r.overdue_customer_count is None,
        r.overdue_customer_minor is None,
        r.supplier_payables_minor is None,
        r.overdue_supplier_count is None,
        r.overdue_supplier_minor is None,
        r.pending_deliveries is None,
        r.open_damage_count is None,
        r.upcoming_deliveries@.len() == 0,
        r.recent_transactions@.len() == 0,
{
    assert(crate::auth::texts(principal.permissions@).len() == 0);
    lemma_none_visible(access_of(principal), figures.recent_transactions@);
}

} // verus!
