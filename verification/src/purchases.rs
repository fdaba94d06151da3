//! Supplier purchases, payments and returns: the checks before posting, the
//! totals, and how a payment is spread over open invoices and taken back.
use vstd::prelude::*;

use chrono::Datelike;

use crate::error::{validation, AppError};
use crate::inventory::fits;
use crate::ledger::{allocate_oldest_first, dues_of, oldest_first_plan, unapplied, void_allocation};
use crate::text::{int_text, is_blank, num_text, owned, str_eq, str_is_blank, trim, trim_str};

verus! {

/// One line of a purchase or a supplier return.
#[derive(Debug, Clone, Copy, PartialEq, Eq, Structural)]
pub struct PurchaseLine {
    pub product_id: i64,
    pub quantity: i64,
    pub unit_cost_minor: i64,
}

/// `x` clamped to the range of `i64`, as a saturating operation gives it.
pub open spec fn saturate(x: int) -> int {
    if x > i64::MAX {
        i64::MAX as int
    } else if x < i64::MIN {
        i64::MIN as int
    } else {
        x
    }
}

/// `a.saturating_mul(b)`.
pub fn saturating_mul(a: i64, b: i64) -> (r: i64)
    ensures
        r == saturate(a * b),
{
    assert(-0x4000_0000_0000_0000_0000_0000_0000_0000 <= (a as int) * (b as int)
        <= 0x4000_0000_0000_0000_0000_0000_0000_0000) by (nonlinear_arith)
        requires
            i64::MIN <= a <= i64::MAX,
            i64::MIN <= b <= i64::MAX,
    ;
    let p = a as i128 * b as i128;
    if p > i64::MAX as i128 {
        i64::MAX
    } else if p < i64::MIN as i128 {
        i64::MIN
    } else {
        p as i64
    }
}

/// `a.saturating_add(b)`.
pub fn saturating_add(a: i64, b: i64) -> (r: i64)
    ensures
        r == saturate(a + b),
{
    let s = a as i128 + b as i128;
    if s > i64::MAX as i128 {
        i64::MAX
    } else if s < i64::MIN as i128 {
        i64::MIN
    } else {
        s as i64
    }
}

/// A line's total: quantity times unit cost, saturating.
pub open spec fn line_total(line: PurchaseLine) -> int {
    saturate(line.quantity * line.unit_cost_minor)
}

/// The total of the lines, each line total added with an overflow check:
/// `None` once a sum leaves `i64`.
pub open spec fn checked_total(lines: Seq<PurchaseLine>) -> Option<int>
    decreases lines.len(),
{
    if lines.len() == 0 {
        Some(0)
    } else {
        match checked_total(lines.drop_last()) {
            None => None,
            Some(t) => if fits(t + line_total(lines.last())) {
                Some(t + line_total(lines.last()))
            } else {
                None
            },
        }
    }
}

/// The total of the lines, every sum saturating.
pub open spec fn saturated_total(lines: Seq<PurchaseLine>) -> int
    decreases lines.len(),
{
    if lines.len() == 0 {
        0
    } else {
        saturate(saturated_total(lines.drop_last()) + line_total(lines.last()))
    }
}

/// An overflow already seen stays an overflow.
proof fn lemma_checked_total_none(lines: Seq<PurchaseLine>, n: int)
    requires
        0 <= n <= lines.len(),
        checked_total(lines.take(n)) is None,
    ensures
        checked_total(lines) is None,
    decreases lines.len() - n,
{
    if n < lines.len() {
        assert(lines.take(n + 1).drop_last() =~= lines.take(n));
        lemma_checked_total_none(lines, n + 1);
    } else {
        assert(lines.take(n) =~= lines);
    }
}

/// A purchase's total; an overflow refuses the purchase.
pub fn purchase_total(lines: &Vec<PurchaseLine>) -> (r: Result<i64, AppError>)
    ensures
        match checked_total(lines@) {
            Some(t) => r == Ok::<i64, AppError>(t as i64),
            None => r matches Err(AppError::Validation(m)) && m@ == "purchase total overflow"@,
        },
{
    let mut total: i64 = 0;
    let mut i: usize = 0;
    assert(lines@.take(0) =~= Seq::<PurchaseLine>::empty());
    while i < lines.len()
        invariant
            i <= lines.len(),
            checked_total(lines@.take(i as int)) == Some(total as int),
        decreases lines.len() - i,
    {
        let line = saturating_mul(lines[i].quantity, lines[i].unit_cost_minor);
        proof {
            assert(lines@.take(i + 1).drop_last() =~= lines@.take(i as int));
            assert(lines@.take(i + 1).last() == lines@[i as int]);
        }
        match total.checked_add(line) {
            Some(t) => {
                total = t;
            },
            None => {
                proof {
                    lemma_checked_total_none(lines@, i + 1);
                }
                return Err(validation("purchase total overflow"));
            },
        }
        i += 1;
    }
    assert(lines@.take(lines@.len() as int) =~= lines@);
    Ok(total)
}

/// A return's total, every sum saturating.
pub fn return_total(lines: &Vec<PurchaseLine>) -> (r: i64)
    ensures
        r == saturated_total(lines@),
{
    let mut total: i64 = 0;
    let mut i: usize = 0;
    assert(lines@.take(0) =~= Seq::<PurchaseLine>::empty());
    while i < lines.len()
        invariant
            i <= lines.len(),
            total == saturated_total(lines@.take(i as int)),
        decreases lines.len() - i,
    {
        let line = saturating_mul(lines[i].quantity, lines[i].unit_cost_minor);
        proof {
            assert(lines@.take(i + 1).drop_last() =~= lines@.take(i as int));
            assert(lines@.take(i + 1).last() == lines@[i as int]);
        }
        total = saturating_add(total, line);
        i += 1;
    }
    assert(lines@.take(lines@.len() as int) =~= lines@);
    total
}

// ---------------------------------------------------------------------------
// Purchases
// ---------------------------------------------------------------------------

/// The first line at fault, if any: quantities must be positive and unit
/// costs not negative.
pub open spec fn first_line_fault(lines: Seq<PurchaseLine>) -> Option<Seq<char>>
    decreases lines.len(),
{
    if lines.len() == 0 {
        None
    } else {
        match first_line_fault(lines.drop_last()) {
            Some(m) => Some(m),
            None => if lines.last().quantity <= 0 {
                Some("purchase quantity must be positive"@)
            } else if lines.last().unit_cost_minor < 0 {
                Some("unit cost cannot be negative"@)
            } else {
                None
            },
        }
    }
}

proof fn lemma_line_fault_prefix(lines: Seq<PurchaseLine>, n: int)
    requires
        0 <= n <= lines.len(),
        first_line_fault(lines.take(n)) is Some,
    ensures
        first_line_fault(lines) == first_line_fault(lines.take(n)),
    decreases lines.len() - n,
{
    if n < lines.len() {
        assert(lines.take(n + 1).drop_last() =~= lines.take(n));
        lemma_line_fault_prefix(lines, n + 1);
    } else {
        assert(lines.take(n) =~= lines);
    }
}

/// Why a draft purchase is refused before anything is read.
pub open spec fn purchase_draft_fault(invoice_number: Seq<char>, lines: Seq<PurchaseLine>) -> Option<
    Seq<char>,
> {
    if is_blank(invoice_number) {
        Some("supplier invoice number is required"@)
    } else if lines.len() == 0 {
        Some("purchase must have at least one item"@)
    } else {
        first_line_fault(lines)
    }
}

/// A draft purchase needs an invoice number and at least one line, each with
/// a positive quantity and a unit cost that is not negative. The invoice
/// number comes back trimmed.
pub fn check_purchase_draft(invoice_number: &str, lines: &Vec<PurchaseLine>) -> (r: Result<
    String,
    AppError,
>)
    ensures
        match purchase_draft_fault(invoice_number@, lines@) {
            Some(msg) => r matches Err(AppError::Validation(m)) && m@ == msg,
            None => r matches Ok(n) && n@ == trim(invoice_number@),
        },
{
    if str_is_blank(invoice_number) {
        return Err(validation("supplier invoice number is required"));
    }
    if lines.len() == 0 {
        return Err(validation("purchase must have at least one item"));
    }
    let mut i: usize = 0;
    assert(lines@.take(0) =~= Seq::<PurchaseLine>::empty());
    while i < lines.len()
        invariant
            i <= lines.len(),
            lines.len() > 0,
            !is_blank(invoice_number@),
            first_line_fault(lines@.take(i as int)) is None,
        decreases lines.len() - i,
    {
        proof {
            assert(lines@.take(i + 1).drop_last() =~= lines@.take(i as int));
            assert(lines@.take(i + 1).last() == lines@[i as int]);
        }
        if lines[i].quantity <= 0 {
            proof {
                lemma_line_fault_prefix(lines@, i + 1);
            }
            return Err(validation("purchase quantity must be positive"));
        }
        if lines[i].unit_cost_minor < 0 {
            proof {
                lemma_line_fault_prefix(lines@, i + 1);
            }
            return Err(validation("unit cost cannot be negative"));
        }
        i += 1;
    }
    assert(lines@.take(lines@.len() as int) =~= lines@);
    Ok(trim_str(invoice_number))
}

/// The purchase date: as given, or the invoice date.
pub fn purchase_date_of(purchase_date: Option<String>, invoice_date: &String) -> (r: String)
    ensures
        r == match purchase_date {
            Some(d) => d,
            None => *invoice_date,
        },
{
    match purchase_date {
        Some(d) => d,
        None => invoice_date.clone(),
    }
}

/// The supplier's invoice is already on record.
pub fn duplicate_invoice(invoice_number: &str) -> (e: AppError)
    ensures
        e matches AppError::Conflict(m) && m@ == "supplier invoice '"@ + invoice_number@
            + "' is already recorded"@,
{
    let mut m = owned("supplier invoice '");
    m.append(invoice_number);
    m.append("' is already recorded");
    AppError::Conflict(m)
}

/// What is paid at posting: not negative, and a paid purchase names the
/// cash account and the payment method. Nothing given is nothing paid.
pub fn check_purchase_payment(
    paid_minor: Option<i64>,
    cash_account_id: Option<i64>,
    payment_method_id: Option<i64>,
) -> (r: Result<i64, AppError>)
    ensures
        ({
            let paid: int = match paid_minor {
                Some(p) => p as int,
                None => 0,
            };
            if paid < 0 {
                r matches Err(AppError::Validation(m)) && m@ == "paid amount cannot be negative"@
            } else if paid > 0 && (cash_account_id is None || payment_method_id is None) {
                r matches Err(AppError::Validation(m)) && m@
                    == "cash account and payment method are required for a paid purchase"@
            } else {
                r == Ok::<i64, AppError>(paid as i64)
            }
        }),
{
    let paid = match paid_minor {
        Some(p) => p,
        None => 0,
    };
    if paid < 0 {
        return Err(validation("paid amount cannot be negative"));
    }
    if paid > 0 && (cash_account_id.is_none() || payment_method_id.is_none()) {
        return Err(validation("cash account and payment method are required for a paid purchase"));
    }
    Ok(paid)
}

pub open spec fn purchase_missing_message(purchase_id: i64) -> Seq<char> {
    "purchase "@ + num_text(purchase_id as int)
}

pub fn purchase_missing(purchase_id: i64) -> (e: AppError)
    ensures
        e matches AppError::NotFound(m) && m@ == purchase_missing_message(purchase_id),
{
    let mut m = owned("purchase ");
    m.append(int_text(purchase_id).as_str());
    AppError::NotFound(m)
}

/// Only a draft purchase is posted.
pub fn check_purchase_is_draft(purchase_id: i64, status: &str) -> (r: Result<(), AppError>)
    ensures
        status@ == "draft"@ ==> r is Ok,
        status@ != "draft"@ ==> (r matches Err(AppError::Conflict(m)) && m@ == "purchase "@
            + num_text(purchase_id as int) + " is not a draft"@),
{
    if str_eq(status, "draft") {
        return Ok(());
    }
    let mut m = owned("purchase ");
    m.append(int_text(purchase_id).as_str());
    m.append(" is not a draft");
    Err(AppError::Conflict(m))
}

/// Posting a purchase: it must have lines, a total within range, and no
/// more paid than the total; what is left is due.
pub fn plan_purchase_post(lines: &Vec<PurchaseLine>, paid: i64) -> (r: Result<(i64, i64), AppError>)
    requires
        paid >= 0,
    ensures
        lines.len() == 0 ==> (r matches Err(AppError::Validation(m)) && m@
            == "purchase has no items to post"@),
        lines.len() > 0 ==> match checked_total(lines@) {
            None => r matches Err(AppError::Validation(m)) && m@ == "purchase total overflow"@,
            Some(total) => if paid > total {
                r matches Err(AppError::Validation(m)) && m@
                    == "paid amount cannot exceed the purchase total"@
            } else {
                r == Ok::<(i64, i64), AppError>((total as i64, (total - paid) as i64))
            },
        },
{
    if lines.len() == 0 {
        return Err(validation("purchase has no items to post"));
    }
    let total = purchase_total(lines)?;
    if paid > total {
        return Err(validation("paid amount cannot exceed the purchase total"));
    }
    Ok((total, total - paid))
}

// ---------------------------------------------------------------------------
// Payable aging
// ---------------------------------------------------------------------------

/// Days from the common era that a `%Y-%m-%d` date text denotes, if it is one.
pub uninterp spec fn calendar_day(text: Seq<char>) -> Option<i32>;

/// `NaiveDate::parse_from_str(text, "%Y-%m-%d")` of chrono, read back as
/// `num_days_from_ce()`; `None` on a parse error. The result is named, not
/// described.
#[verifier::external_body]
pub(crate) fn parse_calendar_day(text: &str) -> (r: Option<i32>)
    ensures
        r == calendar_day(text@),
{
    chrono::NaiveDate::parse_from_str(text, "%Y-%m-%d").ok().map(|d| d.num_days_from_ce())
}

/// Whole days from the invoice date to today; zero when either is not a date.
pub fn age_in_days(invoice_date: &str, today: &str) -> (r: i64)
    ensures
        r == match (calendar_day(invoice_date@), calendar_day(today@)) {
            (Some(a), Some(b)) => b - a,
            _ => 0,
        },
{
    match (parse_calendar_day(invoice_date), parse_calendar_day(today)) {
        (Some(a), Some(b)) => b as i64 - a as i64,
        _ => 0,
    }
}

/// The aging bucket of an open invoice.
pub open spec fn bucket_text(age_days: int) -> Seq<char> {
    if age_days <= 30 {
        "0-30"@
    } else if age_days <= 60 {
        "31-60"@
    } else if age_days <= 90 {
        "61-90"@
    } else {
        "90+"@
    }
}

pub fn bucket_for(age_days: i64) -> (r: String)
    ensures
        r@ == bucket_text(age_days as int),
{
    if age_days <= 30 {
        owned("0-30")
    } else if age_days <= 60 {
        owned("31-60")
    } else if age_days <= 90 {
        owned("61-90")
    } else {
        owned("90+")
    }
}

/// The date part of an ISO timestamp: what comes before the first `T`.
pub open spec fn date_part_of(iso: Seq<char>) -> Seq<char> {
    if exists|i: int| 0 <= i < iso.len() && iso[i] == 'T' {
        let i = choose|i: int|
            0 <= i < iso.len() && iso[i] == 'T' && forall|j: int| 0 <= j < i ==> iso[j] != 'T';
        iso.take(i)
    } else {
        iso
    }
}

pub fn date_part(iso: &str) -> (r: String)
    ensures
        r@ == date_part_of(iso@),
{
    let v = crate::text::chars_of(iso);
    let mut i: usize = 0;
    while i < v.len() && v[i] != 'T'
        invariant
            i <= v.len(),
            v@ == iso@,
            forall|j: int| 0 <= j < i ==> v@[j] != 'T',
        decreases v.len() - i,
    {
        i += 1;
    }
    if i < v.len() {
        proof {
            let k = choose|k: int|
                0 <= k < iso@.len() && iso@[k] == 'T' && forall|j: int| 0 <= j < k ==> iso@[j] != 'T';
            assert(0 <= k < iso@.len() && iso@[k] == 'T' && forall|j: int| 0 <= j < k ==> iso@[j]
                != 'T') by {
                assert(0 <= i < iso@.len() && iso@[i as int] == 'T' && forall|j: int|
                    0 <= j < i ==> iso@[j] != 'T');
            }
            if k < i {
            } else if k > i {
                assert(iso@[i as int] != 'T');
            }
            assert(k == i);
        }
        crate::text::string_of_range(&v, 0, i)
    } else {
        assert(v@.take(v@.len() as int) =~= v@);
        crate::text::string_of_range(&v, 0, i)
    }
}

// ---------------------------------------------------------------------------
// Supplier payments
// ---------------------------------------------------------------------------

/// A supplier payment must be positive.
pub fn check_payment_amount(amount_minor: i64) -> (r: Result<(), AppError>)
    ensures
        amount_minor > 0 ==> r is Ok,
        amount_minor <= 0 ==> (r matches Err(AppError::Validation(m)) && m@
            == "payment amount must be positive"@),
{
    if amount_minor <= 0 {
        return Err(validation("payment amount must be positive"));
    }
    Ok(())
}

/// The payment's amount applied to the supplier's open invoices (their dues,
/// oldest first): each invoice takes what it owes, up to what is left, and
/// the allocations add up to the whole amount; refused when the amount
/// exceeds what is open.
pub fn allocate_supplier_payment(supplier_id: i64, amount_minor: i64, dues: &Vec<i64>) -> (r:
    Result<Vec<i64>, AppError>)
    requires
        amount_minor > 0,
        forall|i: int| 0 <= i < dues.len() ==> dues@[i] > 0,
    ensures
        ({
            let open = crate::inventory::sum_upto(dues_of(dues@), dues.len() as int);
            match r {
                Ok(allocs) => {
                    &&& amount_minor <= open
                    &&& oldest_first_plan(amount_minor as int, dues@, allocs@, 0)
                    &&& crate::inventory::sum_upto(dues_of(allocs@), allocs.len() as int) == amount_minor
                },
                Err(e) => {
                    &&& amount_minor > open
                    &&& e matches AppError::Validation(m) && m@
                        == "payment exceeds open payables for supplier "@ + num_text(supplier_id as int)
                        + " by "@ + num_text(amount_minor - open)
                },
            }
        }),
{
    let plan = allocate_oldest_first(amount_minor, dues);
    if plan.remaining > 0 {
        let mut m = owned("payment exceeds open payables for supplier ");
        m.append(int_text(supplier_id).as_str());
        m.append(" by ");
        m.append(int_text(plan.remaining).as_str());
        return Err(AppError::Validation(m));
    }
    Ok(plan.allocations)
}

pub open spec fn payment_missing_message(payment_id: i64) -> Seq<char> {
    "supplier payment "@ + num_text(payment_id as int)
}

/// Only a posted payment is voided.
pub fn check_payment_voidable(payment_id: i64, status: Option<String>) -> (r: Result<(), AppError>)
    ensures
        match status {
            None => r matches Err(AppError::NotFound(m)) && m@ == payment_missing_message(
                payment_id,
            ),
            Some(s) => if s@ == "posted"@ {
                r is Ok
            } else {
                r matches Err(AppError::Conflict(m)) && m@ == "payment "@ + num_text(
                    payment_id as int,
                ) + " is already voided"@
            },
        },
{
    match status {
        None => {
            let mut m = owned("supplier payment ");
            m.append(int_text(payment_id).as_str());
            Err(AppError::NotFound(m))
        },
        Some(s) => {
            if str_eq(s.as_str(), "posted") {
                return Ok(());
            }
            let mut m = owned("payment ");
            m.append(int_text(payment_id).as_str());
            m.append(" is already voided");
            Err(AppError::Conflict(m))
        },
    }
}

// ---------------------------------------------------------------------------
// Supplier returns
// ---------------------------------------------------------------------------

/// Why a draft return is refused before anything is read.
pub open spec fn return_draft_fault(lines: Seq<PurchaseLine>, refund_minor: Option<i64>) -> Option<
    Seq<char>,
> {
    if lines.len() == 0 {
        Some("return must have at least one item"@)
    } else if exists|i: int| 0 <= i < lines.len() && (#[trigger] lines[i]).quantity <= 0 {
        Some("return quantity must be positive"@)
    } else if (match refund_minor {
        Some(r) => r < 0,
        None => false,
    }) {
        Some("refund cannot be negative"@)
    } else {
        None
    }
}

/// A draft return needs lines with positive quantities and a refund that is
/// not negative (nothing given is no refund).
pub fn check_return_draft(lines: &Vec<PurchaseLine>, refund_minor: Option<i64>) -> (r: Result<
    i64,
    AppError,
>)
    ensures
        match return_draft_fault(lines@, refund_minor) {
            Some(msg) => r matches Err(AppError::Validation(m)) && m@ == msg,
            None => r == Ok::<i64, AppError>(
                match refund_minor {
                    Some(x) => x,
                    None => 0,
                },
            ),
        },
{
    if lines.len() == 0 {
        return Err(validation("return must have at least one item"));
    }
    let mut i: usize = 0;
    while i < lines.len()
        invariant
            i <= lines.len(),
            forall|j: int| 0 <= j < i ==> (#[trigger] lines@[j]).quantity > 0,
        decreases lines.len() - i,
    {
        if lines[i].quantity <= 0 {
            assert(lines@[i as int].quantity <= 0);
            return Err(validation("return quantity must be positive"));
        }
        i += 1;
    }
    let refund = match refund_minor {
        Some(x) => x,
        None => 0,
    };
    if refund < 0 {
        return Err(validation("refund cannot be negative"));
    }
    Ok(refund)
}

/// A return may reference only a posted purchase of the same supplier.
/// `purchase` is that purchase's status and supplier, when it exists.
pub fn check_return_reference(purchase_id: i64, purchase: Option<(String, i64)>, supplier_id: i64)
    -> (r: Result<(), AppError>)
    ensures
        match purchase {
            None => r matches Err(AppError::NotFound(m)) && m@ == purchase_missing_message(
                purchase_id,
            ),
            Some((status, owner)) => if status@ != "posted"@ {
                r matches Err(AppError::Validation(m)) && m@
                    == "return can only reference a posted purchase (purchase "@ + num_text(
                    purchase_id as int,
                ) + " is "@ + status@ + ")"@
            } else if owner != supplier_id {
                r matches Err(AppError::Validation(m)) && m@ == "purchase "@ + num_text(
                    purchase_id as int,
                ) + " belongs to a different supplier"@
            } else {
                r is Ok
            },
        },
{
    match purchase {
        None => Err(purchase_missing(purchase_id)),
        Some((status, owner)) => {
            if !str_eq(status.as_str(), "posted") {
                let mut m = owned("return can only reference a posted purchase (purchase ");
                m.append(int_text(purchase_id).as_str());
                m.append(" is ");
                m.append(status.as_str());
                m.append(")");
                return Err(AppError::Validation(m));
            }
            if owner != supplier_id {
                let mut m = owned("purchase ");
                m.append(int_text(purchase_id).as_str());
                m.append(" belongs to a different supplier");
                return Err(AppError::Validation(m));
            }
            Ok(())
        },
    }
}

/// A returned line may not exceed what was received, net of earlier returns.
pub fn check_returnable_quantity(product_id: i64, quantity: i64, net_received: i64) -> (r: Result<
    (),
    AppError,
>)
    ensures
        quantity <= net_received ==> r is Ok,
        quantity > net_received ==> (r matches Err(AppError::Validation(m)) && m@
            == "cannot return "@ + num_text(quantity as int) + " of product "@ + num_text(
            product_id as int,
        ) + ": only "@ + num_text(net_received as int) + " net received"@),
{
    if quantity > net_received {
        let mut m = owned("cannot return ");
        m.append(int_text(quantity).as_str());
        m.append(" of product ");
        m.append(int_text(product_id).as_str());
        m.append(": only ");
        m.append(int_text(net_received).as_str());
        m.append(" net received");
        return Err(AppError::Validation(m));
    }
    Ok(())
}

/// Settling a posted supplier return: the refund may not exceed the return
/// total; the rest reduces what is owed to the supplier.
pub fn plan_return_settlement(total: i64, refund: i64) -> (r: Result<i64, AppError>)
    requires
        refund >= 0,
        total >= 0,
    ensures
        refund > total ==> (r matches Err(AppError::Validation(m)) && m@ == "refund "@ + num_text(
            refund as int,
        ) + " exceeds return total "@ + num_text(total as int)),
        refund <= total ==> r == Ok::<i64, AppError>((total - refund) as i64),
{
    if refund > total {
        let mut m = owned("refund ");
        m.append(int_text(refund).as_str());
        m.append(" exceeds return total ");
        m.append(int_text(total).as_str());
        return Err(AppError::Validation(m));
    }
    Ok(total - refund)
}

/// A return may not take the supplier's payable balance below zero.
pub fn check_payable_after_return(after: i64) -> (r: Result<(), AppError>)
    ensures
        after >= 0 ==> r is Ok,
        after < 0 ==> (r matches Err(AppError::Validation(m)) && m@
            == "return exceeds the supplier payable balance (would reduce to "@ + num_text(
            after as int,
        ) + ")"@),
{
    if after < 0 {
        let mut m = owned("return exceeds the supplier payable balance (would reduce to ");
        m.append(int_text(after).as_str());
        m.append(")");
        return Err(AppError::Validation(m));
    }
    Ok(())
}

/// A payment voided after being applied gives each invoice back its figures.
pub proof fn law_voided_payment_restores_invoice(paid: int, due: int, alloc: int)
    requires
        paid >= 0,
        alloc >= 0,
    ensures
        unapplied(paid + alloc, due - alloc, alloc) == (paid, due),
{
}

} // verus!
