//! Editing a sale: when a sale may still be edited, and the totals of its new
//! lines.
use vstd::prelude::*;

use crate::error::{conflict, AppError};
use crate::inventory::fits;
use crate::text::{int_text, num_text, owned, str_eq};

verus! {

/// Whether a sale may be edited: it must exist, not be cancelled, and have no
/// credit note applied. A confirmed sale is reversed first and confirmed
/// again afterwards (`Ok(true)`); a draft is edited in place (`Ok(false)`).
pub fn check_sale_editable(sale_id: i64, status: Option<String>, applied_credit_notes: i64) -> (r:
    Result<bool, AppError>)
    ensures
        match status {
            None => r matches Err(AppError::NotFound(m)) && m@ == "sale "@ + num_text(
                sale_id as int,
            ),
            Some(s) => if s@ == "cancelled"@ {
                r matches Err(AppError::Conflict(m)) && m@ == "Cannot edit a cancelled sale"@
            } else if applied_credit_notes > 0 {
                r matches Err(AppError::Conflict(m)) && m@
                    == "Cannot edit a sale that has credit notes applied"@
            } else {
                r == Ok::<bool, AppError>(s@ == "confirmed"@)
            },
        },
{
    match status {
        None => {
            let mut m = owned("sale ");
            m.append(int_text(sale_id).as_str());
            Err(AppError::NotFound(m))
        },
        Some(s) => {
            if str_eq(s.as_str(), "cancelled") {
                return Err(conflict("Cannot edit a cancelled sale"));
            }
            if applied_credit_notes > 0 {
                return Err(conflict("Cannot edit a sale that has credit notes applied"));
            }
            Ok(str_eq(s.as_str(), "confirmed"))
        },
    }
}

/// A referenced customer, product or bundle is missing: `what id not found`.
pub fn missing_reference(what: &str, id: i64) -> (e: AppError)
    ensures
        e matches AppError::Validation(m) && m@ == what@ + " "@ + num_text(id as int)
            + " not found"@,
{
    let mut m = owned(what);
    m.append(" ");
    m.append(int_text(id).as_str());
    m.append(" not found");
    AppError::Validation(m)
}

/// One new line: its unit price and quantity.
#[derive(Debug, Clone, Copy, PartialEq, Eq, Structural)]
pub struct SaleLine {
    pub unit_price_minor: i64,
    pub quantity: i64,
}

/// The subtotal of the first `n` lines.
pub open spec fn subtotal_upto(lines: Seq<SaleLine>, n: int) -> int
    decreases n,
{
    if n <= 0 {
        0
    } else {
        subtotal_upto(lines, n - 1) + lines[n - 1].unit_price_minor * lines[n - 1].quantity
    }
}

/// Every line total and every running subtotal fits in `i64`.
pub open spec fn lines_fit(lines: Seq<SaleLine>) -> bool {
    forall|n: int|
        0 <= n <= lines.len() ==> fits(#[trigger] subtotal_upto(lines, n)) && (n < lines.len()
            ==> fits(lines[n].unit_price_minor * lines[n].quantity))
}

/// The lines' totals, the subtotal, and the total: the subtotal less the
/// discount plus the delivery charge (each absent as zero).
#[derive(Debug)]
pub struct SaleTotals {
    pub line_totals: Vec<i64>,
    pub subtotal: i64,
    pub total: i64,
}

pub open spec fn or_zero(v: Option<i64>) -> int {
    match v {
        Some(x) => x as int,
        None => 0,
    }
}

pub fn sale_totals(lines: &Vec<SaleLine>, discount_minor: Option<i64>, delivery_charge_minor: Option<
    i64,
>) -> (r: SaleTotals)
    requires
        lines_fit(lines@),
        fits(subtotal_upto(lines@, lines.len() as int) - or_zero(discount_minor)),
        fits(subtotal_upto(lines@, lines.len() as int) - or_zero(discount_minor) + or_zero(
            delivery_charge_minor,
        )),
    ensures
        r.line_totals.len() == lines.len(),
        forall|i: int|
            0 <= i < lines.len() ==> #[trigger] r.line_totals@[i] == lines@[i].unit_price_minor
                * lines@[i].quantity,
        r.subtotal == subtotal_upto(lines@, lines.len() as int),
        r.total == r.subtotal - or_zero(discount_minor) + or_zero(delivery_charge_minor),
{
    let mut line_totals: Vec<i64> = Vec::new();
    let mut subtotal: i64 = 0;
    let mut i: usize = 0;
    while i < lines.len()
        invariant
            i <= lines.len(),
            lines_fit(lines@),
            line_totals.len() == i,
            forall|j: int|
                0 <= j < i ==> #[trigger] line_totals@[j] == lines@[j].unit_price_minor
                    * lines@[j].quantity,
            subtotal == subtotal_upto(lines@, i as int),
        decreases lines.len() - i,
    {
        proof {
            assert(fits(subtotal_upto(lines@, i + 1)));
            assert(fits(subtotal_upto(lines@, i as int)));
        }
        let line = lines[i].unit_price_minor * lines[i].quantity;
        line_totals.push(line);
        subtotal = subtotal + line;
        i += 1;
    }
    let discount = match discount_minor {
        Some(d) => d,
        None => 0,
    };
    let delivery = match delivery_charge_minor {
        Some(d) => d,
        None => 0,
    };
    let total = subtotal - discount + delivery;
    SaleTotals { line_totals, subtotal, total }
}

/// A bundle line takes each component as many times as the line's quantity.
pub fn component_quantity(per_bundle: i64, line_quantity: i64) -> (r: i64)
    requires
        fits(per_bundle * line_quantity),
    ensures
        r == per_bundle * line_quantity,
{
    per_bundle * line_quantity
}

} // verus!
