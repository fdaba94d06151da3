//! Receivables: the date range and balances of a customer statement, the
//! preview of a receipt's allocation, and the order of the credit-limit
//! exception list.
use vstd::prelude::*;
use crate::error::{AppError, validation};
use crate::expenses::{text_after, text_less};
use crate::inventory::{fits, sum_upto, lemma_sum_mono};
use crate::ledger::{allocate_oldest_first, dues_of, oldest_first_plan, AllocationPlan};
use crate::text::{trim, trim_str};

verus! {

// ---------------------------------------------------------------------------
// Customer statements
// ---------------------------------------------------------------------------

/// A statement covers `from_date` to `to_date`, both given (after trimming)
/// and the start not after the end (dates compare as text). Returns the
/// trimmed dates.
pub fn check_statement_range(from_date: &str, to_date: &str) -> (r: Result<(String, String), AppError>)
    ensures
        trim(from_date@).len() == 0 || trim(to_date@).len() == 0 ==> (r matches Err(AppError::Validation(m))
            && m@ == "statement date range is required"@),
        trim(from_date@).len() > 0 && trim(to_date@).len() > 0 && text_less(trim(to_date@), trim(from_date@))
            ==> (r matches Err(AppError::Validation(m)) && m@ == "statement from-date cannot be after to-date"@),
        trim(from_date@).len() > 0 && trim(to_date@).len() > 0 && !text_less(trim(to_date@), trim(from_date@))
            ==> (r matches Ok((f, t)) && f@ == trim(from_date@) && t@ == trim(to_date@)),
{
    let from = trim_str(from_date);
    let to = trim_str(to_date);
    if from.unicode_len() == 0 || to.unicode_len() == 0 {
        return Err(validation("statement date range is required"));
    }
    if text_after(from.as_str(), to.as_str()) {
        return Err(validation("statement from-date cannot be after to-date"));
    }
    Ok((from, to))
}

/// The balance a statement closes on: the running balance of its last entry,
/// or the opening balance when the range holds no entry.
pub open spec fn closing_of(balances: Seq<i64>, opening: int) -> int {
    if balances.len() == 0 { opening } else { balances.last() as int }
}

/// Closing balance of a statement whose entries carry `balances` (their
/// running balances, in ledger order).
pub fn statement_closing(balances: &Vec<i64>, opening: i64) -> (r: i64)
    ensures
        r == closing_of(balances@, opening as int),
{
    if balances.len() == 0 {
        opening
    } else {
        balances[balances.len() - 1]
    }
}

/// Whether each entry's running balance is the one before it (the opening
/// balance for the first) plus the entry's amount.
pub open spec fn running_balances(opening: int, amounts: Seq<i64>, balances: Seq<i64>) -> bool {
    &&& balances.len() == amounts.len()
    &&& forall|k: int| 0 <= k < balances.len() ==> #[trigger] balances[k]
        == (if k == 0 { opening } else { balances[k - 1] as int }) + amounts[k]
}

/// A statement reconciles: over any range of a ledger whose entries carry
/// running balances, the closing balance is the opening balance plus the sum
/// of the entries' amounts.
pub proof fn law_statement_reconciles(opening: int, amounts: Seq<i64>, balances: Seq<i64>)
    requires
        running_balances(opening, amounts, balances),
    ensures
        closing_of(balances, opening) == opening + sum_upto(dues_of(amounts), amounts.len() as int),
    decreases amounts.len(),
{
    if amounts.len() > 0 {
        let n = amounts.len() - 1;
        let a = amounts.take(n as int);
        let b = balances.take(n as int);
        assert(running_balances(opening, a, b));
        law_statement_reconciles(opening, a, b);
        lemma_sum_prefix(amounts, n as int);
    }
}

/// The sum over a prefix does not look past it.
proof fn lemma_sum_prefix(amounts: Seq<i64>, n: int)
    requires
        0 <= n <= amounts.len(),
    ensures
        sum_upto(dues_of(amounts.take(n)), n) == sum_upto(dues_of(amounts), n),
    decreases n,
{
    if n > 0 {
        lemma_sum_prefix(amounts, n - 1);
        lemma_sum_prefix(amounts.take(n), n - 1);
        assert(amounts.take(n).take(n - 1) =~= amounts.take(n - 1));
        assert(dues_of(amounts.take(n))[n - 1] == dues_of(amounts)[n - 1]);
    }
}

// ---------------------------------------------------------------------------
// Receipt preview
// ---------------------------------------------------------------------------

/// Preview of a receipt of `amount` over the customer's open confirmed
/// invoices (their dues, oldest first): the same oldest-first allocation a
/// posted receipt without an explicit list makes, the rest held as advance.
pub fn receipt_preview_plan(amount: i64, dues: &Vec<i64>) -> (r: Result<AllocationPlan, AppError>)
    requires
        forall|i: int| 0 <= i < dues.len() ==> dues@[i] > 0,
    ensures
        amount <= 0 ==> (r matches Err(AppError::Validation(m)) && m@ == "preview amount must be positive"@),
        amount > 0 ==> (r matches Ok(p) && oldest_first_plan(amount as int, dues@, p.allocations@, p.remaining as int)),
{
    if amount <= 0 {
        return Err(validation("preview amount must be positive"));
    }
    Ok(allocate_oldest_first(amount, dues))
}

/// The preview matches what posting produces: an oldest-first allocation of an
/// amount over the same dues is determined by them, so any two such plans are
/// the same.
pub proof fn law_preview_matches_posting(amount: int, dues: Seq<i64>, a1: Seq<i64>, r1: int, a2: Seq<i64>, r2: int)
    requires
        forall|i: int| 0 <= i < dues.len() ==> dues[i] > 0,
        oldest_first_plan(amount, dues, a1, r1),
        oldest_first_plan(amount, dues, a2, r2),
    ensures
        a1 == a2,
        r1 == r2,
{
    if a1.len() < a2.len() {
        assert(sum_upto(dues_of(dues), a1.len() as int) < amount);
    } else if a2.len() < a1.len() {
        assert(sum_upto(dues_of(dues), a2.len() as int) < amount);
    }
    assert(a1.len() == a2.len());
    assert forall|i: int| 0 <= i < a1.len() implies a1[i] == a2[i] by {
        assert(a1[i] > 0);
        assert(a2[i] > 0);
    }
    assert(a1 =~= a2);
}

// ---------------------------------------------------------------------------
// Credit-limit exceptions
// ---------------------------------------------------------------------------

/// What the exception list reads of a customer with an open balance.
#[derive(Debug, Clone, Copy)]
pub struct ExposureFigures {
    pub balance_minor: i64,
    pub credit_limit_minor: i64,
}

pub open spec fn over_limit(r: ExposureFigures) -> bool {
    r.balance_minor > r.credit_limit_minor
}

/// Room left under the limit (negative when over it).
pub open spec fn headroom(r: ExposureFigures) -> int {
    r.credit_limit_minor - r.balance_minor
}

/// Whether the customer at position `a` is listed before the one at `b`: less
/// headroom first, ties in the order the customers were read.
pub open spec fn listed_before(rows: Seq<ExposureFigures>, a: int, b: int) -> bool {
    headroom(rows[a]) < headroom(rows[b]) || (headroom(rows[a]) == headroom(rows[b]) && a < b)
}

/// Positions (into `rows`) of the customers whose balance exceeds their
/// credit limit, the furthest over first; customers equally far over keep the
/// order in which they were read.
pub fn credit_limit_exceptions(rows: &Vec<ExposureFigures>) -> (r: Vec<usize>)
    requires
        forall|i: int| 0 <= i < rows.len() && over_limit(#[trigger] rows@[i]) ==> fits(headroom(rows@[i])),
    ensures
        forall|k: int| 0 <= k < r.len() ==> #[trigger] r@[k] < rows.len() && over_limit(rows@[r@[k] as int]),
        forall|i: int| 0 <= i < rows.len() && over_limit(#[trigger] rows@[i]) ==> r@.contains(i as usize),
        forall|a: int, b: int| 0 <= a < b < r.len() ==> listed_before(rows@, #[trigger] r@[a] as int, #[trigger] r@[b] as int),
{
    let mut out: Vec<usize> = Vec::new();
    let mut i: usize = 0;
    while i < rows.len()
        invariant
            i <= rows.len(),
            forall|j: int| 0 <= j < rows.len() && over_limit(#[trigger] rows@[j]) ==> fits(headroom(rows@[j])),
            forall|k: int| 0 <= k < out.len() ==> #[trigger] out@[k] < i && over_limit(rows@[out@[k] as int]),
            forall|j: int| 0 <= j < i && over_limit(#[trigger] rows@[j]) ==> out@.contains(j as usize),
            forall|a: int, b: int| 0 <= a < b < out.len() ==> listed_before(rows@, #[trigger] out@[a] as int, #[trigger] out@[b] as int),
        decreases rows.len() - i,
    {
        if rows[i].balance_minor > rows[i].credit_limit_minor {
            let key = rows[i].credit_limit_minor - rows[i].balance_minor;
            let pos = insertion_point(rows, &out, key);
            let ghost before = out@;
            out.insert(pos, i);
            proof {
                assert(out@ == before.insert(pos as int, i));
                assert forall|a: int, b: int| 0 <= a < b < out.len() implies listed_before(rows@,
                    #[trigger] out@[a] as int, #[trigger] out@[b] as int) by {
                    if b < pos {
                        assert(out@[a] == before[a] && out@[b] == before[b]);
                    } else if b == pos {
                        assert(out@[a] == before[a]);
                    } else if a < pos {
                        assert(out@[a] == before[a] && out@[b] == before[b - 1]);
                        assert(headroom(rows@[before[a] as int]) <= key);
                        assert(headroom(rows@[before[b - 1] as int]) > key);
                    } else if a == pos {
                        assert(out@[b] == before[b - 1]);
                    } else {
                        assert(out@[a] == before[a - 1] && out@[b] == before[b - 1]);
                    }
                }
                assert forall|j: int| 0 <= j < i + 1 && over_limit(#[trigger] rows@[j]) implies out@.contains(j as usize) by {
                    if j == i {
                        assert(out@[pos as int] == i);
                    } else {
                        let w = choose|w: int| 0 <= w < before.len() && before[w] == j as usize;
                        if w < pos {
                            assert(out@[w] == j as usize);
                        } else {
                            assert(out@[w + 1] == j as usize);
                        }
                    }
                }
                assert forall|k: int| 0 <= k < out.len() implies #[trigger] out@[k] < i + 1 && over_limit(
                    rows@[out@[k] as int]) by {
                    if k < pos {
                        assert(out@[k] == before[k]);
                    } else if k > pos {
                        assert(out@[k] == before[k - 1]);
                    }
                }
            }
        }
        i += 1;
    }
    out
}

/// Where a customer with headroom `key`, read after everyone in `out`, goes:
/// after every listed customer with no more headroom, before the first with
/// more.
fn insertion_point(rows: &Vec<ExposureFigures>, out: &Vec<usize>, key: i64) -> (pos: usize)
    requires
        forall|k: int| 0 <= k < out.len() ==> #[trigger] out@[k] < rows.len() && over_limit(rows@[out@[k] as int]),
        forall|j: int| 0 <= j < rows.len() && over_limit(#[trigger] rows@[j]) ==> fits(headroom(rows@[j])),
        forall|a: int, b: int| 0 <= a < b < out.len() ==> listed_before(rows@, #[trigger] out@[a] as int, #[trigger] out@[b] as int),
    ensures
        pos <= out.len(),
        forall|k: int| 0 <= k < pos ==> headroom(rows@[#[trigger] out@[k] as int]) <= key,
        forall|k: int| pos <= k < out.len() ==> headroom(rows@[#[trigger] out@[k] as int]) > key,
{
    let mut pos: usize = 0;
    while pos < out.len()
        invariant
            pos <= out.len(),
            forall|k: int| 0 <= k < out.len() ==> #[trigger] out@[k] < rows.len() && over_limit(rows@[out@[k] as int]),
            forall|j: int| 0 <= j < rows.len() && over_limit(#[trigger] rows@[j]) ==> fits(headroom(rows@[j])),
            forall|a: int, b: int| 0 <= a < b < out.len() ==> listed_before(rows@, #[trigger] out@[a] as int, #[trigger] out@[b] as int),
            forall|k: int| 0 <= k < pos ==> headroom(rows@[#[trigger] out@[k] as int]) <= key,
        decreases out.len() - pos,
    {
        let row = rows[out[pos]];
        assert(over_limit(rows@[out@[pos as int] as int]));
        let room = row.credit_limit_minor - row.balance_minor;
        if room > key {
            assert forall|k: int| pos <= k < out.len() implies headroom(rows@[#[trigger] out@[k] as int]) > key by {
                if k > pos {
                    assert(listed_before(rows@, out@[pos as int] as int, out@[k] as int));
                }
            }
            return pos;
        }
        pos += 1;
    }
    pos
}

} // verus!
