//! Money on account: oldest-first allocation of receipts and payments, explicit
//! allocations, running ledger balances, advances, and cash-account balances.
use vstd::prelude::*;
use crate::error::{AppError, kind_and_message, validation};
use crate::inventory::{sum_upto, fifo_take, fifo_takes, clamp, fits, lemma_sum_mono, lemma_taken_upto};
use crate::text::{trim, is_blank, upper_of, trim_str, to_upper, str_is_blank, str_eq, owned, int_text, num_text};

verus! {

/// Result of spreading an amount over open documents, oldest first.
#[derive(Debug)]
pub struct AllocationPlan {
    /// Amount applied to each of the first open documents, in order.
    pub allocations: Vec<i64>,
    /// What is left over once the open documents are covered.
    pub remaining: i64,
}

/// What spreading `amount` oldest first over documents owing `dues` gives:
/// the documents visited while money was left (each taking what it owes, up
/// to what is left, so every allocation is positive), and the rest.
pub open spec fn oldest_first_plan(amount: int, dues: Seq<i64>, allocations: Seq<i64>, remaining: int) -> bool {
    &&& allocations.len() <= dues.len()
    &&& forall|i: int| 0 <= i < allocations.len() ==>
        allocations[i] == fifo_take(dues_of(dues), amount, i) && #[trigger] allocations[i] > 0
    &&& forall|i: int| 0 <= i < allocations.len() ==> #[trigger] sum_upto(dues_of(dues), i) < amount
    &&& allocations.len() == dues.len() || sum_upto(dues_of(dues), allocations.len() as int) >= amount
    &&& remaining == if amount <= 0 { amount } else { amount - clamp(amount, sum_upto(dues_of(dues), dues.len() as int)) }
}

/// Spread `amount` over the open documents (their dues, oldest first): each
/// takes what it is owed, up to what is left; allocation stops as soon as
/// nothing is left. Documents are only visited while money remains, so every
/// allocation is positive.
pub fn allocate_oldest_first(amount: i64, dues: &Vec<i64>) -> (p: AllocationPlan)
    requires
        forall|i: int| 0 <= i < dues.len() ==> dues@[i] > 0,
    ensures
        oldest_first_plan(amount as int, dues@, p.allocations@, p.remaining as int),
        amount > 0 ==> sum_upto(dues_of(p.allocations@), p.allocations.len() as int) + p.remaining == amount,
{
    let ghost qs = dues_of(dues@);
    let mut allocations: Vec<i64> = Vec::new();
    if amount <= 0 {
        return AllocationPlan { allocations, remaining: amount };
    }
    proof {
        assert forall|k: int| 0 <= k < qs.len() implies qs[k] > 0 by {
            assert(qs[k] == dues@[k]);
        }
    }
    let mut remaining = amount;
    let mut i: usize = 0;
    while i < dues.len()
        invariant
            amount > 0,
            i <= dues.len(),
            qs == dues_of(dues@),
            forall|k: int| 0 <= k < qs.len() ==> qs[k] > 0,
            forall|k: int| 0 <= k < dues.len() ==> dues@[k] > 0,
            allocations.len() == i,
            forall|k: int| 0 <= k < i ==> allocations@[k] == fifo_take(qs, amount as int, k) && allocations@[k] > 0,
            forall|k: int| 0 <= k < i ==> sum_upto(qs, k) < amount,
            remaining == amount - clamp(amount as int, sum_upto(qs, i as int)),
        decreases dues.len() - i,
    {
        proof {
            lemma_taken_upto(qs, amount as int, i as int);
            lemma_sum_mono(qs, 0, i as int);
        }
        if remaining <= 0 {
            proof {
                assert(sum_upto(qs, i as int) >= amount);
                assert forall|k: int| i <= k <= qs.len() implies clamp(amount as int, sum_upto(qs, k)) == amount by {
                    lemma_sum_mono(qs, i as int, k);
                }
            }
            proof {
                lemma_plan_applies(amount as int, dues@, allocations@, remaining as int);
            }
            return AllocationPlan { allocations, remaining };
        }
        let due = dues[i];
        let alloc = if due < remaining { due } else { remaining };
        proof {
            assert(qs[i as int] == due);
            assert(alloc == fifo_take(qs, amount as int, i as int));
        }
        allocations.push(alloc);
        remaining = remaining - alloc;
        i += 1;
    }
    proof {
        lemma_plan_applies(amount as int, dues@, allocations@, remaining as int);
    }
    AllocationPlan { allocations, remaining }
}

/// Sums over the first `n` entries agree where the entries do.
pub proof fn lemma_sum_agree(a: Seq<int>, b: Seq<int>, n: int)
    requires
        0 <= n <= a.len(),
        n <= b.len(),
        forall|k: int| 0 <= k < n ==> a[k] == b[k],
    ensures
        sum_upto(a, n) == sum_upto(b, n),
    decreases n,
{
    if n > 0 {
        lemma_sum_agree(a, b, n - 1);
    }
}

/// What an oldest-first plan applies, plus what it leaves, is the amount.
pub proof fn lemma_plan_applies(amount: int, dues: Seq<i64>, allocations: Seq<i64>, remaining: int)
    requires
        amount > 0,
        forall|i: int| 0 <= i < dues.len() ==> dues[i] > 0,
        oldest_first_plan(amount, dues, allocations, remaining),
    ensures
        sum_upto(dues_of(allocations), allocations.len() as int) + remaining == amount,
{
    let qs = dues_of(dues);
    let n = allocations.len() as int;
    assert forall|k: int| 0 <= k < qs.len() implies qs[k] > 0 by {
        assert(qs[k] == dues[k]);
    }
    assert forall|k: int| 0 <= k < n implies dues_of(allocations)[k] == fifo_takes(qs, amount)[k] by {
        assert(allocations[k] == fifo_take(qs, amount, k));
    }
    lemma_sum_agree(dues_of(allocations), fifo_takes(qs, amount), n);
    lemma_taken_upto(qs, amount, n);
    lemma_sum_mono(qs, n, qs.len() as int);
}

pub open spec fn dues_of(dues: Seq<i64>) -> Seq<int> {
    dues.map_values(|d: i64| d as int)
}

/// Applying an allocation to a document: paid grows, due shrinks.
pub open spec fn applied(paid: int, due: int, alloc: int) -> (int, int) {
    (paid + alloc, due - alloc)
}

/// Voiding an allocation: paid shrinks (never below zero), due grows back.
pub open spec fn unapplied(paid: int, due: int, alloc: int) -> (int, int) {
    (if paid - alloc > 0 { paid - alloc } else { 0 }, due + alloc)
}

pub fn apply_allocation(paid: i64, due: i64, alloc: i64) -> (r: (i64, i64))
    requires
        fits(paid + alloc),
        fits(due - alloc),
    ensures
        (r.0 as int, r.1 as int) == applied(paid as int, due as int, alloc as int),
{
    (paid + alloc, due - alloc)
}

pub fn void_allocation(paid: i64, due: i64, alloc: i64) -> (r: (i64, i64))
    requires
        fits(paid - alloc),
        fits(due + alloc),
    ensures
        (r.0 as int, r.1 as int) == unapplied(paid as int, due as int, alloc as int),
{
    let left = paid - alloc;
    (if left > 0 { left } else { 0 }, due + alloc)
}

/// Voiding a payment gives every document it was applied to its figures back.
pub proof fn law_void_restores_document(paid: int, due: int, alloc: int)
    requires
        paid >= 0,
        alloc >= 0,
    ensures
        unapplied(applied(paid, due, alloc).0, applied(paid, due, alloc).1, alloc) == (paid, due),
{
}

/// Applying an allocation moves exactly that amount from the document's due
/// to its paid amount, whatever was paid before (nothing included): paid
/// grows by the allocation, due shrinks by it, their sum stays the same, and
/// applying two allocations one after the other is applying their sum.
pub proof fn law_allocation_moves_due_to_paid(paid: int, due: int, alloc: int, more: int)
    requires
        paid >= 0,
        alloc >= 0,
        more >= 0,
    ensures
        applied(paid, due, alloc).0 - paid == alloc,
        due - applied(paid, due, alloc).1 == alloc,
        applied(paid, due, alloc).0 + applied(paid, due, alloc).1 == paid + due,
        applied(applied(paid, due, alloc).0, applied(paid, due, alloc).1, more) == applied(paid, due, alloc + more),
{
}

/// Voiding an allocation of at most what was paid moves exactly that amount
/// back from paid to due: paid shrinks by it, due grows by it, their sum stays
/// the same; a larger void leaves nothing paid.
pub proof fn law_void_moves_paid_to_due(paid: int, due: int, alloc: int)
    requires
        alloc >= 0,
    ensures
        alloc <= paid ==> paid - unapplied(paid, due, alloc).0 == alloc,
        alloc > paid ==> unapplied(paid, due, alloc).0 == 0,
        unapplied(paid, due, alloc).1 - due == alloc,
        alloc <= paid ==> unapplied(paid, due, alloc).0 + unapplied(paid, due, alloc).1 == paid + due,
{
}

/// An oldest-first allocation never applies more than the amount, never more
/// than a document owes, and what it applies plus what is left is the amount.
pub proof fn law_allocation_accounts_for_amount(amount: int, dues: Seq<int>)
    requires
        amount > 0,
        forall|i: int| 0 <= i < dues.len() ==> dues[i] > 0,
    ensures
        forall|i: int| 0 <= i < dues.len() ==> 0 <= #[trigger] fifo_take(dues, amount, i) <= dues[i],
        clamp(amount, sum_upto(dues, dues.len() as int)) + (amount - clamp(amount, sum_upto(dues, dues.len() as int))) == amount,
        clamp(amount, sum_upto(dues, dues.len() as int)) <= amount,
        clamp(amount, sum_upto(dues, dues.len() as int)) <= sum_upto(dues, dues.len() as int),
{
    lemma_sum_mono(dues, 0, dues.len() as int);
}

// ---------------------------------------------------------------------------
// Explicit allocations of a customer receipt
// ---------------------------------------------------------------------------

/// One requested allocation of a receipt to a sale.
#[derive(Debug, Clone, Copy)]
pub struct AllocationRequest {
    pub sale_id: i64,
    pub amount_minor: i64,
}

/// What the shop knows of the sale an allocation names.
#[derive(Debug, Clone, Copy)]
pub struct SaleDue {
    pub customer_id: i64,
    pub confirmed: bool,
    pub due_minor: i64,
}

/// What the first `n` allocations actually apply: their positive amounts (an
/// allocation of zero or less leaves its sale untouched).
pub open spec fn requested_sum(allocs: Seq<AllocationRequest>, n: int) -> int
    decreases n,
{
    if n <= 0 {
        0
    } else {
        requested_sum(allocs, n - 1) + if allocs[n - 1].amount_minor > 0 { allocs[n - 1].amount_minor as int } else { 0 }
    }
}

/// Whether a positive allocation before `i` already names the sale of `i`.
pub open spec fn duplicate_before(allocs: Seq<AllocationRequest>, i: int) -> bool {
    exists|j: int| 0 <= j < i && allocs[j].amount_minor > 0 && #[trigger] allocs[j].sale_id == allocs[i].sale_id
}

/// The fault of allocation `i`, checked in this order: 0 none, 1 duplicate
/// sale, 2 unknown sale, 3 another customer's sale, 4 unconfirmed sale,
/// 5 more than the sale owes. Non-positive allocations are skipped.
pub open spec fn allocation_fault(allocs: Seq<AllocationRequest>, sales: Seq<Option<SaleDue>>, customer_id: i64, i: int) -> int {
    if allocs[i].amount_minor <= 0 {
        0
    } else if duplicate_before(allocs, i) {
        1
    } else {
        match sales[i] {
            None => 2,
            Some(s) => if s.customer_id != customer_id {
                3
            } else if !s.confirmed {
                4
            } else if allocs[i].amount_minor > s.due_minor {
                5
            } else {
                0
            },
        }
    }
}

/// The error (kind, message) that allocation `i` with this fault answers.
pub open spec fn allocation_error(allocs: Seq<AllocationRequest>, sales: Seq<Option<SaleDue>>, fault: int, i: int) -> (Seq<char>, Seq<char>) {
    let id = num_text(allocs[i].sale_id as int);
    if fault == 1 {
        ("validation"@, "duplicate allocation for sale "@ + id)
    } else if fault == 2 {
        ("not_found"@, "sale "@ + id)
    } else if fault == 3 {
        ("validation"@, "sale "@ + id + " does not belong to this customer"@)
    } else if fault == 4 {
        ("conflict"@, "sale "@ + id + " is not a confirmed invoice"@)
    } else {
        ("validation"@, "allocation "@ + num_text(allocs[i].amount_minor as int) + " exceeds the due amount "@
            + num_text(sales[i]->0.due_minor as int) + " on sale "@ + id)
    }
}

/// Checks an explicit allocation list of a receipt of `amount` for
/// `customer_id` (`sales[i]` describes the sale of `allocs[i]`). The positive
/// allocations may not add up to more than the amount (one of zero or less
/// applies nothing and cannot make room for others); then each positive
/// allocation is checked in order and the first fault decides the answer. On
/// success the unallocated rest of the amount is the customer's advance, and
/// what is applied plus the advance is the amount.
pub fn check_explicit_allocations(amount: i64, customer_id: i64, allocs: &Vec<AllocationRequest>, sales: &Vec<Option<SaleDue>>)
    -> (r: Result<i64, AppError>)
    requires
        allocs.len() == sales.len(),
        forall|n: int| 0 <= n <= allocs.len() ==> fits(#[trigger] requested_sum(allocs@, n)),
        fits(amount - requested_sum(allocs@, allocs.len() as int)),
    ensures
        requested_sum(allocs@, allocs.len() as int) > amount ==> (r matches Err(AppError::Validation(m))
            && m@ == "allocations "@ + num_text(requested_sum(allocs@, allocs.len() as int)) + " exceed payment amount "@
            + num_text(amount as int)),
        r matches Ok(advance) ==> advance >= 0 && advance + requested_sum(allocs@, allocs.len() as int) == amount,
        requested_sum(allocs@, allocs.len() as int) <= amount ==> {
            ||| (forall|i: int| 0 <= i < allocs.len() ==> allocation_fault(allocs@, sales@, customer_id, i) == 0)
                && r == Ok::<i64, AppError>((amount - requested_sum(allocs@, allocs.len() as int)) as i64)
            ||| exists|i: int| 0 <= i < allocs.len() && allocation_fault(allocs@, sales@, customer_id, i) != 0
                && (forall|j: int| 0 <= j < i ==> allocation_fault(allocs@, sales@, customer_id, j) == 0)
                && (r matches Err(e) && kind_and_message(e) == allocation_error(allocs@, sales@,
                    allocation_fault(allocs@, sales@, customer_id, i), i))
        },
{
    let mut sum: i64 = 0;
    let mut i: usize = 0;
    while i < allocs.len()
        invariant
            i <= allocs.len(),
            forall|n: int| 0 <= n <= allocs.len() ==> fits(#[trigger] requested_sum(allocs@, n)),
            sum == requested_sum(allocs@, i as int),
        decreases allocs.len() - i,
    {
        assert(fits(requested_sum(allocs@, i + 1)));
        if allocs[i].amount_minor > 0 {
            sum = sum + allocs[i].amount_minor;
        }
        i += 1;
    }
    if sum > amount {
        let mut m = owned("allocations ");
        m.append(int_text(sum).as_str());
        m.append(" exceed payment amount ");
        m.append(int_text(amount).as_str());
        return Err(AppError::Validation(m));
    }
    let mut k: usize = 0;
    while k < allocs.len()
        invariant
            k <= allocs.len(),
            allocs.len() == sales.len(),
            sum == requested_sum(allocs@, allocs.len() as int),
            sum <= amount,
            forall|j: int| 0 <= j < k ==> allocation_fault(allocs@, sales@, customer_id, j) == 0,
        decreases allocs.len() - k,
    {
        match check_allocation(customer_id, allocs, sales, k) {
            Ok(()) => {},
            Err(e) => {
                assert(allocation_fault(allocs@, sales@, customer_id, k as int) != 0);
                return Err(e);
            },
        }
        k += 1;
    }
    Ok(amount - sum)
}

fn duplicate_sale_before(allocs: &Vec<AllocationRequest>, k: usize) -> (r: bool)
    requires
        k < allocs.len(),
    ensures
        r == duplicate_before(allocs@, k as int),
{
    let target = allocs[k].sale_id;
    let mut j: usize = 0;
    while j < k
        invariant
            j <= k < allocs.len(),
            target == allocs@[k as int].sale_id,
            forall|m: int| 0 <= m < j ==> !(allocs@[m].amount_minor > 0 && #[trigger] allocs@[m].sale_id == target),
        decreases k - j,
    {
        if allocs[j].amount_minor > 0 && allocs[j].sale_id == target {
            return true;
        }
        j += 1;
    }
    false
}

fn check_allocation(customer_id: i64, allocs: &Vec<AllocationRequest>, sales: &Vec<Option<SaleDue>>, k: usize) -> (r: Result<(), AppError>)
    requires
        k < allocs.len() == sales.len(),
    ensures
        r is Ok <==> allocation_fault(allocs@, sales@, customer_id, k as int) == 0,
        r matches Err(e) ==> kind_and_message(e) == allocation_error(allocs@, sales@,
            allocation_fault(allocs@, sales@, customer_id, k as int), k as int),
{
    proof {
        reveal_strlit("validation");
        reveal_strlit("not_found");
        reveal_strlit("conflict");
    }
    let a = allocs[k];
    if a.amount_minor <= 0 {
        return Ok(());
    }
    let id = int_text(a.sale_id);
    if duplicate_sale_before(allocs, k) {
        let mut m = owned("duplicate allocation for sale ");
        m.append(id.as_str());
        return Err(AppError::Validation(m));
    }
    match sales[k] {
        None => {
            let mut m = owned("sale ");
            m.append(id.as_str());
            Err(AppError::NotFound(m))
        },
        Some(s) => {
            if s.customer_id != customer_id {
                let mut m = owned("sale ");
                m.append(id.as_str());
                m.append(" does not belong to this customer");
                Err(AppError::Validation(m))
            } else if !s.confirmed {
                let mut m = owned("sale ");
                m.append(id.as_str());
                m.append(" is not a confirmed invoice");
                Err(AppError::Conflict(m))
            } else if a.amount_minor > s.due_minor {
                let mut m = owned("allocation ");
                m.append(int_text(a.amount_minor).as_str());
                m.append(" exceeds the due amount ");
                m.append(int_text(s.due_minor).as_str());
                m.append(" on sale ");
                m.append(id.as_str());
                Err(AppError::Validation(m))
            } else {
                Ok(())
            }
        },
    }
}

// ---------------------------------------------------------------------------
// Running balances
// ---------------------------------------------------------------------------

/// Current account balance: the running balance of the newest ledger entry, or
/// the opening balance when there is none. Positive means the account owes.
pub fn current_balance(latest: Option<i64>, opening: i64) -> (r: i64)
    ensures
        r == match latest { Some(b) => b, None => opening },
{
    match latest {
        Some(b) => b,
        None => opening,
    }
}

/// Running balance after appending a signed entry.
pub fn balance_after(previous: i64, amount_minor: i64) -> (r: i64)
    requires
        fits(previous + amount_minor),
    ensures
        r == previous + amount_minor,
{
    previous + amount_minor
}

/// Advance held for a customer: the credit part of a negative balance.
pub fn customer_advance(balance: i64) -> (r: i64)
    requires
        balance != i64::MIN,
    ensures
        r == if balance < 0 { -balance } else { 0 },
{
    if balance < 0 {
        -balance
    } else {
        0
    }
}

/// A cash posting of `delta` may not take the account below zero.
pub fn check_cash_balance(label: &str, account_id: i64, balance: i64, delta: i64) -> (r: Result<
    (),
    AppError,
>)
    requires
        fits(balance + delta),
    ensures
        balance + delta >= 0 ==> r is Ok,
        balance + delta < 0 ==> (r matches Err(AppError::Validation(m)) && m@ == label@
            + ": cash account "@ + crate::text::num_text(account_id as int)
            + " would go into overdraft (balance "@ + crate::text::num_text(balance as int) + ")"@),
{
    if balance + delta < 0 {
        let mut m = owned(label);
        m.append(": cash account ");
        m.append(crate::text::int_text(account_id).as_str());
        m.append(" would go into overdraft (balance ");
        m.append(crate::text::int_text(balance).as_str());
        m.append(")");
        return Err(AppError::Validation(m));
    }
    Ok(())
}

/// Balance of a cash account: its opening balance plus the sum of its signed
/// entries.
pub fn cash_balance(opening: i64, entries_sum: i64) -> (r: i64)
    requires
        fits(opening + entries_sum),
    ensures
        r == opening + entries_sum,
{
    opening + entries_sum
}

// ---------------------------------------------------------------------------
// Customer and cash-account records
// ---------------------------------------------------------------------------

/// Checked customer terms: code (trimmed, upper-cased), trimmed name, opening
/// balance, credit limit and credit days.
#[derive(Debug)]
pub struct CustomerTerms {
    pub code: String,
    pub name: String,
    pub opening_balance_minor: i64,
    pub credit_limit_minor: i64,
    pub credit_days: i64,
}

/// The first customer input check that fails, as its message.
pub open spec fn customer_input_fault(code: Seq<char>, name: Seq<char>, opening: Option<i64>, credit_limit: Option<i64>,
    credit_days: Option<i64>) -> Option<Seq<char>> {
    if upper_of(trim(code)).len() == 0 {
        Some("customer code is required"@)
    } else if is_blank(name) {
        Some("customer name is required"@)
    } else if (match opening { Some(v) => v < 0, None => false }) {
        Some("opening balance cannot be negative"@)
    } else if (match credit_limit { Some(v) => v < 0, None => false }) {
        Some("credit limit cannot be negative"@)
    } else if (match credit_days { Some(v) => v < 0, None => false }) {
        Some("credit terms cannot be negative"@)
    } else {
        None
    }
}

/// Customer input checks: a code and a name are required; opening balance and
/// credit limit default to zero, credit days to 30; none may be negative.
pub fn check_customer_input(code: &str, name: &str, opening: Option<i64>, credit_limit: Option<i64>, credit_days: Option<i64>)
    -> (r: Result<CustomerTerms, AppError>)
    ensures
        upper_of(trim(code@)).len() == 0 ==> (r matches Err(e) && e is Validation),
        r matches Ok(t) ==> {
            &&& t.code@ == upper_of(trim(code@)) && t.code@.len() > 0
            &&& t.name@ == trim(name@) && !is_blank(name@)
            &&& t.opening_balance_minor == match opening { Some(v) => v, None => 0 } && t.opening_balance_minor >= 0
            &&& t.credit_limit_minor == match credit_limit { Some(v) => v, None => 0 } && t.credit_limit_minor >= 0
            &&& t.credit_days == match credit_days { Some(v) => v, None => 30 } && t.credit_days >= 0
        },
        r is Err <==> customer_input_fault(code@, name@, opening, credit_limit, credit_days) is Some,
        r matches Err(e) ==> customer_input_fault(code@, name@, opening, credit_limit, credit_days) matches Some(m)
            && (e matches AppError::Validation(em) && em@ == m),
{
    let trimmed = trim_str(code);
    let code_norm = to_upper(trimmed.as_str());
    if code_norm.unicode_len() == 0 {
        return Err(validation("customer code is required"));
    }
    if str_is_blank(name) {
        return Err(validation("customer name is required"));
    }
    let opening_v = match opening { Some(v) => v, None => 0 };
    if opening_v < 0 {
        return Err(validation("opening balance cannot be negative"));
    }
    let limit_v = match credit_limit { Some(v) => v, None => 0 };
    if limit_v < 0 {
        return Err(validation("credit limit cannot be negative"));
    }
    let days_v = match credit_days { Some(v) => v, None => 30 };
    if days_v < 0 {
        return Err(validation("credit terms cannot be negative"));
    }
    Ok(CustomerTerms {
        code: code_norm,
        name: trim_str(name),
        opening_balance_minor: opening_v,
        credit_limit_minor: limit_v,
        credit_days: days_v,
    })
}

/// Checked cash account: code (trimmed, upper-cased), trimmed name, kind and
/// opening balance.
#[derive(Debug)]
pub struct CashAccountTerms {
    pub code: String,
    pub name: String,
    pub kind: String,
    pub opening_balance_minor: i64,
}

/// The first cash account input check that fails, as its message.
pub open spec fn cash_account_input_fault(code: Seq<char>, name: Seq<char>, kind: Option<String>, opening: Option<i64>)
    -> Option<Seq<char>> {
    if upper_of(trim(code)).len() == 0 {
        Some("cash account code is required"@)
    } else if is_blank(name) {
        Some("cash account name is required"@)
    } else if (match kind { Some(k) => k@ != "cash"@ && k@ != "bank"@, None => false }) {
        Some("kind must be cash or bank"@)
    } else if (match opening { Some(v) => v < 0, None => false }) {
        Some("opening balance cannot be negative"@)
    } else {
        None
    }
}

/// Cash account input checks: code and name are required; the kind (default
/// `cash`) must be `cash` or `bank`; the opening balance (default zero) may
/// not be negative.
pub fn check_cash_account_input(code: &str, name: &str, kind: Option<String>, opening: Option<i64>)
    -> (r: Result<CashAccountTerms, AppError>)
    ensures
        r matches Ok(t) ==> {
            &&& t.code@ == upper_of(trim(code@)) && t.code@.len() > 0
            &&& t.name@ == trim(name@) && !is_blank(name@)
            &&& t.kind@ == match kind { Some(k) => k@, None => "cash"@ }
            &&& (t.kind@ == "cash"@ || t.kind@ == "bank"@)
            &&& t.opening_balance_minor == match opening { Some(v) => v, None => 0 } && t.opening_balance_minor >= 0
        },
        r is Err <==> cash_account_input_fault(code@, name@, kind, opening) is Some,
        r matches Err(e) ==> cash_account_input_fault(code@, name@, kind, opening) matches Some(m)
            && (e matches AppError::Validation(em) && em@ == m),
{
    let trimmed = trim_str(code);
    let code_norm = to_upper(trimmed.as_str());
    if code_norm.unicode_len() == 0 {
        return Err(validation("cash account code is required"));
    }
    if str_is_blank(name) {
        return Err(validation("cash account name is required"));
    }
    let kind_v = match kind { Some(k) => k, None => owned("cash") };
    if !str_eq(kind_v.as_str(), "cash") && !str_eq(kind_v.as_str(), "bank") {
        return Err(validation("kind must be cash or bank"));
    }
    let opening_v = match opening { Some(v) => v, None => 0 };
    if opening_v < 0 {
        return Err(validation("opening balance cannot be negative"));
    }
    Ok(CashAccountTerms { code: code_norm, name: trim_str(name), kind: kind_v, opening_balance_minor: opening_v })
}


/// A receipt must be positive and dated.
pub fn check_receipt_input(amount_minor: i64, payment_date: &str) -> (r: Result<(), AppError>)
    ensures
        amount_minor <= 0 ==> (r matches Err(AppError::Validation(m)) && m@
            == "payment amount must be positive"@),
        amount_minor > 0 && is_blank(payment_date@) ==> (r matches Err(AppError::Validation(m))
            && m@ == "payment date is required"@),
        amount_minor > 0 && !is_blank(payment_date@) ==> r is Ok,
{
    if amount_minor <= 0 {
        return Err(validation("payment amount must be positive"));
    }
    if str_is_blank(payment_date) {
        return Err(validation("payment date is required"));
    }
    Ok(())
}

/// Only a posted receipt is voided (`status` is what was read for it, if it
/// exists).
pub fn check_receipt_voidable(payment_id: i64, status: Option<String>) -> (r: Result<(), AppError>)
    ensures
        match status {
            None => r matches Err(AppError::NotFound(m)) && m@ == "customer payment "@ + num_text(payment_id as int),
            Some(s) => if s@ == "posted"@ {
                r is Ok
            } else {
                r matches Err(AppError::Conflict(m)) && m@ == "receipt "@ + num_text(payment_id as int)
                    + " is already voided"@
            },
        },
{
    match status {
        None => {
            let mut m = owned("customer payment ");
            m.append(int_text(payment_id).as_str());
            Err(AppError::NotFound(m))
        },
        Some(s) => {
            if str_eq(s.as_str(), "posted") {
                return Ok(());
            }
            let mut m = owned("receipt ");
            m.append(int_text(payment_id).as_str());
            m.append(" is already voided");
            Err(AppError::Conflict(m))
        },
    }
}

/// The signed entries a receipt of `amount` posts, as (cash account, customer
/// ledger): money comes into the cash account and the customer owes that much
/// less. Voiding the receipt posts the opposite entries.
pub open spec fn receipt_entries(amount: int, voiding: bool) -> (int, int) {
    if voiding { (-amount, amount) } else { (amount, -amount) }
}

pub fn receipt_postings(amount: i64, voiding: bool) -> (r: (i64, i64))
    requires
        amount != i64::MIN,
    ensures
        (r.0 as int, r.1 as int) == receipt_entries(amount as int, voiding),
{
    if voiding { (-amount, amount) } else { (amount, -amount) }
}

/// Posting a receipt and then voiding it leaves both the cash account and the
/// customer's running balance where they were.
pub proof fn law_voided_receipt_balances_out(cash: int, balance: int, amount: int)
    ensures
        cash + receipt_entries(amount, false).0 + receipt_entries(amount, true).0 == cash,
        balance + receipt_entries(amount, false).1 + receipt_entries(amount, true).1 == balance,
{
}

/// A cash account or payment method that is missing or inactive:
/// `what id`, as not found.
pub fn missing_account(what: &str, id: i64) -> (e: AppError)
    ensures
        e matches AppError::NotFound(m) && m@ == what@ + " "@ + crate::text::num_text(id as int),
{
    let mut m = owned(what);
    m.append(" ");
    m.append(crate::text::int_text(id).as_str());
    AppError::NotFound(m)
}


/// A way of paying, as offered for selection.
#[derive(Debug)]
pub struct PaymentMethodDto {
    pub id: i64,
    pub code: String,
    pub name: String,
    pub is_active: bool,
}

/// How a stored payment-method row reads: active when its flag is non-zero.
pub fn payment_method_dto(id: i64, code: String, name: String, is_active: i64) -> (r: PaymentMethodDto)
    ensures
        r.id == id,
        r.code == code,
        r.name == name,
        r.is_active == (is_active != 0),
{
    PaymentMethodDto { id, code, name, is_active: is_active != 0 }
}

} // verus!
