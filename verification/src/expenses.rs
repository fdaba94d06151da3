//! Expenses, owner capital and withdrawals, and the profit summary: the
//! checks on what is entered, the cash effect of each posting, and the
//! summary's arithmetic.
use vstd::prelude::*;

use crate::error::{validation, AppError};
use crate::inventory::fits;
use crate::purchases::{calendar_day, parse_calendar_day};
use crate::text::{
    int_text, lower_of, num_text, owned, str_eq, str_eq_ignore_ascii_case, eq_ignore_ascii_case,
    to_lower, to_upper, trim, trim_str, upper_of,
};

verus! {

// ---------------------------------------------------------------------------
// Dates and texts
// ---------------------------------------------------------------------------

/// A `YYYY-MM-DD` date, surrounding whitespace allowed.
pub open spec fn valid_date(value: Seq<char>) -> bool {
    calendar_day(trim(value)) is Some
}

pub open spec fn date_message(label: Seq<char>) -> Seq<char> {
    label + ": date must be a valid YYYY-MM-DD date"@
}

pub fn validate_date(label: &str, value: &str) -> (r: Result<(), AppError>)
    ensures
        valid_date(value@) ==> r is Ok,
        !valid_date(value@) ==> (r matches Err(AppError::Validation(m)) && m@ == date_message(
            label@,
        )),
{
    let trimmed = trim_str(value);
    if parse_calendar_day(trimmed.as_str()).is_none() {
        let mut m = owned(label);
        m.append(": date must be a valid YYYY-MM-DD date");
        return Err(AppError::Validation(m));
    }
    Ok(())
}

/// An optional text, trimmed, a blank one taken as not given.
pub open spec fn trimmed_given(value: Option<String>) -> Option<Seq<char>> {
    match value {
        Some(v) => if trim(v@).len() == 0 {
            None
        } else {
            Some(trim(v@))
        },
        None => None,
    }
}

pub fn trimmed_option(value: &Option<String>) -> (r: Option<String>)
    ensures
        match trimmed_given(*value) {
            Some(t) => r matches Some(s) && s@ == t,
            None => r is None,
        },
{
    match value {
        Some(v) => {
            let t = trim_str(v.as_str());
            if t.unicode_len() == 0 {
                None
            } else {
                Some(t)
            }
        },
        None => None,
    }
}

/// Lexicographic order of texts by code point, as `String`'s `<` orders them.
pub open spec fn text_less(a: Seq<char>, b: Seq<char>) -> bool
    decreases a.len(),
{
    if a.len() == 0 {
        b.len() > 0
    } else if b.len() == 0 {
        false
    } else if a[0] != b[0] {
        (a[0] as u32) < (b[0] as u32)
    } else {
        text_less(a.drop_first(), b.drop_first())
    }
}

proof fn lemma_text_less_step(a: Seq<char>, b: Seq<char>, i: int)
    requires
        0 <= i <= a.len(),
        i <= b.len(),
        forall|k: int| 0 <= k < i ==> a[k] == b[k],
    ensures
        text_less(a, b) == text_less(a.subrange(i, a.len() as int), b.subrange(i, b.len() as int)),
    decreases i,
{
    if i > 0 {
        assert(a[0] == b[0]);
        let a1 = a.drop_first();
        let b1 = b.drop_first();
        lemma_text_less_step(a1, b1, i - 1);
        assert(a1.subrange(i - 1, a1.len() as int) =~= a.subrange(i, a.len() as int));
        assert(b1.subrange(i - 1, b1.len() as int) =~= b.subrange(i, b.len() as int));
    } else {
        assert(a.subrange(0, a.len() as int) =~= a);
        assert(b.subrange(0, b.len() as int) =~= b);
    }
}

/// Whether `a` sorts after `b`.
pub fn text_after(a: &str, b: &str) -> (r: bool)
    ensures
        r == text_less(b@, a@),
{
    let va = crate::text::chars_of(a);
    let vb = crate::text::chars_of(b);
    let mut i: usize = 0;
    while i < va.len() && i < vb.len() && va[i] == vb[i]
        invariant
            i <= va.len(),
            i <= vb.len(),
            va@ == a@,
            vb@ == b@,
            forall|k: int| 0 <= k < i ==> vb@[k] == va@[k],
        decreases va.len() - i,
    {
        i += 1;
    }
    proof {
        lemma_text_less_step(vb@, va@, i as int);
    }
    let ghost sb = vb@.subrange(i as int, vb@.len() as int);
    let ghost sa = va@.subrange(i as int, va@.len() as int);
    if i == vb.len() {
        assert(sb.len() == 0);
        i < va.len()
    } else if i == va.len() {
        assert(sa.len() == 0);
        false
    } else {
        assert(sb[0] == vb@[i as int] && sa[0] == va@[i as int]);
        (vb[i] as u32) < (va[i] as u32)
    }
}

// ---------------------------------------------------------------------------
// Expense categories
// ---------------------------------------------------------------------------

/// A new category: its code trimmed and upper-cased, its name trimmed; both
/// required. It is active unless said otherwise.
pub fn check_expense_category(code: &str, name: &str, is_active: Option<bool>) -> (r: Result<
    (String, String, bool),
    AppError,
>)
    ensures
        upper_of(trim(code@)).len() == 0 ==> (r matches Err(AppError::Validation(m)) && m@
            == "category code is required"@),
        upper_of(trim(code@)).len() > 0 && trim(name@).len() == 0 ==> (r matches Err(
            AppError::Validation(m),
        ) && m@ == "category name is required"@),
        upper_of(trim(code@)).len() > 0 && trim(name@).len() > 0 ==> (r matches Ok((c, n, a))
            && c@ == upper_of(trim(code@)) && n@ == trim(name@) && a == match is_active {
            Some(x) => x,
            None => true,
        }),
{
    let t = trim_str(code);
    let code = to_upper(t.as_str());
    let name = trim_str(name);
    if code.unicode_len() == 0 {
        return Err(validation("category code is required"));
    }
    if name.unicode_len() == 0 {
        return Err(validation("category name is required"));
    }
    let active = match is_active {
        Some(x) => x,
        None => true,
    };
    Ok((code, name, active))
}

/// Another category already has the name (or the code).
pub fn category_conflict(name: &str, code: Option<&str>) -> (e: AppError)
    ensures
        match code {
            Some(c) => e matches AppError::Conflict(m) && m@ == "an expense category named '"@
                + name@ + "' (or code '"@ + c@ + "') already exists"@,
            None => e matches AppError::Conflict(m) && m@ == "an expense category named '"@
                + name@ + "' already exists"@,
        },
{
    let mut m = owned("an expense category named '");
    m.append(name);
    match code {
        Some(c) => {
            m.append("' (or code '");
            m.append(c);
            m.append("') already exists");
        },
        None => {
            m.append("' already exists");
        },
    }
    AppError::Conflict(m)
}

// ---------------------------------------------------------------------------
// Listing expenses
// ---------------------------------------------------------------------------

/// `value.clamp(lo, hi)`.
pub open spec fn clamped(value: int, lo: int, hi: int) -> int {
    if value < lo {
        lo
    } else if value > hi {
        hi
    } else {
        value
    }
}

fn clamp_i64(value: i64, lo: i64, hi: i64) -> (r: i64)
    requires
        lo <= hi,
    ensures
        r == clamped(value as int, lo as int, hi as int),
{
    if value < lo {
        lo
    } else if value > hi {
        hi
    } else {
        value
    }
}

/// Rows a plain expense list answers with: 100 unless given, between 1 and
/// 10 000.
pub fn expense_list_limit(limit: Option<i64>) -> (r: i64)
    ensures
        r == clamped(
            match limit {
                Some(l) => l as int,
                None => 100,
            },
            1,
            10_000,
        ),
{
    clamp_i64(
        match limit {
            Some(l) => l,
            None => 100,
        },
        1,
        10_000,
    )
}

/// The column an expense page sorts by.
#[derive(Debug, Clone, Copy, PartialEq, Eq, Structural)]
pub enum ExpenseSort {
    Date,
    Category,
    Note,
    Amount,
}

/// An expense page as asked for.
#[derive(Debug)]
pub struct ExpensePageInput {
    pub limit: Option<i64>,
    pub offset: Option<i64>,
    pub from_date: Option<String>,
    pub to_date: Option<String>,
    pub status: Option<String>,
    pub search: Option<String>,
    pub sort_by: Option<String>,
    pub sort_direction: Option<String>,
}

/// An expense page as it is read.
#[derive(Debug)]
pub struct ExpensePagePlan {
    pub limit: i64,
    pub offset: i64,
    /// The search as a case-insensitive containment pattern.
    pub search_pattern: Option<String>,
    pub sort: ExpenseSort,
    pub ascending: bool,
}

pub open spec fn known_expense_status(s: Seq<char>) -> bool {
    s == "posted"@ || s == "reversed"@ || s == "draft"@
}

/// Why a page request is refused, checked in this order.
pub open spec fn page_fault(input: ExpensePageInput) -> Option<Seq<char>> {
    if (match input.from_date {
        Some(f) => !valid_date(f@),
        None => false,
    }) {
        Some(date_message("from date"@))
    } else if (match input.to_date {
        Some(t) => !valid_date(t@),
        None => false,
    }) {
        Some(date_message("to date"@))
    } else if (match (input.from_date, input.to_date) {
        (Some(f), Some(t)) => text_less(t@, f@),
        _ => false,
    }) {
        Some("from date cannot be after to date"@)
    } else if (match input.status {
        Some(s) => !known_expense_status(s@),
        None => false,
    }) {
        Some("invalid expense status"@)
    } else {
        None
    }
}

/// A page of expenses: 20 rows unless given, between 1 and 100; the offset
/// never below zero; well-formed dates, `from` not after `to`; a known
/// status; the search lower-cased as a containment pattern; sorted by date
/// unless `category`, `note` or `amount` is asked for, newest first unless
/// `asc` (any case) is asked for.
pub fn plan_expense_page(input: &ExpensePageInput) -> (r: Result<ExpensePagePlan, AppError>)
    ensures
        match page_fault(*input) {
            Some(msg) => r matches Err(AppError::Validation(m)) && m@ == msg,
            None => r matches Ok(p) && {
                &&& p.limit == clamped(
                    match input.limit {
                        Some(l) => l as int,
                        None => 20,
                    },
                    1,
                    100,
                )
                &&& p.offset == match input.offset {
                    Some(o) => if o < 0 {
                        0
                    } else {
                        o as int
                    },
                    None => 0,
                }
                &&& match trimmed_given(input.search) {
                    Some(t) => p.search_pattern matches Some(s) && s@ == "%"@ + lower_of(t) + "%"@,
                    None => p.search_pattern is None,
                }
                &&& p.sort == match input.sort_by {
                    Some(s) => if s@ == "category"@ {
                        ExpenseSort::Category
                    } else if s@ == "note"@ {
                        ExpenseSort::Note
                    } else if s@ == "amount"@ {
                        ExpenseSort::Amount
                    } else {
                        ExpenseSort::Date
                    },
                    None => ExpenseSort::Date,
                }
                &&& p.ascending == match input.sort_direction {
                    Some(d) => eq_ignore_ascii_case(d@, "asc"@),
                    None => false,
                }
            },
        },
{
    let limit = clamp_i64(
        match input.limit {
            Some(l) => l,
            None => 20,
        },
        1,
        100,
    );
    let offset = match input.offset {
        Some(o) => if o < 0 {
            0
        } else {
            o
        },
        None => 0,
    };
    match &input.from_date {
        Some(f) => validate_date("from date", f.as_str())?,
        None => {},
    }
    match &input.to_date {
        Some(t) => validate_date("to date", t.as_str())?,
        None => {},
    }
    match (&input.from_date, &input.to_date) {
        (Some(f), Some(t)) => {
            if text_after(f.as_str(), t.as_str()) {
                return Err(validation("from date cannot be after to date"));
            }
        },
        _ => {},
    }
    match &input.status {
        Some(s) => {
            if !(str_eq(s.as_str(), "posted") || str_eq(s.as_str(), "reversed") || str_eq(
                s.as_str(),
                "draft",
            )) {
                return Err(validation("invalid expense status"));
            }
        },
        None => {},
    }
    let search_pattern = match trimmed_option(&input.search) {
        Some(t) => {
            let mut p = owned("%");
            p.append(to_lower(t.as_str()).as_str());
            p.append("%");
            Some(p)
        },
        None => None,
    };
    let sort = match &input.sort_by {
        Some(s) => if str_eq(s.as_str(), "category") {
            ExpenseSort::Category
        } else if str_eq(s.as_str(), "note") {
            ExpenseSort::Note
        } else if str_eq(s.as_str(), "amount") {
            ExpenseSort::Amount
        } else {
            ExpenseSort::Date
        },
        None => ExpenseSort::Date,
    };
    let ascending = match &input.sort_direction {
        Some(d) => str_eq_ignore_ascii_case(d.as_str(), "asc"),
        None => false,
    };
    Ok(ExpensePagePlan { limit, offset, search_pattern, sort, ascending })
}

// ---------------------------------------------------------------------------
// Posting and reversing expenses
// ---------------------------------------------------------------------------

/// The texts of an expense after the checks.
#[derive(Debug)]
pub struct ExpenseTexts {
    pub description: String,
    pub payee: Option<String>,
    pub reference: Option<String>,
    pub attachment_path: Option<String>,
    pub idempotency_key: Option<String>,
}

/// An expense must be positive and dated; its texts are trimmed, blank
/// optional ones taken as not given.
pub fn check_expense(
    amount_minor: i64,
    description: &str,
    expense_date: &str,
    payee: &Option<String>,
    reference: &Option<String>,
    attachment_path: &Option<String>,
    idempotency_key: &Option<String>,
) -> (r: Result<ExpenseTexts, AppError>)
    ensures
        amount_minor <= 0 ==> (r matches Err(AppError::Validation(m)) && m@
            == "expense amount must be positive"@),
        amount_minor > 0 && !valid_date(expense_date@) ==> (r matches Err(AppError::Validation(m))
            && m@ == date_message("expense date"@)),
        amount_minor > 0 && valid_date(expense_date@) ==> (r matches Ok(t) && t.description@
            == trim(description@) && trimmed_given(*payee) == (match t.payee {
            Some(x) => Some(x@),
            None => None::<Seq<char>>,
        }) && trimmed_given(*reference) == (match t.reference {
            Some(x) => Some(x@),
            None => None::<Seq<char>>,
        }) && trimmed_given(*attachment_path) == (match t.attachment_path {
            Some(x) => Some(x@),
            None => None::<Seq<char>>,
        }) && trimmed_given(*idempotency_key) == (match t.idempotency_key {
            Some(x) => Some(x@),
            None => None::<Seq<char>>,
        })),
{
    if amount_minor <= 0 {
        return Err(validation("expense amount must be positive"));
    }
    let description = trim_str(description);
    validate_date("expense date", expense_date)?;
    Ok(
        ExpenseTexts {
            description,
            payee: trimmed_option(payee),
            reference: trimmed_option(reference),
            attachment_path: trimmed_option(attachment_path),
            idempotency_key: trimmed_option(idempotency_key),
        },
    )
}

/// `label id is not active`, for what an expense or transfer refers to.
pub fn inactive_reference(label: &str, id: i64, what: &str) -> (e: AppError)
    ensures
        e matches AppError::Validation(m) && m@ == label@ + what@ + num_text(id as int)
            + " is not active"@,
{
    let mut m = owned(label);
    m.append(what);
    m.append(int_text(id).as_str());
    m.append(" is not active");
    AppError::Validation(m)
}

/// The cash-book text of a posted expense.
pub fn expense_reason(number: &str, description: &str) -> (r: String)
    ensures
        r@ == "Expense "@ + number@ + " — "@ + description@,
{
    let mut m = owned("Expense ");
    m.append(number);
    m.append(" — ");
    m.append(description);
    m
}

/// A reversal needs a reason, trimmed.
pub fn check_reversal_reason(reason: &str) -> (r: Result<String, AppError>)
    ensures
        trim(reason@).len() == 0 ==> (r matches Err(AppError::Validation(m)) && m@
            == "reversal reason is required"@),
        trim(reason@).len() > 0 ==> (r matches Ok(t) && t@ == trim(reason@)),
{
    let t = trim_str(reason);
    if t.unicode_len() == 0 {
        return Err(validation("reversal reason is required"));
    }
    Ok(t)
}

/// Only a posted expense is reversed; the reversal puts its amount back into
/// the cash account. `found` is the expense's status, amount and number.
pub fn plan_expense_reversal(expense_id: i64, found: Option<(String, i64, String)>) -> (r: Result<
    i64,
    AppError,
>)
    ensures
        match found {
            None => r matches Err(AppError::NotFound(m)) && m@ == "expense "@ + num_text(
                expense_id as int,
            ) + " not found"@,
            Some((status, amount, number)) => if status@ == "posted"@ {
                r == Ok::<i64, AppError>(amount)
            } else {
                r matches Err(AppError::Validation(m)) && m@ == "expense "@ + number@ + " is '"@
                    + status@ + "', only posted expenses can be reversed"@
            },
        },
{
    match found {
        None => {
            let mut m = owned("expense ");
            m.append(int_text(expense_id).as_str());
            m.append(" not found");
            Err(AppError::NotFound(m))
        },
        Some((status, amount, number)) => {
            if str_eq(status.as_str(), "posted") {
                return Ok(amount);
            }
            let mut m = owned("expense ");
            m.append(number.as_str());
            m.append(" is '");
            m.append(status.as_str());
            m.append("', only posted expenses can be reversed");
            Err(AppError::Validation(m))
        },
    }
}

/// The cash-book entry of an expense of `amount`: money leaves the account
/// when it is posted and comes back when it is reversed.
pub open spec fn expense_cash_entry(amount: int, reversing: bool) -> int {
    if reversing { amount } else { -amount }
}

pub fn expense_cash_delta(amount: i64, reversing: bool) -> (r: i64)
    requires
        amount != i64::MIN,
    ensures
        r == expense_cash_entry(amount as int, reversing),
{
    if reversing { amount } else { -amount }
}

/// Posting an expense and then reversing it leaves the cash account as it
/// was: `plan_expense_reversal` credits back exactly the posted amount, and
/// the posting's and the reversal's cash-book entries (as `expense_cash_delta`
/// gives them) cancel.
pub proof fn law_reversal_cancels_expense(balance: int, amount: int)
    ensures
        balance + expense_cash_entry(amount, false) + expense_cash_entry(amount, true) == balance,
{
}

// ---------------------------------------------------------------------------
// Owner capital and withdrawals
// ---------------------------------------------------------------------------

/// A checked owner transfer: its cash-book entry type, its signed cash
/// effect, its label, and its trimmed notes and key.
#[derive(Debug)]
pub struct OwnerTransfer {
    pub entry_type: String,
    pub signed_amount: i64,
    pub label: String,
    pub notes: Option<String>,
    pub idempotency_key: Option<String>,
}

/// A capital contribution adds cash, a withdrawal takes it out; the amount
/// must be positive and the date well-formed.
pub fn check_owner_transfer(
    kind: &str,
    amount_minor: i64,
    transaction_date: &str,
    notes: &Option<String>,
    idempotency_key: &Option<String>,
) -> (r: Result<OwnerTransfer, AppError>)
    ensures
        kind@ != "capital_in"@ && kind@ != "withdrawal"@ ==> (r matches Err(AppError::Validation(m))
            && m@ == "kind must be capital_in or withdrawal"@),
        (kind@ == "capital_in"@ || kind@ == "withdrawal"@) && amount_minor <= 0 ==> (r matches Err(
            AppError::Validation(m),
        ) && m@ == "transfer amount must be positive"@),
        (kind@ == "capital_in"@ || kind@ == "withdrawal"@) && amount_minor > 0 && !valid_date(
            transaction_date@,
        ) ==> (r matches Err(AppError::Validation(m)) && m@ == date_message(
            "transaction date"@,
        )),
        (kind@ == "capital_in"@ || kind@ == "withdrawal"@) && amount_minor > 0 && valid_date(
            transaction_date@,
        ) ==> (r matches Ok(t) && {
            &&& kind@ == "capital_in"@ ==> t.entry_type@ == "owner_capital"@ && t.signed_amount
                == amount_minor && t.label@ == "capital contribution"@
            &&& kind@ == "withdrawal"@ ==> t.entry_type@ == "owner_withdrawal"@ && t.signed_amount
                == -amount_minor && t.label@ == "owner withdrawal"@
            &&& trimmed_given(*notes) == (match t.notes {
                Some(x) => Some(x@),
                None => None::<Seq<char>>,
            })
            &&& trimmed_given(*idempotency_key) == (match t.idempotency_key {
                Some(x) => Some(x@),
                None => None::<Seq<char>>,
            })
        }),
{
    let capital = str_eq(kind, "capital_in");
    if !capital && !str_eq(kind, "withdrawal") {
        return Err(validation("kind must be capital_in or withdrawal"));
    }
    if amount_minor <= 0 {
        return Err(validation("transfer amount must be positive"));
    }
    validate_date("transaction date", transaction_date)?;
    proof {
        reveal_strlit("capital_in");
        reveal_strlit("withdrawal");
        assert("capital_in"@ != "withdrawal"@) by {
            assert("capital_in"@[0] != "withdrawal"@[0]);
        }
    }
    Ok(
        OwnerTransfer {
            entry_type: if capital {
                owned("owner_capital")
            } else {
                owned("owner_withdrawal")
            },
            signed_amount: if capital {
                amount_minor
            } else {
                -amount_minor
            },
            label: if capital {
                owned("capital contribution")
            } else {
                owned("owner withdrawal")
            },
            notes: trimmed_option(notes),
            idempotency_key: trimmed_option(idempotency_key),
        },
    )
}

/// The cash-book text of an owner transfer: its label and number, then its
/// notes where given.
pub fn owner_transfer_reason(label: &str, number: &str, notes: &Option<String>) -> (r: String)
    ensures
        r@ == label@ + " "@ + number@ + match notes {
            Some(n) => " — "@ + n@,
            None => Seq::<char>::empty(),
        },
{
    let mut m = owned(label);
    m.append(" ");
    m.append(number);
    match notes {
        Some(n) => {
            m.append(" — ");
            m.append(n.as_str());
        },
        None => {},
    }
    m
}

/// Rows an owner-transfer list answers with: 50 unless given, at most 500.
pub fn owner_transfer_limit(limit: Option<i64>) -> (r: i64)
    ensures
        r == match limit {
            Some(l) => if l < 500 {
                l
            } else {
                500
            },
            None => 50,
        },
{
    match limit {
        Some(l) => if l < 500 {
            l
        } else {
            500
        },
        None => 50,
    }
}

// ---------------------------------------------------------------------------
// Profit summary
// ---------------------------------------------------------------------------

/// The period of a profit summary: from the first to the last representable
/// day unless given; both well-formed, `from` not after `to`.
pub fn profit_period(from_date: &Option<String>, to_date: &Option<String>) -> (r: Result<
    (String, String),
    AppError,
>)
    ensures
        ({
            let from = match from_date {
                Some(f) => f@,
                None => "0001-01-01"@,
            };
            let to = match to_date {
                Some(t) => t@,
                None => "9999-12-31"@,
            };
            if !valid_date(from) {
                r matches Err(AppError::Validation(m)) && m@ == date_message("from date"@)
            } else if !valid_date(to) {
                r matches Err(AppError::Validation(m)) && m@ == date_message("to date"@)
            } else if text_less(to, from) {
                r matches Err(AppError::Validation(m)) && m@ == "from date cannot be after to date"@
            } else {
                r matches Ok((f, t)) && f@ == from && t@ == to
            }
        }),
{
    let from = match from_date {
        Some(f) => f.clone(),
        None => owned("0001-01-01"),
    };
    let to = match to_date {
        Some(t) => t.clone(),
        None => owned("9999-12-31"),
    };
    validate_date("from date", from.as_str())?;
    validate_date("to date", to.as_str())?;
    if text_after(from.as_str(), to.as_str()) {
        return Err(validation("from date cannot be after to date"));
    }
    Ok((from, to))
}

/// The figures a profit summary reads, each for the period.
#[derive(Debug, Clone, Copy, PartialEq, Eq, Structural)]
pub struct ProfitFigures {
    pub revenue: i64,
    pub cogs: i64,
    pub delivery_income: i64,
    pub expenses: i64,
    pub damage_loss: i64,
    pub owner_capital_in: i64,
    pub owner_withdrawals: i64,
    pub cash_inflow: i64,
    pub cash_outflow: i64,
}

/// What the summary derives: gross profit, operational profit (after
/// expenses and written-off damage), and net cash flow.
#[derive(Debug, Clone, Copy, PartialEq, Eq, Structural)]
pub struct ProfitTotals {
    pub gross_profit: i64,
    pub operational_profit: i64,
    pub net_cash_flow: i64,
}

pub fn profit_totals(f: ProfitFigures) -> (r: ProfitTotals)
    requires
        fits(f.revenue - f.cogs),
        fits(f.revenue - f.cogs - f.expenses),
        fits(f.revenue - f.cogs - f.expenses - f.damage_loss),
        fits(f.cash_inflow - f.cash_outflow),
    ensures
        r.gross_profit == f.revenue - f.cogs,
        r.operational_profit == f.revenue - f.cogs - f.expenses - f.damage_loss,
        r.net_cash_flow == f.cash_inflow - f.cash_outflow,
{
    let gross_profit = f.revenue - f.cogs;
    ProfitTotals {
        gross_profit,
        operational_profit: gross_profit - f.expenses - f.damage_loss,
        net_cash_flow: f.cash_inflow - f.cash_outflow,
    }
}

} // verus!
