use furniture_shop::error::AppError;
use furniture_shop::expenses::{
    category_conflict, check_expense, check_expense_category, check_owner_transfer,
    check_reversal_reason, expense_list_limit, expense_reason, owner_transfer_limit,
    owner_transfer_reason, plan_expense_page, plan_expense_reversal, profit_period,
    profit_totals, text_after, validate_date, ExpensePageInput, ExpenseSort, ProfitFigures,
};

fn message(e: AppError) -> String {
    match e {
        AppError::Validation(m) | AppError::Conflict(m) | AppError::NotFound(m) => m,
        _ => panic!("unexpected error kind"),
    }
}

fn page() -> ExpensePageInput {
    ExpensePageInput {
        limit: None,
        offset: None,
        from_date: None,
        to_date: None,
        status: None,
        search: None,
        sort_by: None,
        sort_direction: None,
    }
}

#[test]
fn dates_must_be_calendar_days() {
    assert!(validate_date("expense date", " 2026-02-28 ").is_ok());
    assert_eq!(
        message(validate_date("expense date", "2026-02-30").unwrap_err()),
        "expense date: date must be a valid YYYY-MM-DD date"
    );
    assert!(text_after("2026-02-01", "2026-01-31"));
    assert!(!text_after("2026-01-31", "2026-01-31"));
    assert!(text_after("b", "a"));
    assert!(text_after("ab", "a"));
}

#[test]
fn expense_pages_clamp_and_check_their_filters() {
    let p = plan_expense_page(&page()).unwrap();
    assert_eq!((p.limit, p.offset), (20, 0));
    assert_eq!(p.sort, ExpenseSort::Date);
    assert!(!p.ascending);
    let mut q = page();
    q.limit = Some(1000);
    q.offset = Some(-3);
    q.search = Some("  Rent ".into());
    q.sort_by = Some("amount".into());
    q.sort_direction = Some("ASC".into());
    let p = plan_expense_page(&q).unwrap();
    assert_eq!((p.limit, p.offset), (100, 0));
    assert_eq!(p.search_pattern.as_deref(), Some("%rent%"));
    assert_eq!(p.sort, ExpenseSort::Amount);
    assert!(p.ascending);
    let mut r = page();
    r.from_date = Some("2026-02-01".into());
    r.to_date = Some("2026-01-01".into());
    assert_eq!(message(plan_expense_page(&r).unwrap_err()), "from date cannot be after to date");
    let mut s = page();
    s.status = Some("open".into());
    assert_eq!(message(plan_expense_page(&s).unwrap_err()), "invalid expense status");
    assert_eq!(expense_list_limit(None), 100);
    assert_eq!(expense_list_limit(Some(0)), 1);
    assert_eq!(expense_list_limit(Some(20_000)), 10_000);
}

#[test]
fn expenses_are_positive_dated_and_trimmed() {
    let t = check_expense(500, " Rent ", "2026-01-05", &Some("  ".into()), &Some(" R-1 ".into()), &None, &None)
        .unwrap();
    assert_eq!(t.description, "Rent");
    assert_eq!(t.payee, None);
    assert_eq!(t.reference.as_deref(), Some("R-1"));
    assert_eq!(
        message(check_expense(0, "x", "2026-01-05", &None, &None, &None, &None).unwrap_err()),
        "expense amount must be positive"
    );
    assert_eq!(expense_reason("EXP-1", "Rent"), "Expense EXP-1 — Rent");
    assert_eq!(message(check_reversal_reason("  ").unwrap_err()), "reversal reason is required");
    assert_eq!(plan_expense_reversal(2, Some(("posted".into(), 700, "EXP-2".into()))).unwrap(), 700);
    assert_eq!(
        message(plan_expense_reversal(2, Some(("reversed".into(), 700, "EXP-2".into()))).unwrap_err()),
        "expense EXP-2 is 'reversed', only posted expenses can be reversed"
    );
    assert_eq!(message(plan_expense_reversal(2, None).unwrap_err()), "expense 2 not found");
}

#[test]
fn categories_and_owner_transfers() {
    let (code, name, active) = check_expense_category(" rent ", " Rent ", None).unwrap();
    assert_eq!((code.as_str(), name.as_str(), active), ("RENT", "Rent", true));
    assert_eq!(
        message(check_expense_category(" ", "Rent", None).unwrap_err()),
        "category code is required"
    );
    assert_eq!(
        message(category_conflict("Rent", Some("RENT"))),
        "an expense category named 'Rent' (or code 'RENT') already exists"
    );
    let w = check_owner_transfer("withdrawal", 300, "2026-01-01", &Some(" cash ".into()), &None).unwrap();
    assert_eq!(w.signed_amount, -300);
    assert_eq!(w.entry_type, "owner_withdrawal");
    assert_eq!(owner_transfer_reason(&w.label, "OWN-1", &w.notes), "owner withdrawal OWN-1 — cash");
    let c = check_owner_transfer("capital_in", 300, "2026-01-01", &None, &None).unwrap();
    assert_eq!(c.signed_amount, 300);
    assert_eq!(owner_transfer_reason(&c.label, "OWN-2", &c.notes), "capital contribution OWN-2");
    assert_eq!(
        message(check_owner_transfer("loan", 300, "2026-01-01", &None, &None).unwrap_err()),
        "kind must be capital_in or withdrawal"
    );
    assert_eq!(owner_transfer_limit(None), 50);
    assert_eq!(owner_transfer_limit(Some(900)), 500);
}

#[test]
fn profit_summary_period_and_arithmetic() {
    let (from, to) = profit_period(&None, &None).unwrap();
    assert_eq!((from.as_str(), to.as_str()), ("0001-01-01", "9999-12-31"));
    assert!(profit_period(&Some("2026-05-01".into()), &Some("2026-04-01".into())).is_err());
    let t = profit_totals(ProfitFigures {
        revenue: 10_000,
        cogs: 6_000,
        delivery_income: 500,
        expenses: 1_000,
        damage_loss: 200,
        owner_capital_in: 0,
        owner_withdrawals: 0,
        cash_inflow: 9_000,
        cash_outflow: 4_000,
    });
    assert_eq!(t.gross_profit, 4_000);
    assert_eq!(t.operational_profit, 2_800);
    assert_eq!(t.net_cash_flow, 5_000);
}
