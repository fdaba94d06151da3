use furniture_shop::error::AppError;
use furniture_shop::purchases::{
    age_in_days, allocate_supplier_payment, bucket_for, check_payment_voidable,
    check_purchase_draft, check_purchase_is_draft, check_purchase_payment, check_return_draft,
    check_return_reference, check_returnable_quantity, check_payable_after_return, date_part,
    duplicate_invoice, plan_purchase_post, plan_return_settlement, purchase_total, return_total,
    saturating_add, saturating_mul, PurchaseLine,
};

fn line(quantity: i64, unit_cost_minor: i64) -> PurchaseLine {
    PurchaseLine { product_id: 1, quantity, unit_cost_minor }
}

fn message(e: AppError) -> String {
    match e {
        AppError::Validation(m) | AppError::Conflict(m) | AppError::NotFound(m) => m,
        _ => panic!("unexpected error kind"),
    }
}

#[test]
fn purchase_totals_add_line_totals_and_refuse_overflow() {
    assert_eq!(purchase_total(&vec![line(2, 500), line(3, 100)]).unwrap(), 1300);
    assert_eq!(
        message(purchase_total(&vec![line(1, i64::MAX), line(1, 1)]).unwrap_err()),
        "purchase total overflow"
    );
    assert_eq!(purchase_total(&vec![line(i64::MAX, 2)]).unwrap(), i64::MAX);
    assert_eq!(return_total(&vec![line(i64::MAX, 2), line(1, 1)]), i64::MAX);
    assert_eq!(saturating_mul(i64::MIN, 2), i64::MIN);
    assert_eq!(saturating_add(i64::MAX, 1), i64::MAX);
}

#[test]
fn draft_purchase_checks() {
    assert_eq!(check_purchase_draft(" INV-9 ", &vec![line(1, 0)]).unwrap(), "INV-9");
    assert_eq!(
        message(check_purchase_draft("  ", &vec![line(1, 0)]).unwrap_err()),
        "supplier invoice number is required"
    );
    assert_eq!(
        message(check_purchase_draft("I", &vec![]).unwrap_err()),
        "purchase must have at least one item"
    );
    assert_eq!(
        message(check_purchase_draft("I", &vec![line(1, -1), line(0, 5)]).unwrap_err()),
        "unit cost cannot be negative"
    );
    assert_eq!(
        message(check_purchase_draft("I", &vec![line(0, -1)]).unwrap_err()),
        "purchase quantity must be positive"
    );
    assert_eq!(
        message(duplicate_invoice("INV-9")),
        "supplier invoice 'INV-9' is already recorded"
    );
}

#[test]
fn posting_a_purchase() {
    assert_eq!(check_purchase_payment(None, None, None).unwrap(), 0);
    assert_eq!(
        message(check_purchase_payment(Some(-1), Some(1), Some(1)).unwrap_err()),
        "paid amount cannot be negative"
    );
    assert_eq!(
        message(check_purchase_payment(Some(10), None, Some(1)).unwrap_err()),
        "cash account and payment method are required for a paid purchase"
    );
    assert_eq!(plan_purchase_post(&vec![line(2, 500)], 300).unwrap(), (1000, 700));
    assert_eq!(
        message(plan_purchase_post(&vec![line(2, 500)], 1001).unwrap_err()),
        "paid amount cannot exceed the purchase total"
    );
    assert_eq!(
        message(plan_purchase_post(&vec![], 0).unwrap_err()),
        "purchase has no items to post"
    );
    assert_eq!(message(check_purchase_is_draft(4, "posted").unwrap_err()), "purchase 4 is not a draft");
    assert!(check_purchase_is_draft(4, "draft").is_ok());
}

#[test]
fn payable_aging_buckets() {
    assert_eq!(age_in_days("2026-01-01", "2026-03-02"), 60);
    assert_eq!(age_in_days("bad", "2026-03-02"), 0);
    assert_eq!(bucket_for(0), "0-30");
    assert_eq!(bucket_for(30), "0-30");
    assert_eq!(bucket_for(31), "31-60");
    assert_eq!(bucket_for(90), "61-90");
    assert_eq!(bucket_for(91), "90+");
    assert_eq!(date_part("2026-03-02T10:00:00Z"), "2026-03-02");
    assert_eq!(date_part("2026-03-02"), "2026-03-02");
}

#[test]
fn supplier_payments_are_spread_oldest_first() {
    assert_eq!(allocate_supplier_payment(7, 150, &vec![100, 100]).unwrap(), vec![100, 50]);
    assert_eq!(allocate_supplier_payment(7, 100, &vec![100, 100]).unwrap(), vec![100]);
    let spread = allocate_supplier_payment(7, 260, &vec![100, 100, 100]).unwrap();
    assert_eq!(spread, vec![100, 100, 60]);
    assert_eq!(spread.iter().sum::<i64>(), 260);
    assert_eq!(
        message(allocate_supplier_payment(7, 250, &vec![100, 100]).unwrap_err()),
        "payment exceeds open payables for supplier 7 by 50"
    );
    assert_eq!(
        message(check_payment_voidable(3, Some("voided".into())).unwrap_err()),
        "payment 3 is already voided"
    );
    assert_eq!(message(check_payment_voidable(3, None).unwrap_err()), "supplier payment 3");
    assert!(check_payment_voidable(3, Some("posted".into())).is_ok());
}

#[test]
fn supplier_return_rules() {
    assert_eq!(check_return_draft(&vec![line(1, 0)], None).unwrap(), 0);
    assert_eq!(
        message(check_return_draft(&vec![line(1, 0), line(0, 0)], Some(5)).unwrap_err()),
        "return quantity must be positive"
    );
    assert_eq!(
        message(check_return_draft(&vec![line(1, 0)], Some(-5)).unwrap_err()),
        "refund cannot be negative"
    );
    assert_eq!(
        message(check_return_reference(9, Some(("draft".into(), 1)), 1).unwrap_err()),
        "return can only reference a posted purchase (purchase 9 is draft)"
    );
    assert_eq!(
        message(check_return_reference(9, Some(("posted".into(), 2)), 1).unwrap_err()),
        "purchase 9 belongs to a different supplier"
    );
    assert!(check_return_reference(9, Some(("posted".into(), 1)), 1).is_ok());
    assert_eq!(
        message(check_returnable_quantity(4, 5, 3).unwrap_err()),
        "cannot return 5 of product 4: only 3 net received"
    );
    assert_eq!(plan_return_settlement(1000, 300).unwrap(), 700);
    assert_eq!(
        message(plan_return_settlement(100, 300).unwrap_err()),
        "refund 300 exceeds return total 100"
    );
    assert_eq!(
        message(check_payable_after_return(-20).unwrap_err()),
        "return exceeds the supplier payable balance (would reduce to -20)"
    );
}
