use furniture_shop::error::AppError;
use furniture_shop::ledger::{
    check_cash_account_input, check_customer_input, check_explicit_allocations,
    check_receipt_voidable, receipt_postings, AllocationRequest, SaleDue,
};

fn message(e: AppError) -> String {
    match e {
        AppError::Validation(m) | AppError::NotFound(m) | AppError::Conflict(m) => m,
        other => panic!("unexpected error {other:?}"),
    }
}

fn request(sale_id: i64, amount_minor: i64) -> AllocationRequest {
    AllocationRequest { sale_id, amount_minor }
}

fn owed(customer_id: i64, due_minor: i64) -> Option<SaleDue> {
    Some(SaleDue { customer_id, confirmed: true, due_minor })
}

#[test]
fn explicit_allocations_leave_the_rest_as_advance() {
    let r = check_explicit_allocations(1000, 7, &vec![request(1, 300), request(2, 0)], &vec![owed(7, 500), None]);
    assert_eq!(r.unwrap(), 700);
}

#[test]
fn a_negative_allocation_makes_no_room_for_others() {
    let r = check_explicit_allocations(200, 7, &vec![request(1, 500), request(2, -400)], &vec![owed(7, 900), owed(7, 900)]);
    assert_eq!(message(r.unwrap_err()), "allocations 500 exceed payment amount 200");
    let ok = check_explicit_allocations(600, 7, &vec![request(1, 500), request(2, -400)], &vec![owed(7, 900), owed(7, 900)]);
    assert_eq!(ok.unwrap(), 100);
}

#[test]
fn explicit_allocations_are_refused_with_the_first_fault() {
    let e = check_explicit_allocations(100, 7, &vec![request(1, 80), request(2, 40)], &vec![owed(7, 500), owed(7, 500)]);
    assert_eq!(message(e.unwrap_err()), "allocations 120 exceed payment amount 100");
    let e = check_explicit_allocations(500, 7, &vec![request(1, 100), request(1, 100)], &vec![owed(7, 500), owed(7, 500)]);
    assert_eq!(message(e.unwrap_err()), "duplicate allocation for sale 1");
    let e = check_explicit_allocations(500, 7, &vec![request(3, 100)], &vec![None]);
    assert!(matches!(e, Err(AppError::NotFound(_))));
    assert_eq!(message(e.unwrap_err()), "sale 3");
    let e = check_explicit_allocations(500, 7, &vec![request(3, 100)], &vec![owed(8, 500)]);
    assert_eq!(message(e.unwrap_err()), "sale 3 does not belong to this customer");
    let draft = Some(SaleDue { customer_id: 7, confirmed: false, due_minor: 500 });
    let e = check_explicit_allocations(500, 7, &vec![request(3, 100)], &vec![draft]);
    assert!(matches!(e, Err(AppError::Conflict(_))));
    assert_eq!(message(e.unwrap_err()), "sale 3 is not a confirmed invoice");
    let e = check_explicit_allocations(500, 7, &vec![request(3, 300)], &vec![owed(7, 200)]);
    assert_eq!(message(e.unwrap_err()), "allocation 300 exceeds the due amount 200 on sale 3");
}

#[test]
fn customer_and_cash_account_inputs_are_checked_in_order() {
    let t = check_customer_input(" c-01 ", " Ali ", None, Some(5000), None).unwrap();
    assert_eq!((t.code.as_str(), t.name.as_str()), ("C-01", "Ali"));
    assert_eq!((t.opening_balance_minor, t.credit_limit_minor, t.credit_days), (0, 5000, 30));
    assert_eq!(message(check_customer_input(" ", "Ali", None, None, None).unwrap_err()), "customer code is required");
    assert_eq!(message(check_customer_input("C", " ", None, None, None).unwrap_err()), "customer name is required");
    assert_eq!(message(check_customer_input("C", "A", Some(-1), None, None).unwrap_err()), "opening balance cannot be negative");
    assert_eq!(message(check_customer_input("C", "A", None, Some(-1), None).unwrap_err()), "credit limit cannot be negative");
    assert_eq!(message(check_customer_input("C", "A", None, None, Some(-1)).unwrap_err()), "credit terms cannot be negative");

    let a = check_cash_account_input("till", "Front till", None, None).unwrap();
    assert_eq!((a.code.as_str(), a.kind.as_str(), a.opening_balance_minor), ("TILL", "cash", 0));
    assert_eq!(message(check_cash_account_input("", "x", None, None).unwrap_err()), "cash account code is required");
    assert_eq!(message(check_cash_account_input("B", "", None, None).unwrap_err()), "cash account name is required");
    assert_eq!(
        message(check_cash_account_input("B", "Bank", Some("card".to_string()), None).unwrap_err()),
        "kind must be cash or bank"
    );
    assert_eq!(
        message(check_cash_account_input("B", "Bank", Some("bank".to_string()), Some(-5)).unwrap_err()),
        "opening balance cannot be negative"
    );
}

#[test]
fn a_voided_receipt_balances_out() {
    assert!(check_receipt_voidable(4, Some("posted".to_string())).is_ok());
    assert_eq!(message(check_receipt_voidable(4, None).unwrap_err()), "customer payment 4");
    let e = check_receipt_voidable(4, Some("voided".to_string())).unwrap_err();
    assert!(matches!(e, AppError::Conflict(_)));
    assert_eq!(message(e), "receipt 4 is already voided");
    let (cash_in, ledger_in) = receipt_postings(2500, false);
    let (cash_out, ledger_out) = receipt_postings(2500, true);
    assert_eq!((cash_in, ledger_in), (2500, -2500));
    assert_eq!((1000 + cash_in + cash_out, 4000 + ledger_in + ledger_out), (1000, 4000));
}
