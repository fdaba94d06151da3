use furniture_shop::error::AppError;
use furniture_shop::fulfilment::{
    check_damage_decision, check_damage_on_hand, check_damage_record, check_damage_resolution,
    check_delivery_lines, check_return_request, check_return_voidable, check_sale_deliverable,
    check_sale_returnable, line_refund_alloc, plan_refund, plan_return_lines, restore_steps,
    restore_targets, restored_due, transition_delivery, void_postings, void_stock, RestoreStep,
    VoidStock, DeliveryLine, DeliveryStatus, ReturnRequestLine, SaleFigures,
    SaleItemFigures, SaleLineQty,
};

fn message(e: AppError) -> String {
    match e {
        AppError::Validation(m)
        | AppError::NotFound(m)
        | AppError::Conflict(m)
        | AppError::InsufficientStock(m) => m,
        other => panic!("unexpected error {other:?}"),
    }
}

fn line(qty: i64, class: &str) -> ReturnRequestLine {
    ReturnRequestLine { sale_item_id: 1, quantity: qty, classification: class.to_string() }
}

fn sale(has_customer: bool) -> SaleFigures {
    SaleFigures {
        subtotal: 1000,
        discount: 0,
        total: 1000,
        paid: 1000,
        advance_used: 0,
        due: 0,
        has_customer,
    }
}

#[test]
fn delivery_transitions_follow_the_lifecycle() {
    assert_eq!(transition_delivery(9, "ready", "dispatched", &None).unwrap(), DeliveryStatus::Dispatched);
    assert_eq!(
        transition_delivery(9, "failed", "reschedule", &Some("2025-02-01".to_string())).unwrap(),
        DeliveryStatus::Pending
    );
    let e = transition_delivery(9, "failed", "reschedule", &Some("  ".to_string())).unwrap_err();
    assert_eq!(message(e), "reschedule requires a scheduled_at date");
    let e = transition_delivery(9, "delivered", "cancelled", &None).unwrap_err();
    assert!(matches!(e, AppError::Conflict(_)));
    assert_eq!(message(e), "delivery 9 cannot transition from 'delivered' via 'cancelled'");
}

#[test]
fn deliveries_need_a_confirmed_sale_and_room_on_each_line() {
    assert!(check_sale_deliverable(5, "confirmed").is_ok());
    assert_eq!(
        message(check_sale_deliverable(5, "draft").unwrap_err()),
        "deliveries require a confirmed sale (sale 5 is 'draft')"
    );
    let lines = vec![SaleLineQty { id: 10, quantity: 3 }];
    let ok = vec![DeliveryLine { sale_item_id: 10, quantity: 2 }];
    assert!(check_delivery_lines(5, &ok, &lines, &vec![1]).is_ok());
    assert_eq!(
        message(check_delivery_lines(5, &ok, &lines, &vec![2]).unwrap_err()),
        "sale item 10: delivery of 2 exceeds remaining 1"
    );
    let stray = vec![DeliveryLine { sale_item_id: 11, quantity: 1 }];
    assert_eq!(
        message(check_delivery_lines(5, &stray, &lines, &vec![0]).unwrap_err()),
        "sale item 11 is not on sale 5"
    );
}

#[test]
fn return_requests_are_checked_in_order() {
    assert_eq!(message(check_return_request(&vec![], "cash", "2025-01-01").unwrap_err()), "return has no items");
    assert_eq!(
        message(check_return_request(&vec![line(1, "sellable")], "voucher", "2025-01-01").unwrap_err()),
        "refund_type must be credit, cash, or exchange"
    );
    assert_eq!(
        message(check_return_request(&vec![line(1, "sellable")], "cash", " ").unwrap_err()),
        "return date is required"
    );
    assert_eq!(
        message(check_return_request(&vec![line(0, "sellable")], "cash", "2025-01-01").unwrap_err()),
        "return item quantities must be positive"
    );
    assert_eq!(
        message(check_return_request(&vec![line(1, "sellable"), line(1, "lost")], "cash", "2025-01-01").unwrap_err()),
        "unsupported classification 'lost'"
    );
    assert_eq!(check_return_request(&vec![line(2, "damaged")], "cash", "2025-01-01").unwrap(), true);
    assert_eq!(check_return_request(&vec![line(2, "repair")], "credit", "2025-01-01").unwrap(), false);
}

#[test]
fn returns_need_a_confirmed_sale() {
    assert!(check_sale_returnable(3, "confirmed").is_ok());
    let e = check_sale_returnable(3, "voided").unwrap_err();
    assert!(matches!(e, AppError::Conflict(_)));
    assert_eq!(message(e), "sale 3 cannot be returned in status 'voided'");
}

#[test]
fn returned_lines_are_priced_from_the_discounted_sale() {
    let figures = SaleFigures { subtotal: 1000, discount: 100, total: 900, paid: 900, advance_used: 0, due: 0, has_customer: true };
    let meta = vec![SaleItemFigures { id: 10, quantity: 4, line_total: 1000 }];
    let plan = plan_return_lines(8, figures, &vec![(10, 2)], &meta, &vec![0]).unwrap();
    assert_eq!(plan.lines, vec![(225, 450)]);
    assert_eq!(plan.total, 450);
    assert_eq!(line_refund_alloc(1000, 1000, 100, 4, 2), 450);
    assert_eq!(
        message(plan_return_lines(8, figures, &vec![(10, 2)], &meta, &vec![3]).unwrap_err()),
        "sale item 10: only 1 of 4 remain returnable"
    );
    assert_eq!(
        message(plan_return_lines(8, figures, &vec![(12, 1)], &meta, &vec![0]).unwrap_err()),
        "sale item 12 is not on sale 8"
    );
}

#[test]
fn refunds_settle_in_cash_or_credit() {
    let cash = plan_refund(sale(false), "S-0001", "cash", 400).unwrap();
    assert_eq!((cash.refundable, cash.cash_refund, cash.credit_note, cash.new_due), (400, 400, 0, 0));
    let credit = plan_refund(sale(true), "S-0001", "credit", 400).unwrap();
    assert_eq!((credit.refundable, credit.cash_refund, credit.credit_note), (400, 0, 400));
    let e = plan_refund(sale(false), "S-0001", "credit", 400).unwrap_err();
    assert_eq!(
        message(e),
        "cannot refund walk-in sale S-0001 as credit — credit notes require a customer; refund to cash instead"
    );
    let owing = SaleFigures { paid: 200, due: 800, ..sale(false) };
    let p = plan_refund(owing, "S-0002", "exchange", 300).unwrap();
    assert_eq!((p.refundable, p.new_due), (0, 500));
    assert_eq!(restored_due(1000, 200, 0, 500, 300), 800);
}

#[test]
fn voiding_a_return_needs_an_open_credit_note() {
    assert!(check_return_voidable(6, "posted", 0, None).is_ok());
    assert!(check_return_voidable(6, "posted", 50, Some("open".to_string())).is_ok());
    assert_eq!(
        message(check_return_voidable(6, "voided", 0, None).unwrap_err()),
        "sales return 6 cannot be voided in status 'voided'"
    );
    assert_eq!(
        message(check_return_voidable(6, "posted", 50, Some("applied".to_string())).unwrap_err()),
        "sales return 6 has a credit note that is already 'applied'"
    );
}

#[test]
fn damage_records_and_decisions_are_checked() {
    assert!(check_damage_record(2, "in_hand", None, "2025-01-01").is_ok());
    assert_eq!(message(check_damage_record(0, "in_hand", None, "2025-01-01").unwrap_err()), "damage quantity must be positive");
    assert_eq!(message(check_damage_record(1, "fire", None, "2025-01-01").unwrap_err()), "unsupported damage source 'fire'");
    assert_eq!(message(check_damage_record(1, "count", Some(-1), "2025-01-01").unwrap_err()), "estimated loss cannot be negative");
    assert_eq!(message(check_damage_record(1, "other", Some(5), "").unwrap_err()), "damage date is required");
    assert_eq!(message(check_damage_on_hand(5, 3).unwrap_err()), "cannot record damage of 5: only 3 on hand");
    assert!(check_damage_on_hand(3, 3).is_ok());
    assert_eq!(message(check_damage_decision("burn", None).unwrap_err()), "unsupported damage decision 'burn'");
    assert_eq!(message(check_damage_decision("damaged_sale", None).unwrap_err()), "damaged_sale requires a linked sale");
}

#[test]
fn damage_resolution_checks_record_sale_and_stock() {
    assert!(check_damage_resolution(2, "open", None, 3, 3).is_ok());
    let e = check_damage_resolution(2, "resolved", None, 3, 3).unwrap_err();
    assert!(matches!(e, AppError::Conflict(_)));
    assert_eq!(message(e), "damage record 2 is already resolved");
    let e = check_damage_resolution(2, "open", Some((40, None)), 3, 3).unwrap_err();
    assert!(matches!(e, AppError::NotFound(_)));
    assert_eq!(message(e), "sale 40");
    let e = check_damage_resolution(2, "open", Some((40, Some("draft".to_string()))), 3, 3).unwrap_err();
    assert_eq!(message(e), "linked sale 40 is not confirmed");
    assert!(check_damage_resolution(2, "open", Some((40, Some("confirmed".to_string()))), 3, 3).is_ok());
    let e = check_damage_resolution(2, "open", None, 4, 3).unwrap_err();
    assert!(matches!(e, AppError::InsufficientStock(_)));
    assert_eq!(message(e), "cannot resolve damage of 4: only 3 damaged on hand");
}

#[test]
fn returned_units_go_back_to_stock_by_classification() {
    assert_eq!(
        restore_steps("sellable", 2, 300).unwrap(),
        vec![
            RestoreStep::ReturnMovement { quantity: 2, unit_cost: 300 },
            RestoreStep::OnHandDelta { delta: 2 },
            RestoreStep::CostLayer { quantity: 2, unit_cost: 300 },
        ]
    );
    assert_eq!(restore_steps("sellable", 2, 0).unwrap().len(), 2);
    assert_eq!(
        restore_steps("repair", 1, 300).unwrap(),
        vec![
            RestoreStep::ReturnMovement { quantity: 1, unit_cost: 0 },
            RestoreStep::OnHandDelta { delta: 1 },
            RestoreStep::DamageShift { quantity: 1 },
        ]
    );
    assert_eq!(
        restore_steps("disposed", 3, 300).unwrap()[3..].to_vec(),
        vec![RestoreStep::WriteOffMovement { quantity: -3 }, RestoreStep::DamagedDelta { delta: 3 }]
    );
    assert_eq!(
        message(restore_steps("lost", 1, 0).unwrap_err()),
        "unsupported return classification 'lost'"
    );
}

#[test]
fn bundle_lines_return_their_components() {
    assert_eq!(restore_targets(Some(5), false, 120, &vec![], 2), vec![(5, 2, 120)]);
    assert_eq!(
        restore_targets(None, true, 0, &vec![(7, 2, 50), (8, 1, 90)], 3),
        vec![(7, 6, 50), (8, 3, 90)]
    );
    assert_eq!(restore_targets(None, false, 0, &vec![(7, 2, 50)], 3), vec![]);
}

#[test]
fn voiding_a_return_takes_the_units_back_out() {
    let v = void_stock("sellable", 2, 300).unwrap();
    assert_eq!(v, VoidStock::Withdraw { quantity: 2, fallback_cost: 300 });
    assert_eq!(void_postings(v, Some(280)), (-2, 280, -2, 0));
    assert_eq!(void_postings(v, None), (-2, 300, -2, 0));
    assert_eq!(void_postings(void_stock("damaged", 2, 0).unwrap(), None), (-2, 0, 0, 2));
    assert_eq!(void_postings(void_stock("disposed", 2, 0).unwrap(), None), (2, 0, 0, -2));
    match void_stock("lost", 1, 0) {
        Err(AppError::Internal(m)) => assert_eq!(m, "unsupported classification 'lost' on return"),
        other => panic!("unexpected {other:?}"),
    }
}
