use furniture_shop::error::AppError;
use furniture_shop::receivables::{
    check_statement_range, credit_limit_exceptions, receipt_preview_plan, statement_closing,
    ExposureFigures,
};

fn validation_message(r: Result<impl std::fmt::Debug, AppError>) -> String {
    match r {
        Err(AppError::Validation(m)) => m,
        other => panic!("expected a validation error, got {other:?}"),
    }
}

#[test]
fn statement_range_is_trimmed_and_ordered() {
    assert_eq!(
        check_statement_range(" 2025-01-01 ", "2025-01-31").unwrap(),
        ("2025-01-01".to_string(), "2025-01-31".to_string())
    );
    assert!(check_statement_range("2025-01-05", "2025-01-05").is_ok());
    assert_eq!(validation_message(check_statement_range("", "2025-01-31")), "statement date range is required");
    assert_eq!(validation_message(check_statement_range("2025-01-01", "   ")), "statement date range is required");
    assert_eq!(
        validation_message(check_statement_range("2025-02-01", "2025-01-31")),
        "statement from-date cannot be after to-date"
    );
}

#[test]
fn statement_closes_on_the_last_running_balance() {
    assert_eq!(statement_closing(&vec![], 1200), 1200);
    // opening 1000, then +500 (sale), -300 (receipt): balances 1500, 1200
    let closing = statement_closing(&vec![1500, 1200], 1000);
    assert_eq!(closing, 1000 + 500 - 300);
}

#[test]
fn receipt_preview_spreads_oldest_first() {
    let plan = receipt_preview_plan(700, &vec![300, 500, 200]).unwrap();
    assert_eq!(plan.allocations, vec![300, 400]);
    assert_eq!(plan.remaining, 0);
    let advance = receipt_preview_plan(1200, &vec![300, 500]).unwrap();
    assert_eq!(advance.allocations, vec![300, 500]);
    assert_eq!(advance.remaining, 400);
    assert_eq!(validation_message(receipt_preview_plan(0, &vec![300])), "preview amount must be positive");
}

#[test]
fn credit_limit_exceptions_list_the_furthest_over_first() {
    let rows = vec![
        ExposureFigures { balance_minor: 900, credit_limit_minor: 1000 }, // under the limit
        ExposureFigures { balance_minor: 1500, credit_limit_minor: 1000 }, // 500 over
        ExposureFigures { balance_minor: 3000, credit_limit_minor: 1000 }, // 2000 over
        ExposureFigures { balance_minor: 700, credit_limit_minor: 200 },   // 500 over
        ExposureFigures { balance_minor: 50, credit_limit_minor: 0 },      // 50 over
    ];
    assert_eq!(credit_limit_exceptions(&rows), vec![2, 1, 3, 4]);
    assert_eq!(credit_limit_exceptions(&vec![]), Vec::<usize>::new());
}
