use furniture_shop::error::AppError;
use furniture_shop::expenses::expense_cash_delta;
use furniture_shop::fulfilment::{plan_sales_return, replay_return, return_money, SaleFigures, SaleItemFigures};
use furniture_shop::inventory::allow_negative_stock;
use furniture_shop::setup::should_seed_administrator;
use furniture_shop::products::{check_image_serve, image_data_url, MAX_SERVED_IMAGE_BYTES};

fn message(e: AppError) -> String {
    match e {
        AppError::Validation(m) | AppError::Conflict(m) | AppError::NotFound(m) => m,
        other => panic!("unexpected error {other:?}"),
    }
}

fn sale(has_customer: bool) -> SaleFigures {
    SaleFigures { subtotal: 1000, discount: 100, total: 900, paid: 900, advance_used: 0, due: 0, has_customer }
}

#[test]
fn a_sales_return_is_priced_then_settled() {
    let meta = vec![SaleItemFigures { id: 10, quantity: 4, line_total: 1000 }];
    let p = plan_sales_return(8, sale(true), "S-1", "credit", &vec![(10, 2)], &meta, &vec![0]).unwrap();
    assert_eq!(p.lines.total, 450);
    assert_eq!((p.refund.refundable, p.refund.cash_refund, p.refund.credit_note, p.refund.new_due), (450, 0, 450, 0));
    let e = plan_sales_return(8, sale(false), "S-1", "credit", &vec![(10, 2)], &meta, &vec![0]).unwrap_err();
    assert_eq!(
        message(e),
        "cannot refund walk-in sale S-1 as credit — credit notes require a customer; refund to cash instead"
    );
    let e = plan_sales_return(8, sale(false), "S-1", "cash", &vec![(10, 5)], &meta, &vec![0]).unwrap_err();
    assert_eq!(message(e), "sale item 10: only 4 of 4 remain returnable");
    let cash = plan_sales_return(8, sale(false), "S-1", "cash", &vec![(10, 2)], &meta, &vec![0]).unwrap();
    assert_eq!(cash.refund.cash_refund, 450);
}

#[test]
fn a_return_and_its_void_balance_out() {
    let (ledger, till) = return_money(450, 450, false);
    assert_eq!((ledger.clone(), till), (vec![-450, 450], -450));
    let (void_ledger, void_till) = return_money(450, 450, true);
    assert_eq!((void_ledger.clone(), void_till), (vec![-450, 450], 450));
    let balance = 2000i64;
    let after: i64 = balance + ledger.iter().sum::<i64>() + void_ledger.iter().sum::<i64>();
    assert_eq!(after, balance);
    assert_eq!(1000 + till + void_till, 1000);
    assert_eq!(return_money(300, 0, false), (vec![-300], 0));
    assert_eq!(return_money(300, 0, true), (vec![300], 0));
}

#[test]
fn an_expense_and_its_reversal_cancel() {
    assert_eq!(expense_cash_delta(700, false), -700);
    assert_eq!(expense_cash_delta(700, true), 700);
    assert_eq!(5000 + expense_cash_delta(700, false) + expense_cash_delta(700, true), 5000);
}

#[test]
fn images_are_served_only_from_the_images_folder() {
    assert!(check_image_serve("/data/images/a.png", "/data/images", true, 10).is_ok());
    assert_eq!(
        message(check_image_serve("/data/other/a.png", "/data/images", true, 10).unwrap_err()),
        "path escapes the approved images directory"
    );
    assert_eq!(
        message(check_image_serve("/data/images-old/a.png", "/data/images", true, 10).unwrap_err()),
        "path escapes the approved images directory"
    );
    assert!(check_image_serve("/data/images/sub", "/data/images", false, 0).is_err());
    assert_eq!(
        message(check_image_serve("/data/images/a.png", "/data/images", true, MAX_SERVED_IMAGE_BYTES + 1).unwrap_err()),
        "image file too large to serve"
    );
    assert_eq!(image_data_url("image/png", "iVBO"), "data:image/png;base64,iVBO");
}

#[test]
fn a_reused_return_key_replays_or_conflicts() {
    let key = Some("k-9".to_string());
    assert_eq!(replay_return(&key, Some((40, 8)), 8).unwrap(), Some(40));
    assert_eq!(replay_return(&key, None, 8).unwrap(), None);
    assert_eq!(replay_return(&Some("  ".to_string()), Some((40, 9)), 8).unwrap(), None);
    assert_eq!(replay_return(&None, Some((40, 9)), 8).unwrap(), None);
    let e = replay_return(&key, Some((40, 9)), 8).unwrap_err();
    assert!(matches!(e, AppError::Conflict(_)));
    assert_eq!(message(e), "idempotency key 'k-9' was already used for a different sale");
}

#[test]
fn the_negative_stock_setting_is_read_leniently() {
    assert!(!allow_negative_stock(None));
    assert!(allow_negative_stock(Some("true".to_string())));
    assert!(!allow_negative_stock(Some("false".to_string())));
    assert!(allow_negative_stock(Some("\"YES\"".to_string())));
    assert!(allow_negative_stock(Some("\"1\"".to_string())));
    assert!(!allow_negative_stock(Some("\"block\"".to_string())));
    assert!(!allow_negative_stock(Some("1".to_string())));
    assert!(!allow_negative_stock(Some("not json".to_string())));
}

#[test]
fn the_administrator_is_seeded_once() {
    assert!(should_seed_administrator(0, 0));
    assert!(!should_seed_administrator(1, 1));
    assert!(!should_seed_administrator(0, 1));
}
