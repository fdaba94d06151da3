use furniture_shop::audit::{page_limit, AuditFilter};
use furniture_shop::auth::{
    gate_session, login_decision, normalize_username, profile_dto, rate_limit_seconds, Principal,
    SessionState,
};
use furniture_shop::backup::{
    check_automatic_backup, check_backup_name_given, check_listed_backup_name, check_restorable,
    current_schema_version, history_size, integrity_outcome, last_backup_name, list_item,
    machine_settings, pending_migrations, preferred_directory, restore_source, settings_bool,
    PackageInspection,
};
use furniture_shop::catalogue::{
    check_archivable, plan_category_update, product_type_conflict, sibling_conflict,
    validate_name, CategoryRecord,
};
use furniture_shop::dashboard::{
    allowed, dashboard_access, dashboard_summary, shop_dates, DashboardDelivery, DashboardFigures,
    DashboardTransaction, ShopClock, TransactionKind, EARLIEST_SHOP_SECS, LATEST_SHOP_SECS,
};
use furniture_shop::documents::{next_document_number, replay_outcome};
use furniture_shop::error::AppError;
use furniture_shop::fulfilment::{
    check_damage_decision, check_delivery_request, transition_delivery, DamageDecision,
    DeliveryLine, DeliveryStatus,
};
use furniture_shop::inventory::{move_number, withdraw_fifo, CostLayer};
use furniture_shop::ledger::{allocate_oldest_first, check_cash_balance, payment_method_dto};
use furniture_shop::licensing::{initialize, LicenseRuntime};
use furniture_shop::sales::{check_sale_editable, missing_reference, sale_totals, SaleLine};

fn principal(permissions: &[&str]) -> Principal {
    Principal {
        session_id: "s-1".into(),
        user_id: 7,
        username: "owner".into(),
        full_name: "Owner".into(),
        roles: vec!["owner".into()],
        permissions: permissions.iter().map(|p| p.to_string()).collect(),
    }
}

fn message(e: AppError) -> String {
    match e {
        AppError::Validation(m)
        | AppError::Conflict(m)
        | AppError::NotFound(m)
        | AppError::Integrity(m)
        | AppError::Internal(m)
        | AppError::Unauthorized(m) => m,
        _ => panic!("unexpected error kind"),
    }
}

#[test]
fn principal_permissions_and_profile() {
    let p = principal(&["sale.create"]);
    assert!(p.require("sale.create").is_ok());
    assert!(matches!(p.require("backup.restore"), Err(AppError::Unauthorized(_))));
    assert!(p.is_owner());
    let profile = profile_dto(&p);
    assert_eq!(profile.username, "owner");
    assert_eq!(profile.permissions, vec!["sale.create".to_string()]);
    assert_eq!(profile.locked_at, None);
    assert_eq!(normalize_username("  Owner "), "owner");
}

#[test]
fn sessions_and_logins() {
    assert_eq!(gate_session(Some(SessionState { user_id: 3, active: true, locked: false })).unwrap(), 3);
    assert!(gate_session(None).is_err());
    assert!(gate_session(Some(SessionState { user_id: 3, active: true, locked: true })).is_err());
    assert_eq!(login_decision(Some((5, 1)), true).unwrap(), 5);
    assert!(matches!(login_decision(Some((5, 0)), true), Err(AppError::InvalidCredentials)));
    assert!(matches!(login_decision(None, true), Err(AppError::InvalidCredentials)));
    assert_eq!(rate_limit_seconds(10), 10);
    assert_eq!(rate_limit_seconds(100_000), 3600);
}

#[test]
fn audit_page_limit_is_clamped() {
    let mut f = AuditFilter {
        action: None,
        entity_type: None,
        entity_id: None,
        user_id: None,
        from: None,
        to: None,
        limit: 0,
        offset: 0,
    };
    assert_eq!(page_limit(&f), 1);
    f.limit = 9_000;
    assert_eq!(page_limit(&f), 500);
    f.limit = 50;
    assert_eq!(page_limit(&f), 50);
}

#[test]
fn document_numbers_and_replays() {
    assert_eq!(
        next_document_number("sale", Some((42, "INV/".into(), "".into()))).unwrap(),
        ("INV/000042".to_string(), 43)
    );
    assert!(matches!(next_document_number("sale", None), Err(AppError::Internal(_))));
    match next_document_number("quote", None) {
        Err(AppError::Internal(m)) => assert_eq!(m, "no document sequence configured for 'quote'"),
        other => panic!("unexpected {other:?}"),
    }
    assert_eq!(replay_outcome("sales", "k-1", Some(4), 4).unwrap(), true);
    assert_eq!(replay_outcome("sales", "k-1", None, 4).unwrap(), false);
    match replay_outcome("sales", "k-1", Some(5), 4) {
        Err(AppError::Conflict(m)) => assert_eq!(m, "idempotency key 'k-1' was already used for a different sales"),
        other => panic!("unexpected {other:?}"),
    }
    assert_eq!(move_number("PUR", 7), "PUR-000007");
}

#[test]
fn fifo_withdrawal_takes_oldest_layers_first() {
    let layers = vec![
        CostLayer { id: 1, quantity: 2, unit_cost_minor: 100 },
        CostLayer { id: 2, quantity: 3, unit_cost_minor: 200 },
    ];
    let w = withdraw_fifo(&layers, 4);
    assert_eq!(w.takes, vec![2, 2]);
    assert_eq!(w.average_cost, Some(150));
    assert_eq!(withdraw_fifo(&layers, 0).average_cost, None);
    // A layer with a negative cost (a correction) counts like any other;
    // the average rounds toward zero.
    let credited = vec![
        CostLayer { id: 1, quantity: 2, unit_cost_minor: -100 },
        CostLayer { id: 2, quantity: 1, unit_cost_minor: 50 },
    ];
    assert_eq!(withdraw_fifo(&credited, 3).average_cost, Some(-50));
}

#[test]
fn deliveries_and_damage_decisions() {
    assert_eq!(transition_delivery(4, "pending", "ready", &None).unwrap(), DeliveryStatus::Ready);
    assert!(matches!(transition_delivery(4, "delivered", "cancelled", &None), Err(AppError::Conflict(_))));
    assert!(check_delivery_request(&vec![DeliveryLine { sale_item_id: 1, quantity: 1 }], None).is_ok());
    assert!(check_delivery_request(&vec![], None).is_err());
    assert_eq!(check_damage_decision("repair", None).unwrap(), DamageDecision::Repair);
    assert!(check_damage_decision("damaged_sale", None).is_err());
    assert_eq!(check_damage_decision("damaged_sale", Some(3)).unwrap(), DamageDecision::DamagedSale);
    assert!(check_damage_decision("burn", None).is_err());
}

#[test]
fn receipts_are_spread_oldest_first_and_cash_is_guarded() {
    let plan = allocate_oldest_first(250, &vec![100, 200, 50]);
    assert_eq!(plan.allocations, vec![100, 150]);
    assert_eq!(plan.remaining, 0);
    let over = allocate_oldest_first(400, &vec![100]);
    assert_eq!(over.remaining, 300);
    assert_eq!(
        message(check_cash_balance("expense", 2, 100, -150).unwrap_err()),
        "expense: cash account 2 would go into overdraft (balance 100)"
    );
    assert!(check_cash_balance("expense", 2, 100, -100).is_ok());
    assert!(payment_method_dto(1, "CASH".into(), "Cash".into(), 1).is_active);
    assert!(!payment_method_dto(1, "CASH".into(), "Cash".into(), 0).is_active);
}

#[test]
fn categories_names_and_parents() {
    assert_eq!(validate_name("category name", "  Chairs ").unwrap(), "Chairs");
    assert_eq!(
        message(validate_name("category name", &"x".repeat(121)).unwrap_err()),
        "category name is required and must be 120 characters or fewer"
    );
    let current = CategoryRecord { name: "Chairs".into(), parent_id: None, sort_order: 1, is_active: true };
    assert_eq!(
        message(plan_category_update(4, current, &None, Some(Some(4)), None, None).unwrap_err()),
        "a category cannot be its own parent"
    );
    let current = CategoryRecord { name: "Chairs".into(), parent_id: None, sort_order: 1, is_active: true };
    let moved = plan_category_update(4, current, &Some(" Office ".into()), Some(Some(2)), None, Some(false)).unwrap();
    assert_eq!(moved.name, "Office");
    assert_eq!(moved.parent_id, Some(2));
    assert_eq!(moved.sort_order, 1);
    assert!(!moved.is_active);
    assert_eq!(message(sibling_conflict("Chairs")), "a sibling category named `Chairs` already exists");
    assert_eq!(
        message(product_type_conflict("King")),
        "a product type named `King` already exists in this category"
    );
    assert_eq!(message(check_archivable("category", 9, None).unwrap_err()), "category 9");
    assert_eq!(
        message(check_archivable("category", 9, Some(false)).unwrap_err()),
        "category is already archived"
    );
}

#[test]
fn backup_rules() {
    assert_eq!(current_schema_version(&vec![3, 9, 4]), 9);
    assert_eq!(current_schema_version(&vec![]), 0);
    assert_eq!(pending_migrations(5, 7), 0);
    assert_eq!(pending_migrations(7, 5), 2);
    assert_eq!(settings_bool(Some(" true ".into())), Some(true));
    assert_eq!(settings_bool(Some("yes".into())), Some(false));
    assert_eq!(settings_bool(None), None);
    assert!(check_listed_backup_name("a.zip").is_ok());
    assert_eq!(message(check_listed_backup_name("../a.zip").unwrap_err()), "invalid backup name");
    assert_eq!(message(check_backup_name_given(" ").unwrap_err()), "backup name is required");
    assert_eq!(
        message(check_restorable("b.zip", false).unwrap_err()),
        "backup `b.zip` failed integrity verification and was not restored"
    );
    assert!(check_automatic_backup(false).is_err());
    assert_eq!(history_size(u64::MAX), i64::MAX);
    assert_eq!(integrity_outcome(true, 0).1, "true");
    assert_eq!(integrity_outcome(true, 2).1, "false");
    assert_eq!(
        preferred_directory(None, &Some("\"D:\\\\Backups\"".into())),
        Some("D:\\Backups".to_string())
    );
    assert_eq!(preferred_directory(None, &Some("\"  \"".into())), None);
    assert_eq!(preferred_directory(Some("E".into()), &None), Some("E".to_string()));
    assert_eq!(
        last_backup_name(&vec![("a".into(), true), ("b".into(), false), ("c".into(), true), ("d".into(), false)]),
        Some("c".to_string())
    );
    assert_eq!(last_backup_name(&vec![("a".into(), false), ("b".into(), false)]), Some("b".to_string()));
    let (name, legacy) = restore_source("/backups/old.DB");
    assert_eq!(name, "old.DB");
    assert!(legacy);
    let kept = machine_settings(
        vec![("backup.location".into(), "\"x\"".into()), ("license.id".into(), "\"L\"".into())],
        &Some("D".into()),
        true,
    );
    assert_eq!(kept[0].0, "license.id");
    assert_eq!(kept[1], ("backup.location".to_string(), "\"D\"".to_string()));
    assert_eq!(kept[2], ("backup.auto_on_close".to_string(), "true".to_string()));
    let item = list_item(PackageInspection {
        name: "n".into(),
        path: "p".into(),
        size_bytes: 1,
        sha256: "s".into(),
        created_at: "c".into(),
        kind: "manual".into(),
        app_version: None,
        schema_version: Some(3),
        file_count: 0,
        legacy_database_only: false,
    });
    assert!(!item.verified);
    assert_eq!(item.created_by, None);
}

fn clock() -> ShopClock {
    ShopClock {
        shop_date: "2026-09-30".into(),
        month_start: "2026-09-01".into(),
        as_of: "2026-09-30T10:00:00+00:00".into(),
    }
}

fn delivery(id: i64) -> DashboardDelivery {
    DashboardDelivery {
        id,
        delivery_number: None,
        sale_id: 1,
        customer_id: None,
        customer_name: "Walk-in Customer".into(),
        items: "1 x Chair".into(),
        scheduled_at: None,
        status: "pending".into(),
        is_overdue: false,
    }
}

fn transaction(id: i64, kind: TransactionKind) -> DashboardTransaction {
    DashboardTransaction {
        id,
        customer_id: Some(2),
        transaction_date: "2026-09-30".into(),
        customer_name: "Ali".into(),
        reference: format!("#{id}"),
        kind,
        amount_minor: 100,
    }
}

fn figures_read() -> DashboardFigures {
    DashboardFigures {
        sales: Some((1, 2, 3)),
        receipts: Some((4, 5)),
        customers: Some((6, 7, 8)),
        payables: Some((9, 10, 11)),
        pending_deliveries: Some(12),
        open_damage: Some(13),
        low_stock_count: 14,
        upcoming_deliveries: vec![delivery(1), delivery(2)],
        recent_transactions: vec![
            transaction(1, TransactionKind::Payment),
            transaction(2, TransactionKind::Sale),
            transaction(3, TransactionKind::Payment),
        ],
    }
}

#[test]
fn dashboard_hides_what_the_user_may_not_see() {
    let nobody = principal(&[]);
    let summary = dashboard_summary(dashboard_access(&nobody), clock(), figures_read());
    assert!(summary.today_sales_minor.is_none());
    assert!(summary.today_received_minor.is_none());
    assert!(summary.customer_dues_minor.is_none());
    assert!(summary.supplier_payables_minor.is_none());
    assert!(summary.pending_deliveries.is_none());
    assert!(summary.open_damage_count.is_none());
    assert!(summary.upcoming_deliveries.is_empty());
    assert!(summary.recent_transactions.is_empty());
    assert_eq!(summary.low_stock_count, 14);
    assert_eq!(summary.as_of, "2026-09-30T10:00:00+00:00");

    let seller = principal(&["invoice.print"]);
    assert!(allowed(&seller, &vec!["sale.create", "invoice.print"]));
    assert!(!allowed(&seller, &vec!["payable.view"]));
    let shown = dashboard_summary(dashboard_access(&seller), clock(), figures_read());
    assert_eq!(shown.today_sales_count, Some(1));
    assert_eq!(shown.month_sales_minor, Some(3));
    let ids: Vec<i64> = shown.recent_transactions.iter().map(|t| t.id).collect();
    assert_eq!(ids, vec![2]);
    assert!(shown.upcoming_deliveries.is_empty());

    let manager = principal(&["delivery.view", "customer.view", "sale.create"]);
    let all = dashboard_summary(dashboard_access(&manager), clock(), figures_read());
    assert_eq!(all.upcoming_deliveries.len(), 2);
    assert_eq!(all.recent_transactions.len(), 3);
    assert_eq!(all.recent_transactions[0].kind, TransactionKind::Payment);
}

#[test]
fn shop_day_follows_the_configured_time_zone() {
    // 2026-09-30T20:30:00Z is already 1 October in Karachi (UTC+5).
    let secs = 1_790_800_200;
    let c = shop_dates(&Some("\"Asia/Karachi\"".into()), secs, 0).unwrap();
    assert_eq!(c.shop_date, "2026-10-01");
    assert_eq!(c.month_start, "2026-10-01");
    assert_eq!(c.as_of, "2026-09-30T20:30:00+00:00");
    let u = shop_dates(&Some("\"Not/AZone\"".into()), secs, 0).unwrap();
    assert_eq!(u.shop_date, "2026-09-30");
    assert_eq!(u.month_start, "2026-09-01");
    // Years past 9999 carry their sign, as `%Y` writes them.
    let late = shop_dates(&None, 253402300799, 0).unwrap();
    assert_eq!(late.shop_date, "+10000-01-01");
    let first = shop_dates(&Some("\"America/New_York\"".into()), -62135596800, 0).unwrap();
    assert_eq!(first.shop_date, "0000-12-31");
    // The ends of the admitted range stay inside chrono's calendar in any zone.
    let last = shop_dates(&Some("\"Pacific/Kiritimati\"".into()), LATEST_SHOP_SECS, 0).unwrap();
    assert_eq!(last.shop_date, "+262142-12-31");
    let earliest = shop_dates(&Some("\"Pacific/Pago_Pago\"".into()), EARLIEST_SHOP_SECS, 0).unwrap();
    assert_eq!(earliest.shop_date, "-262143-01-01");
}

#[test]
fn editing_a_sale() {
    assert_eq!(check_sale_editable(3, Some("confirmed".into()), 0).unwrap(), true);
    assert_eq!(check_sale_editable(3, Some("draft".into()), 0).unwrap(), false);
    assert_eq!(
        message(check_sale_editable(3, Some("cancelled".into()), 0).unwrap_err()),
        "Cannot edit a cancelled sale"
    );
    assert_eq!(
        message(check_sale_editable(3, Some("draft".into()), 1).unwrap_err()),
        "Cannot edit a sale that has credit notes applied"
    );
    assert_eq!(message(check_sale_editable(3, None, 0).unwrap_err()), "sale 3");
    let t = sale_totals(
        &vec![SaleLine { unit_price_minor: 1000, quantity: 2 }, SaleLine { unit_price_minor: 50, quantity: 3 }],
        Some(100),
        Some(300),
    );
    assert_eq!(t.line_totals, vec![2000, 150]);
    assert_eq!(t.subtotal, 2150);
    assert_eq!(t.total, 2350);
    assert_eq!(message(missing_reference("bundle", 5)), "bundle 5 not found");
}

#[test]
fn license_verifier_is_installed_once() {
    let mut slot = None;
    let first = LicenseRuntime { license_dir: "a".into(), hardware_id: "h".into() };
    assert!(initialize(&mut slot, first).is_ok());
    let second = LicenseRuntime { license_dir: "b".into(), hardware_id: "h".into() };
    assert_eq!(
        message(initialize(&mut slot, second).unwrap_err()),
        "license verifier was initialized twice"
    );
    assert_eq!(slot.unwrap().license_dir, "a");
}
