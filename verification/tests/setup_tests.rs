use furniture_shop::error::AppError;
use furniture_shop::setup::{
    check_owner_setup, check_setup_open, check_shop_setup, first_run_status, initial_defaults,
    setup_settings, should_seed_administrator, FirstRunInput,
};

fn input() -> FirstRunInput {
    FirstRunInput {
        shop_name: "Test Furniture".into(),
        shop_address: "12 Market Street".into(),
        shop_phone: "0300-1234567".into(),
        shop_email: "shop@example.com".into(),
        currency: "PKR".into(),
        timezone: "Asia/Karachi".into(),
        invoice_prefix: Some("TEST/".into()),
        backup_location: None,
        owner_username: "owner".into(),
        owner_full_name: "Owner One".into(),
        owner_password: "Owner Pass 123".into(),
    }
}

fn message(e: AppError) -> String {
    match e {
        AppError::Validation(m) | AppError::Conflict(m) => m,
        _ => panic!("unexpected error kind"),
    }
}

#[test]
fn setup_flag_reads_quoted_and_bare_true() {
    assert!(first_run_status(Some("\"true\"".into()), 1).complete);
    assert!(first_run_status(Some("true".into()), 1).complete);
    let fresh = first_run_status(None, 0);
    assert!(!fresh.complete);
    assert!(fresh.required);
    assert!(!fresh.has_users);
    assert!(!first_run_status(Some("false".into()), 3).complete);
}

#[test]
fn shop_details_are_checked_and_cleaned() {
    let shop = check_shop_setup(&input()).unwrap();
    assert_eq!(shop.currency, "PKR");
    assert_eq!(shop.invoice_prefix.as_deref(), Some("TEST/"));
    let mut lower = input();
    lower.currency = " pkr ".into();
    assert_eq!(check_shop_setup(&lower).unwrap().currency, "PKR");
    let mut bad_prefix = input();
    bad_prefix.invoice_prefix = Some("bad prefix spaces".into());
    assert_eq!(
        message(check_shop_setup(&bad_prefix).unwrap_err()),
        "invoice prefix must be 1-16 characters using letters, digits, '/', '-', '_' or '.'"
    );
    let mut relative = input();
    relative.backup_location = Some("relative/backups".into());
    assert_eq!(
        message(check_shop_setup(&relative).unwrap_err()),
        "backup location must be an absolute folder path"
    );
    let mut currency = input();
    currency.currency = "RUPEE".into();
    assert_eq!(
        message(check_shop_setup(&currency).unwrap_err()),
        "currency must be a 3-letter code (e.g. PKR)"
    );
    let mut name = input();
    name.shop_name = "x".repeat(101);
    assert_eq!(
        message(check_shop_setup(&name).unwrap_err()),
        "shop name is required and must be 100 characters or fewer"
    );
}

#[test]
fn owner_details_are_checked_and_cleaned() {
    let mut i = input();
    i.owner_username = "  Owner.One ".into();
    assert_eq!(check_owner_setup(&i).unwrap(), ("owner.one".to_string(), "Owner One".to_string()));
    i.owner_username = "ab".into();
    assert_eq!(
        message(check_owner_setup(&i).unwrap_err()),
        "owner username must be 3+ characters using letters, digits, '.', '_' or '-'"
    );
    let mut f = input();
    f.owner_full_name = "  ".into();
    assert_eq!(
        message(check_owner_setup(&f).unwrap_err()),
        "owner full name is required and must be 200 characters or fewer"
    );
}

#[test]
fn setup_runs_once_and_writes_its_settings() {
    assert!(check_setup_open(0).is_ok());
    assert_eq!(message(check_setup_open(1).unwrap_err()), "first-run setup is already complete");
    let shop = check_shop_setup(&input()).unwrap();
    let settings = setup_settings(&shop);
    assert_eq!(settings[0], ("shop.name".to_string(), "\"Test Furniture\"".to_string()));
    assert_eq!(settings[3], ("invoice.prefix".to_string(), "\"TEST/\"".to_string()));
    assert_eq!(settings[6], ("system.first_run_complete".to_string(), "true".to_string()));
    assert_eq!(settings.len(), 10);
    assert_eq!(settings[9].0, "shop.email");
    let mut bare = input();
    bare.invoice_prefix = None;
    bare.shop_address = " ".into();
    let s = setup_settings(&check_shop_setup(&bare).unwrap());
    assert_eq!(s[3].1, "\"INV/\"");
    assert_eq!(s.len(), 9);
}

#[test]
fn settings_are_written_as_json_strings() {
    let mut odd = input();
    odd.shop_name = "Ali \"Best\" Sofas\\Beds".into();
    odd.shop_address = "Line 1\nLine 2\tBlock \u{1}".into();
    let shop = check_shop_setup(&odd).unwrap();
    let settings = setup_settings(&shop);
    assert_eq!(settings[0].1, serde_json::to_string(&shop.shop_name).unwrap());
    assert_eq!(settings[0].1, "\"Ali \\\"Best\\\" Sofas\\\\Beds\"");
    let address = settings.iter().find(|(k, _)| k == "shop.address").unwrap();
    assert_eq!(address.1, serde_json::to_string(&shop.address).unwrap());
    assert_eq!(address.1, "\"Line 1\\nLine 2\\tBlock \\u0001\"");
}

#[test]
fn initial_administrator_is_seeded_only_on_an_empty_owner_role() {
    assert!(should_seed_administrator(0, 0));
    assert!(!should_seed_administrator(1, 0));
    assert!(!should_seed_administrator(0, 1));
    assert_eq!(initial_defaults(0).len(), 7);
    assert_eq!(initial_defaults(0)[1].1, "\"PKR\"");
    assert!(initial_defaults(3).is_empty());
}
