use furniture_shop::audit::normalize_bound;

#[test]
fn date_bounds_expand_to_full_day() {
    assert_eq!(
        normalize_bound("2026-09-08", false),
        Some("2026-09-08T00:00:00.000Z".into())
    );
    assert_eq!(
        normalize_bound("2026-09-08", true),
        Some("2026-09-08T23:59:59.999Z".into())
    );
    assert_eq!(
        normalize_bound("2026-09-08T09:30:00.000Z", false),
        Some("2026-09-08T09:30:00.000Z".into())
    );
    assert_eq!(normalize_bound("", false), None);
    assert_eq!(normalize_bound("   ", true), None);
}

#[test]
fn date_bounds_are_trimmed_before_expanding() {
    assert_eq!(
        normalize_bound("  2026-01-31 ", true),
        Some("2026-01-31T23:59:59.999Z".into())
    );
    assert_eq!(normalize_bound(" 2026/01/31 ", false), Some("2026/01/31".into()));
}
