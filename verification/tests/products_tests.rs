use furniture_shop::error::AppError;
use furniture_shop::products::{
    abs_path, check_archive, check_new_product, check_primary_image, check_product_update,
    check_unarchive, generated_names, image_sources, merge_product_update, next_primary,
    normalize_article_number, normalize_attributes, optional_text, parse_list_scope,
    place_new_image, plan_image_order, plan_list_search, required_text, safe_relative_filename,
    thumbnail_path, type_check_for, validate_minor, AttributeInput, CreateProductInput,
    GeneratedImage, ListScope, ProductSnapshot, UpdateProductInput,
};

fn validation_message(e: AppError) -> String {
    match e {
        AppError::Validation(m) => m,
        _ => panic!("expected a validation error"),
    }
}

fn attr(name: &str, value: &str) -> AttributeInput {
    AttributeInput { name: name.into(), value: value.into() }
}

fn base_input() -> CreateProductInput {
    CreateProductInput {
        article_number: " a-100 ".into(),
        name: " Velvet Sofa ".into(),
        category_id: 1,
        product_type_id: None,
        unit_id: None,
        description: Some("  ".into()),
        material: Some(" Oak ".into()),
        color: None,
        dimensions_text: None,
        brand: None,
        barcode: None,
        warranty_months: Some(12),
        notes: None,
        cost_minor: 25000,
        sale_price_minor: 45000,
        minimum_stock: 1,
        track_stock: true,
        attributes: vec![attr(" Seats ", " 3 ")],
        image_paths: vec![" a.png ".into(), "   ".into()],
    }
}

fn snapshot() -> ProductSnapshot {
    ProductSnapshot {
        article_number: "A-100".into(),
        article_number_norm: "A-100".into(),
        name: "Sofa".into(),
        category_id: 1,
        product_type_id: Some(7),
        unit_id: Some(2),
        description: Some("old".into()),
        material: Some("Oak".into()),
        color: None,
        dimensions_text: None,
        brand: None,
        barcode: None,
        warranty_months: Some(6),
        notes: Some("n".into()),
        cost_minor: 100,
        sale_price_minor: 200,
        minimum_stock: 1,
        track_stock: true,
        is_active: true,
    }
}

fn empty_update() -> UpdateProductInput {
    UpdateProductInput {
        article_number: None,
        name: None,
        category_id: None,
        product_type_id: None,
        unit_id: None,
        description: None,
        material: None,
        color: None,
        dimensions_text: None,
        brand: None,
        barcode: None,
        warranty_months: None,
        notes: None,
        cost_minor: None,
        sale_price_minor: None,
        minimum_stock: None,
        track_stock: None,
        attributes: None,
    }
}

#[test]
fn article_numbers_are_collapsed_and_upper_cased() {
    let (display, norm) = normalize_article_number("  c-100   x ").unwrap();
    assert_eq!(display, "c-100 x");
    assert_eq!(norm, "C-100 X");
    for variant in ["C-100 X", "c-100   x", "  C-100 X  ", "C-100  x"] {
        assert_eq!(normalize_article_number(variant).unwrap().1, "C-100 X");
    }
    assert_ne!(normalize_article_number("C-100Y").unwrap().1, "C-100 X");
}

#[test]
fn article_numbers_are_refused_when_blank_long_or_controlled() {
    let blank = normalize_article_number("   ").unwrap_err();
    assert_eq!(
        validation_message(blank),
        "article number is required and must be 64 characters or fewer"
    );
    assert!(normalize_article_number(&"x".repeat(65)).is_err());
    assert!(normalize_article_number(&"x".repeat(64)).is_ok());
    let control = normalize_article_number("A\u{7}B").unwrap_err();
    assert_eq!(validation_message(control), "article number contains invalid characters");
}

#[test]
fn required_and_optional_texts() {
    assert_eq!(required_text("product name", "  Chair ", 200).unwrap(), "Chair");
    assert_eq!(
        validation_message(required_text("product name", " ", 200).unwrap_err()),
        "product name is required and must be 200 characters or fewer"
    );
    assert_eq!(optional_text(&None, "notes", 10).unwrap(), None);
    assert_eq!(optional_text(&Some("   ".into()), "notes", 10).unwrap(), None);
    assert_eq!(optional_text(&Some(" hi ".into()), "notes", 10).unwrap(), Some("hi".into()));
    assert_eq!(
        validation_message(optional_text(&Some("x".repeat(11)), "notes", 10).unwrap_err()),
        "notes must be 10 characters or fewer"
    );
    assert_eq!(
        validation_message(validate_minor("sale price", -1).unwrap_err()),
        "sale price cannot be negative"
    );
    assert!(validate_minor("sale price", 0).is_ok());
}

#[test]
fn attributes_are_trimmed_counted_and_checked_in_order() {
    let out = normalize_attributes(&vec![attr(" Wood ", " Oak "), attr("Seats", "3")]).unwrap();
    assert_eq!(out, vec![("Wood".to_string(), "Oak".to_string()), ("Seats".into(), "3".into())]);
    let too_many: Vec<AttributeInput> = (0..61).map(|_| attr("a", "b")).collect();
    assert_eq!(
        validation_message(normalize_attributes(&too_many).unwrap_err()),
        "at most 60 attributes are allowed"
    );
    let bad_value = normalize_attributes(&vec![attr("ok", "fine"), attr("x", " ")]).unwrap_err();
    assert_eq!(
        validation_message(bad_value),
        "attribute values must be non-empty and 200 characters or fewer"
    );
    let bad_name = normalize_attributes(&vec![attr(" ", "v"), attr("x", " ")]).unwrap_err();
    assert_eq!(
        validation_message(bad_name),
        "attribute names must be non-empty and 60 characters or fewer"
    );
}

#[test]
fn file_names_stay_inside_the_images_directory() {
    assert!(safe_relative_filename("a.webp"));
    assert!(!safe_relative_filename(""));
    assert!(!safe_relative_filename("../a.webp"));
    assert!(!safe_relative_filename("dir\\a.webp"));
    assert_eq!(abs_path("/images", "../x"), "");
    assert!(abs_path("/images", "x.webp").ends_with("x.webp"));
    assert_eq!(thumbnail_path("/images", Some("a/b".into())), None);
    assert_eq!(thumbnail_path("/images", None), None);
    assert!(thumbnail_path("/images", Some("t.webp".into())).is_some());
}

#[test]
fn generated_names_list_image_then_thumbnail() {
    let images = vec![
        GeneratedImage { stored_name: "1.webp".into(), thumbnail_name: "1-thumb.webp".into() },
        GeneratedImage { stored_name: "2.webp".into(), thumbnail_name: "2-thumb.webp".into() },
    ];
    assert_eq!(generated_names(&images), vec!["1.webp", "1-thumb.webp", "2.webp", "2-thumb.webp"]);
}

#[test]
fn new_product_checks_and_cleans_its_fields() {
    let t = check_new_product(&base_input()).unwrap();
    assert_eq!(t.article_number, "a-100");
    assert_eq!(t.article_number_norm, "A-100");
    assert_eq!(t.name, "Velvet Sofa");
    assert_eq!(t.description, None);
    assert_eq!(t.material, Some("Oak".into()));
    assert_eq!(t.attributes, vec![("Seats".to_string(), "3".to_string())]);
    assert_eq!(t.image_paths, vec!["a.png".to_string()]);

    let mut negative = base_input();
    negative.cost_minor = -1;
    assert_eq!(
        validation_message(check_new_product(&negative).unwrap_err()),
        "purchase cost cannot be negative"
    );
    let mut images = base_input();
    images.image_paths = (0..9).map(|i| format!("{i}.png")).collect();
    assert_eq!(
        validation_message(check_new_product(&images).unwrap_err()),
        "at most 8 images per product"
    );
    assert_eq!(image_sources(&vec![" ".into(), " b ".into()]).unwrap(), vec!["b".to_string()]);
}

#[test]
fn an_update_that_gives_nothing_keeps_the_product() {
    let checked = check_product_update(&empty_update()).unwrap();
    let merged = merge_product_update(snapshot(), empty_update(), checked).unwrap();
    let before = snapshot();
    assert_eq!(merged.article_number, before.article_number);
    assert_eq!(merged.name, before.name);
    assert_eq!(merged.description, before.description);
    assert_eq!(merged.notes, before.notes);
    assert_eq!(merged.product_type_id, before.product_type_id);
    assert_eq!(merged.cost_minor, before.cost_minor);
    assert_eq!(merged.warranty_months, before.warranty_months);
}

#[test]
fn an_update_replaces_given_fields_and_clears_blank_texts() {
    let mut input = empty_update();
    input.article_number = Some(" a-200 ".into());
    input.description = Some("   ".into());
    input.unit_id = Some(None);
    input.cost_minor = Some(999);
    let checked = check_product_update(&input).unwrap();
    let merged = merge_product_update(snapshot(), input, checked).unwrap();
    assert_eq!(merged.article_number, "a-200");
    assert_eq!(merged.article_number_norm, "A-200");
    assert_eq!(merged.description, None);
    assert_eq!(merged.unit_id, None);
    assert_eq!(merged.cost_minor, 999);
    assert_eq!(merged.sale_price_minor, 200);

    let mut bad = empty_update();
    bad.minimum_stock = Some(-5);
    assert_eq!(
        validation_message(check_product_update(&bad).unwrap_err()),
        "minimum stock cannot be negative"
    );
    let mut notes = empty_update();
    notes.notes = Some("x".repeat(4001));
    let checked = check_product_update(&notes).unwrap();
    assert_eq!(
        validation_message(merge_product_update(snapshot(), notes, checked).unwrap_err()),
        "notes must be 4000 characters or fewer"
    );
}

#[test]
fn moving_category_rechecks_the_stored_type() {
    assert_eq!(type_check_for(Some(3), None, Some(7)), Some((3, 7)));
    assert_eq!(type_check_for(Some(3), Some(Some(9)), Some(7)), Some((3, 9)));
    assert_eq!(type_check_for(Some(3), Some(None), Some(7)), None);
    assert_eq!(type_check_for(None, Some(Some(9)), Some(7)), None);
}

#[test]
fn archiving_rules() {
    assert!(matches!(check_archive(5, None), Err(AppError::NotFound(m)) if m == "product 5"));
    assert!(matches!(check_archive(5, Some(Some("t".into()))), Err(AppError::Conflict(_))));
    assert!(check_archive(5, Some(None)).is_ok());
    assert!(matches!(
        check_unarchive(5, Some(("Sofa".into(), false)), false),
        Err(AppError::Conflict(m)) if m == "product is not archived"
    ));
    assert!(matches!(
        check_unarchive(5, Some(("A-1".into(), true)), true),
        Err(AppError::Conflict(m)) if m == "cannot restore: article number `A-1` is already in use by another live product"
    ));
    assert!(check_unarchive(5, Some(("A-1".into(), true)), false).is_ok());
}

#[test]
fn image_list_rules() {
    assert_eq!(place_new_image(0).unwrap(), (0, true));
    assert_eq!(place_new_image(7).unwrap(), (7, false));
    assert!(place_new_image(8).is_err());
    assert_eq!(
        plan_image_order(&vec![3, 1], &vec![1, 3]).unwrap(),
        vec![(3, 0, true), (1, 1, false)]
    );
    assert!(plan_image_order(&vec![3], &vec![1, 3]).is_err());
    assert!(plan_image_order(&vec![3, 4], &vec![1, 3]).is_err());
    assert_eq!(next_primary(&vec![(9, 2), (4, 1), (3, 1)]), Some(3));
    assert_eq!(next_primary(&vec![]), None);
    assert!(matches!(check_primary_image(12, false), Err(AppError::NotFound(m)) if m == "image 12"));
}

#[test]
fn list_scope_and_search_terms() {
    assert_eq!(parse_list_scope(&Some("archived".into())), ListScope::Archived);
    assert_eq!(parse_list_scope(&Some("all".into())), ListScope::All);
    assert_eq!(parse_list_scope(&Some("".into())), ListScope::Active);
    assert_eq!(parse_list_scope(&None), ListScope::Active);
    let s = plan_list_search(&Some("  oak   sofa ".into()), &Some(" wood ".into()));
    assert_eq!(s.search.as_deref(), Some("OAK SOFA"));
    assert_eq!(s.attribute.as_deref(), Some("WOOD"));
    assert_eq!(s.limit, Some(300));
    let none = plan_list_search(&Some("  ".into()), &None);
    assert_eq!(none.search, None);
    assert_eq!(none.limit, None);
}
